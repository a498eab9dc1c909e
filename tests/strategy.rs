use design_patterns::patterns::strategy::{Duck, DuckCall, FlyBehavior, QuackBehavior, StrategyPattern};
use design_patterns::puzzles::strategy_puzzle::{Character, StrategyPatternPuzzle, WeaponBehavior};
use design_patterns::traits::{Action, DesignPattern, DesignPatternFactory, Line};
use design_patterns::{run, App, Config, Pattern};

fn acts(actions: &[Action]) -> Vec<Line> {
    actions.iter().map(|a| Line::Act(*a)).collect()
}

#[test]
fn replacing_a_slot_changes_only_that_slot() {
    let mut duck = Duck::new(FlyBehavior::FlyWithWings, QuackBehavior::Quack);
    assert_eq!(duck.fly(), Action::Flying);
    assert_eq!(duck.quack(), Action::Quacking);
    duck.set_fly_behavior(FlyBehavior::FlyNoFly);
    assert_eq!(duck.fly(), Action::CannotFly);
    assert_eq!(duck.quack(), Action::Quacking);
    duck.set_quack_behavior(QuackBehavior::MuteQuack);
    assert_eq!(duck.fly(), Action::CannotFly);
    assert_eq!(duck.quack(), Action::CannotQuack);
    assert_eq!(duck.swim(), Action::Swimming);
}

#[test]
fn duck_call_is_fixed() {
    let call = DuckCall::new();
    assert_eq!(call.fly(), Action::CannotFly);
    assert_eq!(call.quack(), Action::Quacking);
}

#[test]
fn character_changes_weapon() {
    let mut knight = Character::new(WeaponBehavior::Sword);
    assert_eq!(knight.fight(), Action::UsingSword);
    knight.set_weapon(WeaponBehavior::Axe);
    assert_eq!(knight.fight(), Action::UsingAxe);
    knight.set_weapon(WeaponBehavior::BowAndArrow);
    assert_eq!(knight.fight(), Action::UsingBowAndArrow);
}

#[test]
fn action_messages() {
    assert_eq!(Action::Flying.message(), "Just flying...");
    assert_eq!(Action::Squeaking.message(), "Squeaking...");
    assert_eq!(Action::UsingKnife.message(), "Just going to use knife...");
}

#[test]
fn strategy_scenario_end_to_end() {
    let config = Config { name: "strategy".to_string(), run_puzzle: false };
    let lines = run(config).unwrap();
    let expected = acts(&[
        Action::Flying,
        Action::Quacking,
        Action::CannotFly,
        Action::Squeaking,
        Action::CannotQuack,
        Action::Swimming,
        Action::Quacking,
        Action::CannotFly,
    ]);
    assert_eq!(lines, expected);
    assert_eq!(StrategyPattern::new().run(), expected);
}

#[test]
fn strategy_puzzle_end_to_end() {
    let config = Config { name: "strategy".to_string(), run_puzzle: true };
    let expected = acts(&[Action::UsingSword, Action::UsingKnife]);
    assert_eq!(run(config).unwrap(), expected);
    assert_eq!(StrategyPatternPuzzle::new().run(), expected);
}

#[test]
fn observer_scenario_through_registry() {
    let config = Config { name: "observer".to_string(), run_puzzle: false };
    assert_eq!(run(config).unwrap().len(), 12);
}

#[test]
fn unknown_name_is_not_found() {
    let config = Config { name: "singleton".to_string(), run_puzzle: false };
    assert_eq!(run(config), Err("Pattern not found"));
    let config = Config { name: "observer".to_string(), run_puzzle: true };
    assert_eq!(run(config), Err("Pattern not found"));
    let config = Config { name: String::new(), run_puzzle: false };
    assert_eq!(run(config), Err("Pattern not found"));
}

#[test]
fn registry_lookup() {
    let app = App::new();
    assert_eq!(app.get(&"strategy".to_string(), true), Some(Pattern::StrategyPuzzle(StrategyPatternPuzzle)));
    assert_eq!(app.get(&"strategy".to_string(), false), Some(Pattern::Strategy(StrategyPattern)));
    assert_eq!(app.get(&"Strategy".to_string(), false), None);
}
