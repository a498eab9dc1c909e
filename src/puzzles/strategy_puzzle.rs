use vstd::prelude::*;
use crate::traits::{Action, DesignPattern, DesignPatternFactory, Line};

verus! {

/// What a character fights with.
#[derive(Clone, Copy, Debug, PartialEq, Eq, Structural)]
pub enum WeaponBehavior {
    Knife,
    BowAndArrow,
    Axe,
    Sword,
}

impl WeaponBehavior {
    pub open spec fn action(self) -> Action {
        match self {
            WeaponBehavior::Knife => Action::UsingKnife,
            WeaponBehavior::BowAndArrow => Action::UsingBowAndArrow,
            WeaponBehavior::Axe => Action::UsingAxe,
            WeaponBehavior::Sword => Action::UsingSword,
        }
    }

    pub fn use_weapon(&self) -> (r: Action)
        ensures
            r == self.action(),
    {
        match self {
            WeaponBehavior::Knife => Action::UsingKnife,
            WeaponBehavior::BowAndArrow => Action::UsingBowAndArrow,
            WeaponBehavior::Axe => Action::UsingAxe,
            WeaponBehavior::Sword => Action::UsingSword,
        }
    }
}

/// A character fights with whatever weapon it holds, and can change weapon.
pub struct Character {
    pub weapon: WeaponBehavior,
}

impl Character {
    pub fn new(weapon: WeaponBehavior) -> (r: Character)
        ensures
            r.weapon == weapon,
    {
        Character { weapon }
    }

    pub fn fight(&self) -> (r: Action)
        ensures
            r == self.weapon.action(),
    {
        self.weapon.use_weapon()
    }

    pub fn set_weapon(&mut self, weapon: WeaponBehavior)
        ensures
            final(self).weapon == weapon,
    {
        self.weapon = weapon;
    }
}

/// The knight scenario: a knight fights with a sword, then with a knife.
#[derive(Clone, Copy, Debug, PartialEq, Eq, Structural)]
pub struct StrategyPatternPuzzle;

impl DesignPatternFactory for StrategyPatternPuzzle {
    fn new() -> Self {
        StrategyPatternPuzzle
    }
}

impl DesignPattern for StrategyPatternPuzzle {
    open spec fn transcript(&self) -> Seq<Line> {
        seq![Line::Act(Action::UsingSword), Line::Act(Action::UsingKnife)]
    }

    fn run(&self) -> (r: Vec<Line>) {
        let mut out: Vec<Line> = Vec::new();
        let mut knight = Character::new(WeaponBehavior::Sword);
        out.push(Line::Act(knight.fight()));

        knight.set_weapon(WeaponBehavior::Knife);
        out.push(Line::Act(knight.fight()));
        assert(out@ =~= self.transcript());
        out
    }
}

} // verus!
