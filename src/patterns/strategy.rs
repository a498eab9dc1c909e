use vstd::prelude::*;
use crate::traits::{Action, DesignPattern, DesignPatternFactory, Line};

verus! {

/// How a duck flies.
#[derive(Clone, Copy, Debug, PartialEq, Eq, Structural)]
pub enum FlyBehavior {
    FlyWithWings,
    FlyNoFly,
}

/// How a duck quacks.
#[derive(Clone, Copy, Debug, PartialEq, Eq, Structural)]
pub enum QuackBehavior {
    Quack,
    Squeak,
    MuteQuack,
}

impl FlyBehavior {
    pub open spec fn action(self) -> Action {
        match self {
            FlyBehavior::FlyWithWings => Action::Flying,
            FlyBehavior::FlyNoFly => Action::CannotFly,
        }
    }

    pub fn fly(&self) -> (r: Action)
        ensures
            r == self.action(),
    {
        match self {
            FlyBehavior::FlyWithWings => Action::Flying,
            FlyBehavior::FlyNoFly => Action::CannotFly,
        }
    }
}

impl QuackBehavior {
    pub open spec fn action(self) -> Action {
        match self {
            QuackBehavior::Quack => Action::Quacking,
            QuackBehavior::Squeak => Action::Squeaking,
            QuackBehavior::MuteQuack => Action::CannotQuack,
        }
    }

    pub fn quack(&self) -> (r: Action)
        ensures
            r == self.action(),
    {
        match self {
            QuackBehavior::Quack => Action::Quacking,
            QuackBehavior::Squeak => Action::Squeaking,
            QuackBehavior::MuteQuack => Action::CannotQuack,
        }
    }
}

/// A duck delegates flying and quacking to the behaviors it holds; either
/// slot can be replaced at run time.
pub struct Duck {
    pub fly_behavior: FlyBehavior,
    pub quack_behavior: QuackBehavior,
}

impl Duck {
    pub fn new(fly_behavior: FlyBehavior, quack_behavior: QuackBehavior) -> (r: Duck)
        ensures
            r.fly_behavior == fly_behavior,
            r.quack_behavior == quack_behavior,
    {
        Duck { fly_behavior, quack_behavior }
    }

    pub fn fly(&self) -> (r: Action)
        ensures
            r == self.fly_behavior.action(),
    {
        self.fly_behavior.fly()
    }

    pub fn quack(&self) -> (r: Action)
        ensures
            r == self.quack_behavior.action(),
    {
        self.quack_behavior.quack()
    }

    /// Every duck swims the same way, whatever its behaviors.
    pub fn swim(&self) -> (r: Action)
        ensures
            r == Action::Swimming,
    {
        Action::Swimming
    }

    pub fn set_fly_behavior(&mut self, fly_behavior: FlyBehavior)
        ensures
            final(self).fly_behavior == fly_behavior,
            final(self).quack_behavior == old(self).quack_behavior,
    {
        self.fly_behavior = fly_behavior;
    }

    pub fn set_quack_behavior(&mut self, quack_behavior: QuackBehavior)
        ensures
            final(self).quack_behavior == quack_behavior,
            final(self).fly_behavior == old(self).fly_behavior,
    {
        self.quack_behavior = quack_behavior;
    }
}

/// Replacing one behavior slot of a duck changes what that slot performs
/// next, and leaves what the other slot performs as it was.
pub proof fn lemma_replacing_a_slot_touches_only_that_slot(
    before: Duck,
    after_fly: Duck,
    after_quack: Duck,
    fly_behavior: FlyBehavior,
    quack_behavior: QuackBehavior,
)
    requires
        after_fly.fly_behavior == fly_behavior,
        after_fly.quack_behavior == before.quack_behavior,
        after_quack.quack_behavior == quack_behavior,
        after_quack.fly_behavior == before.fly_behavior,
    ensures
        after_fly.fly_behavior.action() == fly_behavior.action(),
        after_fly.quack_behavior.action() == before.quack_behavior.action(),
        after_quack.quack_behavior.action() == quack_behavior.action(),
        after_quack.fly_behavior.action() == before.fly_behavior.action(),
{
}

/// A duck call cannot fly and always quacks: its behaviors are fixed.
pub struct DuckCall {
    fly_behavior: FlyBehavior,
    quack_behavior: QuackBehavior,
}

impl DuckCall {
    pub closed spec fn wf(self) -> bool {
        self.fly_behavior == FlyBehavior::FlyNoFly && self.quack_behavior == QuackBehavior::Quack
    }

    pub fn new() -> (r: DuckCall)
        ensures
            r.wf(),
    {
        DuckCall { fly_behavior: FlyBehavior::FlyNoFly, quack_behavior: QuackBehavior::Quack }
    }

    pub fn fly(&self) -> (r: Action)
        requires
            self.wf(),
        ensures
            r == Action::CannotFly,
    {
        self.fly_behavior.fly()
    }

    pub fn quack(&self) -> (r: Action)
        requires
            self.wf(),
        ensures
            r == Action::Quacking,
    {
        self.quack_behavior.quack()
    }
}

/// The duck scenario: a duck flies and quacks, has both behaviors replaced,
/// then its quack alone, swims; then a duck call quacks and fails to fly.
#[derive(Clone, Copy, Debug, PartialEq, Eq, Structural)]
pub struct StrategyPattern;

impl DesignPatternFactory for StrategyPattern {
    fn new() -> Self {
        StrategyPattern
    }
}

impl DesignPattern for StrategyPattern {
    open spec fn transcript(&self) -> Seq<Line> {
        seq![
            Line::Act(Action::Flying),
            Line::Act(Action::Quacking),
            Line::Act(Action::CannotFly),
            Line::Act(Action::Squeaking),
            Line::Act(Action::CannotQuack),
            Line::Act(Action::Swimming),
            Line::Act(Action::Quacking),
            Line::Act(Action::CannotFly),
        ]
    }

    fn run(&self) -> (r: Vec<Line>) {
        let mut out: Vec<Line> = Vec::new();
        let mut duck = Duck::new(FlyBehavior::FlyWithWings, QuackBehavior::Quack);
        out.push(Line::Act(duck.fly()));
        out.push(Line::Act(duck.quack()));

        duck.set_fly_behavior(FlyBehavior::FlyNoFly);
        duck.set_quack_behavior(QuackBehavior::Squeak);
        out.push(Line::Act(duck.fly()));
        out.push(Line::Act(duck.quack()));

        duck.set_quack_behavior(QuackBehavior::MuteQuack);
        out.push(Line::Act(duck.quack()));
        out.push(Line::Act(duck.swim()));

        let duck_call = DuckCall::new();
        out.push(Line::Act(duck_call.quack()));
        out.push(Line::Act(duck_call.fly()));
        assert(out@ =~= self.transcript());
        out
    }
}

} // verus!
