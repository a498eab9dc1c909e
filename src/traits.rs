use vstd::prelude::*;
use crate::patterns::observer::Notification;

verus! {

/// One line of what a scenario does, in the order it happens.
#[derive(Clone, Copy, Debug, PartialEq, Eq, Structural)]
pub enum Action {
    Flying,
    CannotFly,
    Quacking,
    Squeaking,
    CannotQuack,
    Swimming,
    UsingKnife,
    UsingBowAndArrow,
    UsingAxe,
    UsingSword,
}

impl Action {
    pub open spec fn text(self) -> Seq<char> {
        match self {
            Action::Flying => "Just flying..."@,
            Action::CannotFly => "Sorry, can't fly..."@,
            Action::Quacking => "Quacking..."@,
            Action::Squeaking => "Squeaking..."@,
            Action::CannotQuack => "Can't Quack..."@,
            Action::Swimming => "All ducks should know how to swim!"@,
            Action::UsingKnife => "Just going to use knife..."@,
            Action::UsingBowAndArrow => "I'm not going to worry if you're far enough..."@,
            Action::UsingAxe => "I'm just gonna chop your head off with an axe..."@,
            Action::UsingSword => "My sword is sharp enough for your body..."@,
        }
    }

    /// The sentence that describes this action.
    pub fn message(&self) -> (r: &'static str)
        ensures
            r@ == self.text(),
    {
        match self {
            Action::Flying => "Just flying...",
            Action::CannotFly => "Sorry, can't fly...",
            Action::Quacking => "Quacking...",
            Action::Squeaking => "Squeaking...",
            Action::CannotQuack => "Can't Quack...",
            Action::Swimming => "All ducks should know how to swim!",
            Action::UsingKnife => "Just going to use knife...",
            Action::UsingBowAndArrow => "I'm not going to worry if you're far enough...",
            Action::UsingAxe => "I'm just gonna chop your head off with an axe...",
            Action::UsingSword => "My sword is sharp enough for your body...",
        }
    }
}

/// One step of a scenario's transcript.
#[derive(Clone, Copy, Debug, PartialEq, Eq, Structural)]
pub enum Line {
    /// A behavior was performed.
    Act(Action),
    /// An observer showed something.
    Report(Notification),
    /// A break between two rounds.
    Break,
}

/// A runnable scenario: running it gives, in order, everything it does.
pub trait DesignPattern {
    spec fn transcript(&self) -> Seq<Line>;

    fn run(&self) -> (r: Vec<Line>)
        ensures
            r@ == self.transcript(),
    ;
}

/// A scenario that can be made with no arguments.
pub trait DesignPatternFactory: DesignPattern + Sized {
    fn new() -> Self;
}

} // verus!
