//! Two composition patterns, observer and strategy, modelled as verified
//! values: each runnable scenario returns the transcript of what it does,
//! and a registry selects a scenario by name.

pub mod patterns;
pub mod puzzles;
pub mod traits;

use vstd::prelude::*;
use crate::patterns::observer::ObserverPattern;
use crate::patterns::strategy::StrategyPattern;
use crate::puzzles::strategy_puzzle::StrategyPatternPuzzle;
use crate::traits::{DesignPattern, Line};

verus! {

/// What to run: a scenario's name, and whether to look for it among the
/// puzzles instead of the patterns.
#[derive(Debug)]
pub struct Config {
    pub name: String,
    pub run_puzzle: bool,
}

/// A scenario that the registry can hand out.
#[derive(Clone, Copy, Debug, PartialEq, Eq, Structural)]
pub enum Pattern {
    Observer(ObserverPattern),
    Strategy(StrategyPattern),
    StrategyPuzzle(StrategyPatternPuzzle),
}

impl DesignPattern for Pattern {
    open spec fn transcript(&self) -> Seq<Line> {
        match self {
            Pattern::Observer(p) => p.transcript(),
            Pattern::Strategy(p) => p.transcript(),
            Pattern::StrategyPuzzle(p) => p.transcript(),
        }
    }

    fn run(&self) -> (r: Vec<Line>) {
        match self {
            Pattern::Observer(p) => p.run(),
            Pattern::Strategy(p) => p.run(),
            Pattern::StrategyPuzzle(p) => p.run(),
        }
    }
}

/// The scenario registered under `name`, among the puzzles when
/// `run_puzzle` holds and among the patterns otherwise.
pub open spec fn registered(run_puzzle: bool, name: Seq<char>) -> Option<Pattern> {
    if run_puzzle {
        if name == "strategy"@ {
            Some(Pattern::StrategyPuzzle(StrategyPatternPuzzle))
        } else {
            None
        }
    } else if name == "observer"@ {
        Some(Pattern::Observer(ObserverPattern))
    } else if name == "strategy"@ {
        Some(Pattern::Strategy(StrategyPattern))
    } else {
        None
    }
}

/// The first entry of `entries` whose key is `name`.
fn find(entries: &Vec<(String, Pattern)>, name: &String) -> (r: Option<Pattern>)
    ensures
        r is None <==> forall|i: int| 0 <= i < entries@.len() ==> entries@[i].0@ != name@,
        r matches Some(p) ==> exists|i: int|
            0 <= i < entries@.len() && entries@[i].0@ == name@ && entries@[i].1 == p,
{
    let mut i: usize = 0;
    while i < entries.len()
        invariant
            0 <= i <= entries@.len(),
            forall|k: int| 0 <= k < i ==> entries@[k].0@ != name@,
        decreases entries.len() - i,
    {
        if entries[i].0 == *name {
            return Some(entries[i].1);
        }
        i = i + 1;
    }
    None
}

/// The two registries, patterns and puzzles, each keyed by name.
pub struct App {
    patterns: Vec<(String, Pattern)>,
    puzzles: Vec<(String, Pattern)>,
}

impl App {
    pub closed spec fn wf(self) -> bool {
        &&& self.patterns@.len() == 2
        &&& self.patterns@[0].0@ == "observer"@
        &&& self.patterns@[0].1 == Pattern::Observer(ObserverPattern)
        &&& self.patterns@[1].0@ == "strategy"@
        &&& self.patterns@[1].1 == Pattern::Strategy(StrategyPattern)
        &&& self.puzzles@.len() == 1
        &&& self.puzzles@[0].0@ == "strategy"@
        &&& self.puzzles@[0].1 == Pattern::StrategyPuzzle(StrategyPatternPuzzle)
    }

    pub fn new() -> (r: App)
        ensures
            r.wf(),
    {
        let mut patterns: Vec<(String, Pattern)> = Vec::new();
        patterns.push(("observer".to_owned(), Pattern::Observer(ObserverPattern)));
        patterns.push(("strategy".to_owned(), Pattern::Strategy(StrategyPattern)));

        let mut puzzles: Vec<(String, Pattern)> = Vec::new();
        puzzles.push(("strategy".to_owned(), Pattern::StrategyPuzzle(StrategyPatternPuzzle)));

        App { patterns, puzzles }
    }

    /// Looks `name` up among the puzzles or among the patterns.
    pub fn get(&self, name: &String, run_puzzle: bool) -> (r: Option<Pattern>)
        requires
            self.wf(),
        ensures
            r == registered(run_puzzle, name@),
    {
        proof {
            reveal_strlit("observer");
            reveal_strlit("strategy");
            assert("observer"@[0] != "strategy"@[0]);
        }
        let entries = if run_puzzle {
            &self.puzzles
        } else {
            &self.patterns
        };
        let r = find(entries, name);
        proof {
            if r is None {
                assert(entries@[0].0@ != name@);
                if !run_puzzle {
                    assert(entries@[1].0@ != name@);
                }
            } else {
                let i = choose|i: int|
                    0 <= i < entries@.len() && entries@[i].0@ == name@ && entries@[i].1 == r->0;
                assert(i == 0 || i == 1);
            }
        }
        r
    }
}

/// Runs the scenario that `config` names, or tells that there is none.
pub fn run(config: Config) -> (r: Result<Vec<Line>, &'static str>)
    ensures
        match registered(config.run_puzzle, config.name@) {
            Some(p) => r matches Ok(lines) && lines@ == p.transcript(),
            None => r matches Err(e) && e@ == "Pattern not found"@,
        },
{
    let app = App::new();
    match app.get(&config.name, config.run_puzzle) {
        Some(pattern) => Ok(pattern.run()),
        None => Err("Pattern not found"),
    }
}

} // verus!
