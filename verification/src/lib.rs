//! A sidebar of floating windows kept stacked at the right edge of the screen.
//!
//! The library holds the state model, the layout engine and the membership
//! commands as functions from plain values to plain values: a command takes the
//! working context and what the compositor last reported, updates the tracked
//! state and answers with an [`Outcome`], the compositor actions to issue and
//! what the caller has to do around them, which [`Outcome::steps`] puts in
//! order.
use vstd::prelude::*;

pub mod commands;
pub mod config;
pub mod laws;
pub mod niri;
pub mod state;

pub use crate::config::Config;
pub use crate::niri::{Action, Error, Event, Output, Snapshot, Window, Workspace};
pub use crate::state::AppState;

verus! {

/// The working context of one command: the tracked state and the configuration.
#[derive(Debug, Clone, PartialEq, Eq)]
pub struct Ctx {
    pub state: AppState,
    pub config: Config,
}

/// Which way a focus cycle moves through the tracked sequence.
#[derive(Copy, Clone, PartialEq, Eq, PartialOrd, Ord, Debug)]
pub enum Direction {
    Next,
    Prev,
}

/// What a command asks of its caller, in this order: write the state to durable
/// storage if `persist` is set, issue `actions` to the compositor one by one,
/// and, if `then_reorder` is set, take a fresh snapshot and run
/// [`commands::reorder`] on it.
#[derive(Debug, Clone, PartialEq, Eq)]
pub struct Outcome {
    pub persist: bool,
    pub actions: Vec<Action>,
    pub then_reorder: bool,
}

/// One thing for the caller of a command to do.
#[derive(Copy, Clone, PartialEq, Eq, Debug)]
pub enum Step {
    /// Write the state to durable storage. A failure ends the command.
    Persist,
    /// Issue the action to the compositor. A failure to deliver it is passed
    /// over.
    Send(Action),
    /// Take a fresh snapshot and run [`commands::reorder`] on it. A query that
    /// fails ends the command.
    Reorder,
}

/// The step that issues an action.
pub open spec fn send_step() -> spec_fn(Action) -> Step {
    |action: Action| Step::Send(action)
}

/// The steps that an outcome asks for, in their order: the state is written
/// before any action is issued, and the reorder pass comes last.
pub open spec fn steps_of(outcome: Outcome) -> Seq<Step> {
    let first = if outcome.persist {
        seq![Step::Persist]
    } else {
        Seq::<Step>::empty()
    };
    let last = if outcome.then_reorder {
        seq![Step::Reorder]
    } else {
        Seq::<Step>::empty()
    };
    first + outcome.actions@.map_values(send_step()) + last
}

impl Outcome {
    /// The steps to take, in their order.
    pub fn steps(&self) -> (steps: Vec<Step>)
        ensures
            steps@ == steps_of(*self),
    {
        let mut steps: Vec<Step> = Vec::new();
        if self.persist {
            steps.push(Step::Persist);
        }
        let ghost first = steps@;
        let mut i: usize = 0;
        while i < self.actions.len()
            invariant
                i <= self.actions@.len(),
                steps@.len() == first.len() + i,
                forall|j: int| 0 <= j < first.len() ==> steps@[j] == first[j],
                forall|k: int|
                    first.len() <= k < first.len() + i ==> #[trigger] steps@[k] == Step::Send(
                        self.actions@[k - first.len()],
                    ),
            decreases self.actions@.len() - i,
        {
            steps.push(Step::Send(self.actions[i]));
            i += 1;
        }
        let ghost middle = steps@;
        if self.then_reorder {
            steps.push(Step::Reorder);
        }
        proof {
            assert(middle =~= first + self.actions@.map_values(send_step()));
            assert(steps@ =~= steps_of(*self));
        }
        steps
    }
}

} // verus!
