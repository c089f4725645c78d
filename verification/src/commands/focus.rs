//! Cycling the focus through the sidebar.
use crate::niri::{focused_of, focused_window, Action, Error, Window};
use crate::state::{position_of, tracks};
use crate::{Ctx, Direction, Outcome};
use vstd::arithmetic::div_mod::{lemma_mod_add_multiples_vanish, lemma_mod_self_0, lemma_small_mod};
use vstd::prelude::*;

verus! {

/// The index of the entry that takes the focus, in a sidebar that is not
/// empty. From inside the sidebar `Next` steps one entry down and `Prev` one
/// entry up, both cyclically; from outside `Next` enters at the last entry and
/// `Prev` at the first.
pub open spec fn focus_target(
    entries: Seq<(u64, i32, i32)>,
    focused: u64,
    direction: Direction,
) -> int {
    let len = entries.len() as int;
    if tracks(entries, focused) {
        let i = position_of(entries, focused);
        match direction {
            Direction::Next => (i + len - 1) % len,
            Direction::Prev => (i + 1) % len,
        }
    } else {
        match direction {
            Direction::Next => len - 1,
            Direction::Prev => 0,
        }
    }
}

/// Moves the focus to the next or the previous sidebar window. With an empty
/// sidebar nothing is asked and nothing fails; otherwise a focused window is
/// needed, and exactly one focus command is issued. The state never changes and
/// nothing is persisted.
pub fn focus(ctx: &Ctx, windows: &Vec<Window>, direction: Direction) -> (result: Result<
    Outcome,
    Error,
>)
    ensures
        match result {
            Ok(outcome) => {
                &&& !outcome.persist
                &&& !outcome.then_reorder
                &&& ctx.state.windows@.len() == 0 ==> outcome.actions@ == Seq::<Action>::empty()
                &&& ctx.state.windows@.len() > 0 ==> {
                    &&& focused_of(windows@).is_some()
                    &&& 0 <= focus_target(
                        ctx.state.windows@,
                        focused_of(windows@).unwrap().id,
                        direction,
                    ) < ctx.state.windows@.len()
                    &&& outcome.actions@ == seq![
                        Action::FocusWindow {
                            id: ctx.state.windows@[focus_target(
                                ctx.state.windows@,
                                focused_of(windows@).unwrap().id,
                                direction,
                            )].0,
                        },
                    ]
                }
            },
            Err(e) => {
                &&& e == Error::NoFocusedWindow
                &&& ctx.state.windows@.len() > 0
                &&& focused_of(windows@).is_none()
            },
        },
{
    let len: usize = ctx.state.windows.len();
    if len == 0 {
        return Ok(Outcome { persist: false, actions: Vec::new(), then_reorder: false });
    }
    let active = match focused_window(windows) {
        Some(window) => window.id,
        None => { return Err(Error::NoFocusedWindow); },
    };
    let next_index: usize = match ctx.state.position(active) {
        Some(i) => match direction {
            Direction::Next => {
                proof {
                    if i == 0 {
                        lemma_small_mod((len - 1) as nat, len as nat);
                    } else {
                        lemma_mod_add_multiples_vanish(i - 1, len as int);
                        lemma_small_mod((i - 1) as nat, len as nat);
                    }
                }
                if i == 0 {
                    len - 1
                } else {
                    i - 1
                }
            },
            Direction::Prev => {
                proof {
                    if i + 1 == len {
                        lemma_mod_self_0(len as int);
                    } else {
                        lemma_small_mod((i + 1) as nat, len as nat);
                    }
                }
                if i + 1 == len {
                    0
                } else {
                    i + 1
                }
            },
        },
        None => match direction {
            Direction::Next => len - 1,
            Direction::Prev => 0,
        },
    };
    let mut actions: Vec<Action> = Vec::new();
    actions.push(Action::FocusWindow { id: ctx.state.windows[next_index].0 });
    proof {
        assert(actions@ =~= seq![
            Action::FocusWindow { id: ctx.state.windows@[next_index as int].0 },
        ]);
    }
    Ok(Outcome { persist: false, actions, then_reorder: false })
}

} // verus!
