//! Closing the focused window.
use crate::niri::{focused_of, focused_window, Action, Error, Window};
use crate::state::{tracks, without};
use crate::{Ctx, Outcome};
use vstd::prelude::*;

verus! {

/// Closes the focused window. If the sidebar tracks it, its entry leaves the
/// state and the caller persists; the close request is issued either way, and
/// a reorder follows.
pub fn close(ctx: &mut Ctx, windows: &Vec<Window>) -> (result: Result<Outcome, Error>)
    ensures
        final(ctx).config == old(ctx).config,
        final(ctx).state.is_hidden == old(ctx).state.is_hidden,
        final(ctx).state.is_flipped == old(ctx).state.is_flipped,
        old(ctx).state.wf() ==> final(ctx).state.wf(),
        match focused_of(windows@) {
            None => {
                &&& result == Err::<Outcome, Error>(Error::NoFocusedWindow)
                &&& final(ctx).state.windows@ == old(ctx).state.windows@
            },
            Some(focused) => {
                &&& result.is_ok()
                &&& final(ctx).state.windows@ == without(old(ctx).state.windows@, focused.id)
                &&& result.unwrap().persist == tracks(old(ctx).state.windows@, focused.id)
                &&& result.unwrap().actions@ == seq![Action::CloseWindow { id: focused.id }]
                &&& result.unwrap().then_reorder
            },
        },
{
    let focused = match focused_window(windows) {
        Some(window) => window,
        None => { return Err(Error::NoFocusedWindow); },
    };
    let persist = match ctx.state.position(focused.id) {
        Some(index) => {
            ctx.state.windows.remove(index);
            true
        },
        None => false,
    };
    let mut actions: Vec<Action> = Vec::new();
    actions.push(Action::CloseWindow { id: focused.id });
    proof {
        assert(actions@ =~= seq![Action::CloseWindow { id: focused.id }]);
    }
    Ok(Outcome { persist, actions, then_reorder: true })
}

} // verus!
