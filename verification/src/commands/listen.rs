//! The reactions of the daemon to the compositor's events.
use crate::commands::movefrom::{in_sidebar, move_to, moves_to};
use crate::commands::reorder::{reorder, reordered};
use crate::niri::{Action, Event, Snapshot, Window};
use crate::state::{tracks, without};
use crate::{Ctx, Outcome};
use vstd::prelude::*;

verus! {

/// What the daemon does about an event.
#[derive(Copy, Clone, PartialEq, Eq, Debug)]
pub enum Reaction {
    /// A window is gone: run [`process_close`] on its id.
    Close { id: u64 },
    /// The focus moved: run [`process_focus`].
    Focus,
    /// A workspace took the focus: run [`process_move`] towards it.
    Move { workspace: u64 },
    /// Nothing to do; no lock is taken and no state is read.
    Ignore,
}

/// The reaction that an event calls for.
pub open spec fn reaction_to(event: Event) -> Reaction {
    match event {
        Event::WindowClosed { id } => Reaction::Close { id },
        Event::WindowFocusChanged => Reaction::Focus,
        Event::WorkspaceActivated { id, focused } => if focused {
            Reaction::Move { workspace: id }
        } else {
            Reaction::Ignore
        },
        Event::Other => Reaction::Ignore,
    }
}

/// Decides what the daemon does about `event`.
pub fn react(event: Event) -> (reaction: Reaction)
    ensures
        reaction == reaction_to(event),
{
    match event {
        Event::WindowClosed { id } => Reaction::Close { id },
        Event::WindowFocusChanged => Reaction::Focus,
        Event::WorkspaceActivated { id, focused } => {
            if focused {
                Reaction::Move { workspace: id }
            } else {
                Reaction::Ignore
            }
        },
        Event::Other => Reaction::Ignore,
    }
}

/// Reaction to a closed window. If the sidebar tracks it, its entry leaves
/// the state, and the caller persists and reorders; otherwise nothing happens.
pub fn process_close(ctx: &mut Ctx, closed_id: u64) -> (outcome: Outcome)
    ensures
        final(ctx).config == old(ctx).config,
        final(ctx).state.is_hidden == old(ctx).state.is_hidden,
        final(ctx).state.is_flipped == old(ctx).state.is_flipped,
        final(ctx).state.windows@ == without(old(ctx).state.windows@, closed_id),
        old(ctx).state.wf() ==> final(ctx).state.wf(),
        outcome.persist == tracks(old(ctx).state.windows@, closed_id),
        outcome.then_reorder == tracks(old(ctx).state.windows@, closed_id),
        outcome.actions@ == Seq::<Action>::empty(),
{
    match ctx.state.position(closed_id) {
        Some(index) => {
            ctx.state.windows.remove(index);
            Outcome { persist: true, actions: Vec::new(), then_reorder: true }
        },
        None => Outcome { persist: false, actions: Vec::new(), then_reorder: false },
    }
}

/// Reaction to a change of focus: one reorder pass.
pub fn process_focus(ctx: &mut Ctx, snapshot: &Snapshot) -> (outcome: Outcome)
    ensures
        reordered(*old(ctx), *final(ctx), *snapshot, outcome),
        old(ctx).state.wf() ==> final(ctx).state.wf(),
{
    reorder(ctx, snapshot)
}

/// Reaction to a workspace that took the focus: asks to move every live
/// window that the sidebar tracks to workspace `ws_id`. The state stays as it
/// is and no reorder is asked for.
pub fn process_move(ctx: &Ctx, windows: &Vec<Window>, ws_id: u64) -> (outcome: Outcome)
    ensures
        outcome.actions@ == moves_to(windows@.filter(in_sidebar(ctx.state.windows@)), ws_id),
        !outcome.persist,
        !outcome.then_reorder,
{
    let mut sidebar_windows: Vec<Window> = Vec::new();
    let mut i: usize = 0;
    proof {
        assert(windows@.take(0) =~= Seq::empty());
    }
    while i < windows.len()
        invariant
            i <= windows@.len(),
            sidebar_windows@ == windows@.take(i as int).filter(in_sidebar(ctx.state.windows@)),
        decreases windows@.len() - i,
    {
        let window = windows[i];
        proof {
            assert(windows@.take(i + 1) =~= windows@.take(i as int).push(window));
            windows@.take(i as int).lemma_filter_push(window, in_sidebar(ctx.state.windows@));
        }
        if ctx.state.is_tracked(window.id) {
            sidebar_windows.push(window);
        }
        i += 1;
    }
    proof {
        assert(windows@.take(windows@.len() as int) =~= windows@);
    }
    move_to(&sidebar_windows, ws_id)
}

} // verus!
