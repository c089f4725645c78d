//! Moving the focused window into the sidebar and out of it.
use crate::config::Config;
use crate::niri::{focused_of, focused_window, Action, Error, Window};
use crate::state::{position_of, tracks, without};
use crate::{Ctx, Outcome};
use vstd::prelude::*;

verus! {

/// What is asked of the compositor when `window` joins the sidebar: to float
/// the window if it does not float yet, then to give it the sidebar's size.
pub open spec fn added_actions(window: Window, config: Config) -> Seq<Action> {
    let resize = seq![
        Action::SetWindowWidth { id: window.id, width: config.geometry.width },
        Action::SetWindowHeight { id: window.id, height: config.geometry.height },
    ];
    if window.is_floating {
        resize
    } else {
        seq![Action::ToggleWindowFloating { id: window.id }] + resize
    }
}

/// What is asked of the compositor when `window` leaves the sidebar: to give
/// it back the size that `entry` recorded, then to stop floating it if it floats.
pub open spec fn removed_actions(window: Window, entry: (u64, i32, i32)) -> Seq<Action> {
    let resize = seq![
        Action::SetWindowWidth { id: window.id, width: entry.1 },
        Action::SetWindowHeight { id: window.id, height: entry.2 },
    ];
    if window.is_floating {
        resize.push(Action::ToggleWindowFloating { id: window.id })
    } else {
        resize
    }
}

/// `after` and `actions` are what toggling the focused window `window` makes
/// of the entries `before`.
pub open spec fn toggled(
    before: Seq<(u64, i32, i32)>,
    after: Seq<(u64, i32, i32)>,
    actions: Seq<Action>,
    window: Window,
    config: Config,
) -> bool {
    if tracks(before, window.id) {
        &&& after == without(before, window.id)
        &&& actions == removed_actions(window, before[position_of(before, window.id)])
    } else {
        &&& after == before.push((window.id, window.width, window.height))
        &&& actions == added_actions(window, config)
    }
}

fn add_to_sidebar(ctx: &mut Ctx, window: &Window) -> (actions: Vec<Action>)
    ensures
        final(ctx).config == old(ctx).config,
        final(ctx).state.is_hidden == old(ctx).state.is_hidden,
        final(ctx).state.is_flipped == old(ctx).state.is_flipped,
        final(ctx).state.windows@ == old(ctx).state.windows@.push(
            (window.id, window.width, window.height),
        ),
        actions@ == added_actions(*window, old(ctx).config),
{
    ctx.state.windows.push((window.id, window.width, window.height));
    let mut actions: Vec<Action> = Vec::new();
    if !window.is_floating {
        actions.push(Action::ToggleWindowFloating { id: window.id });
    }
    actions.push(Action::SetWindowWidth { id: window.id, width: ctx.config.geometry.width });
    actions.push(Action::SetWindowHeight { id: window.id, height: ctx.config.geometry.height });
    proof {
        assert(actions@ =~= added_actions(*window, ctx.config));
    }
    actions
}

fn remove_from_sidebar(ctx: &mut Ctx, window: &Window, index: usize) -> (actions: Vec<Action>)
    requires
        index < old(ctx).state.windows@.len(),
    ensures
        final(ctx).config == old(ctx).config,
        final(ctx).state.is_hidden == old(ctx).state.is_hidden,
        final(ctx).state.is_flipped == old(ctx).state.is_flipped,
        final(ctx).state.windows@ == old(ctx).state.windows@.remove(index as int),
        actions@ == removed_actions(*window, old(ctx).state.windows@[index as int]),
{
    let entry = ctx.state.windows.remove(index);
    let mut actions: Vec<Action> = Vec::new();
    actions.push(Action::SetWindowWidth { id: window.id, width: entry.1 });
    actions.push(Action::SetWindowHeight { id: window.id, height: entry.2 });
    if window.is_floating {
        actions.push(Action::ToggleWindowFloating { id: window.id });
    }
    proof {
        assert(actions@ =~= removed_actions(*window, entry));
    }
    actions
}

/// Toggles the membership of the focused window. A tracked window leaves: its
/// entry is dropped and its recorded size restored. Any other window joins: its
/// current size is recorded in a new last entry and it takes the sidebar's
/// size. Either way the caller persists the state and reorders. Without a
/// focused window nothing changes.
pub fn toggle_window(ctx: &mut Ctx, windows: &Vec<Window>) -> (result: Result<Outcome, Error>)
    ensures
        final(ctx).config == old(ctx).config,
        final(ctx).state.is_hidden == old(ctx).state.is_hidden,
        final(ctx).state.is_flipped == old(ctx).state.is_flipped,
        old(ctx).state.wf() ==> final(ctx).state.wf(),
        match focused_of(windows@) {
            None => {
                &&& result == Err::<Outcome, Error>(Error::NoFocusedWindow)
                &&& final(ctx).state.windows@ == old(ctx).state.windows@
            },
            Some(focused) => {
                &&& result.is_ok()
                &&& toggled(
                    old(ctx).state.windows@,
                    final(ctx).state.windows@,
                    result.unwrap().actions@,
                    focused,
                    old(ctx).config,
                )
                &&& result.unwrap().persist
                &&& result.unwrap().then_reorder
            },
        },
{
    let focused = match focused_window(windows) {
        Some(window) => window,
        None => { return Err(Error::NoFocusedWindow); },
    };
    let actions = match ctx.state.position(focused.id) {
        Some(index) => remove_from_sidebar(ctx, &focused, index),
        None => add_to_sidebar(ctx, &focused),
    };
    Ok(Outcome { persist: true, actions, then_reorder: true })
}

} // verus!
