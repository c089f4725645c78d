//! Moving sidebar windows between workspaces.
use crate::niri::{Action, Window};
use crate::state::tracks;
use crate::{Ctx, Outcome};
use vstd::prelude::*;

verus! {

/// The command that moves a window to workspace `to_ws`.
pub open spec fn move_action(to_ws: u64) -> spec_fn(Window) -> Action {
    |window: Window| Action::MoveWindowToWorkspace { window_id: window.id, workspace_id: to_ws }
}

/// One move command per window, in the order of the windows.
pub open spec fn moves_to(windows: Seq<Window>, to_ws: u64) -> Seq<Action> {
    windows.map_values(move_action(to_ws))
}

/// The test that a live window passes when the sidebar tracks it.
pub open spec fn in_sidebar(entries: Seq<(u64, i32, i32)>) -> spec_fn(Window) -> bool {
    |window: Window| tracks(entries, window.id)
}

/// The test that a live window passes when the sidebar tracks it and it is on
/// `workspace`.
pub open spec fn in_sidebar_on(entries: Seq<(u64, i32, i32)>, workspace: u64) -> spec_fn(
    Window,
) -> bool {
    |window: Window| window.workspace_id == Some(workspace) && tracks(entries, window.id)
}

/// Asks to move every given window to workspace `to_ws`, without giving it the
/// focus. Nothing is persisted and no reorder follows.
pub fn move_to(windows: &Vec<Window>, to_ws: u64) -> (outcome: Outcome)
    ensures
        outcome.actions@ == moves_to(windows@, to_ws),
        !outcome.persist,
        !outcome.then_reorder,
{
    let mut actions: Vec<Action> = Vec::new();
    let mut i: usize = 0;
    while i < windows.len()
        invariant
            i <= windows@.len(),
            actions@.len() == i,
            forall|j: int| 0 <= j < i ==> #[trigger] actions@[j] == move_action(to_ws)(windows@[j]),
        decreases windows@.len() - i,
    {
        let window_id = windows[i].id;
        actions.push(Action::MoveWindowToWorkspace { window_id, workspace_id: to_ws });
        i += 1;
    }
    proof {
        assert(actions@ =~= moves_to(windows@, to_ws));
    }
    Outcome { persist: false, actions, then_reorder: false }
}

/// Asks to move the sidebar windows that are on `workspace` to the active
/// workspace. The state stays as it is.
pub fn move_from(
    ctx: &Ctx,
    windows: &Vec<Window>,
    active_workspace: u64,
    workspace: u64,
) -> (outcome: Outcome)
    ensures
        outcome.actions@ == moves_to(
            windows@.filter(in_sidebar_on(ctx.state.windows@, workspace)),
            active_workspace,
        ),
        !outcome.persist,
        !outcome.then_reorder,
{
    let mut on_workspace: Vec<Window> = Vec::new();
    let mut i: usize = 0;
    proof {
        assert(windows@.take(0) =~= Seq::empty());
    }
    while i < windows.len()
        invariant
            i <= windows@.len(),
            on_workspace@ == windows@.take(i as int).filter(
                in_sidebar_on(ctx.state.windows@, workspace),
            ),
        decreases windows@.len() - i,
    {
        let window = windows[i];
        proof {
            assert(windows@.take(i + 1) =~= windows@.take(i as int).push(window));
            windows@.take(i as int).lemma_filter_push(
                window,
                in_sidebar_on(ctx.state.windows@, workspace),
            );
        }
        let here = match window.workspace_id {
            Some(id) => id == workspace,
            None => false,
        };
        if here && ctx.state.is_tracked(window.id) {
            on_workspace.push(window);
        }
        i += 1;
    }
    proof {
        assert(windows@.take(windows@.len() as int) =~= windows@);
    }
    move_to(&on_workspace, active_workspace)
}

} // verus!
