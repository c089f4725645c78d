//! What holds of the commands taken together.
use crate::commands::focus::focus_target;
use crate::commands::reorder::{
    eligible, is_last_entry, is_layout, is_live, live_entry, placed, positions, pruned, reordered,
    selected, selected_upto, slot, stack,
};
use crate::commands::togglewindow::toggled;
use crate::config::Config;
use crate::niri::{Action, Snapshot, Window};
use crate::state::{distinct_ids, is_position, lemma_position_unique, tracks, AppState};
use crate::{Ctx, Direction, Outcome};
use vstd::arithmetic::div_mod::{lemma_mod_add_multiples_vanish, lemma_mod_self_0, lemma_small_mod};
use vstd::prelude::*;

verus! {

/// A live window that floats, is on the active workspace and is tracked.
pub open spec fn selectable(
    window: Window,
    entries: Seq<(u64, i32, i32)>,
    live: Seq<Window>,
    active_workspace: u64,
) -> bool {
    &&& live.contains(window)
    &&& window.is_floating
    &&& window.workspace_id == Some(active_workspace)
    &&& tracks(entries, window.id)
}

/// Filtering keeps a sequence whose members all pass.
pub proof fn lemma_filter_keeps_all<A>(s: Seq<A>, pred: spec_fn(A) -> bool)
    requires
        forall|i: int| 0 <= i < s.len() ==> pred(#[trigger] s[i]),
    ensures
        s.filter(pred) == s,
    decreases s.len(),
{
    if s.len() > 0 {
        let front = s.drop_last();
        lemma_filter_keeps_all(front, pred);
        assert(s =~= front.push(s.last()));
        front.lemma_filter_push(s.last(), pred);
    } else {
        assert(s.filter(pred) =~= s);
    }
}

/// Pruning what is pruned changes nothing.
pub proof fn lemma_pruned_twice(entries: Seq<(u64, i32, i32)>, live: Seq<Window>)
    ensures
        pruned(pruned(entries, live), live) == pruned(entries, live),
{
    let once = pruned(entries, live);
    assert forall|i: int| 0 <= i < once.len() implies live_entry(live)(#[trigger] once[i]) by {
        entries.lemma_filter_pred(live_entry(live), i);
    }
    lemma_filter_keeps_all(once, live_entry(live));
}

/// Every window that the first `n` entries place is selectable.
pub proof fn lemma_selected_members(
    entries: Seq<(u64, i32, i32)>,
    live: Seq<Window>,
    active_workspace: u64,
    n: nat,
)
    requires
        n <= entries.len(),
    ensures
        forall|i: int|
            0 <= i < selected_upto(entries, live, active_workspace, n).len() ==> selectable(
                #[trigger] selected_upto(entries, live, active_workspace, n)[i],
                entries,
                live,
                active_workspace,
            ),
    decreases n,
{
    if n > 0 {
        let front = selected_upto(entries, live, active_workspace, (n - 1) as nat);
        let part = slot(entries, n - 1, live, active_workspace);
        let all = selected_upto(entries, live, active_workspace, n);
        let test = eligible(entries[n - 1].0, active_workspace);
        lemma_selected_members(entries, live, active_workspace, (n - 1) as nat);
        assert forall|i: int| 0 <= i < all.len() implies selectable(
            #[trigger] all[i],
            entries,
            live,
            active_workspace,
        ) by {
            if i < front.len() {
                assert(all[i] == front[i]);
            } else {
                let window = part[i - front.len()];
                assert(all[i] == window);
                assert(part == live.filter(test));
                live.lemma_filter_pred(test, i - front.len());
                assert(part.contains(window));
                live.lemma_filter_contains_rev(test, window);
                assert(entries[n - 1].0 == window.id);
            }
        }
    }
}

/// Entry `k` is the last one that carries `id`.
pub open spec fn is_last_position(entries: Seq<(u64, i32, i32)>, id: u64, k: int) -> bool {
    &&& 0 <= k < entries.len()
    &&& entries[k].0 == id
    &&& is_last_entry(entries, k)
}

/// The index of the last entry that carries `id`; meaningful where `id` is tracked.
pub open spec fn last_position_of(entries: Seq<(u64, i32, i32)>, id: u64) -> int {
    choose|k: int| is_last_position(entries, id, k)
}

/// A last entry is the only last entry.
pub proof fn lemma_last_position_unique(entries: Seq<(u64, i32, i32)>, id: u64, k: int)
    requires
        is_last_position(entries, id, k),
    ensures
        last_position_of(entries, id) == k,
{
    let c = last_position_of(entries, id);
    assert(is_last_position(entries, id, c));
    if c < k {
        assert(entries[k].0 != entries[c].0);
    }
    if k < c {
        assert(entries[c].0 != entries[k].0);
    }
}

/// A tracked id has a last entry.
pub proof fn lemma_last_position_exists(entries: Seq<(u64, i32, i32)>, id: u64)
    requires
        tracks(entries, id),
    ensures
        is_last_position(entries, id, last_position_of(entries, id)),
    decreases entries.len(),
{
    let end = entries.len() - 1;
    if entries[end].0 == id {
        assert(is_last_position(entries, id, end));
    } else {
        let front = entries.drop_last();
        let i = choose|i: int| 0 <= i < entries.len() && (#[trigger] entries[i]).0 == id;
        assert(front[i].0 == id);
        lemma_last_position_exists(front, id);
        let k = last_position_of(front, id);
        assert forall|j: int| k < j < entries.len() implies (#[trigger] entries[j]).0
            != entries[k].0 by {
            if j < end {
                assert(front[j].0 != front[k].0);
            }
        }
        assert(is_last_position(entries, id, k));
    }
}

/// What the first `n` entries place is the start of what the first `m` place.
pub proof fn lemma_selected_grows(
    entries: Seq<(u64, i32, i32)>,
    live: Seq<Window>,
    active_workspace: u64,
    n: nat,
    m: nat,
)
    requires
        n <= m,
    ensures
        selected_upto(entries, live, active_workspace, n).is_prefix_of(
            selected_upto(entries, live, active_workspace, m),
        ),
    decreases m - n,
{
    if n < m {
        lemma_selected_grows(entries, live, active_workspace, n, (m - 1) as nat);
    }
}

/// Every selectable window is selected.
pub proof fn lemma_selectable_is_selected(
    entries: Seq<(u64, i32, i32)>,
    live: Seq<Window>,
    active_workspace: u64,
    window: Window,
)
    requires
        selectable(window, entries, live, active_workspace),
    ensures
        selected(entries, live, active_workspace).contains(window),
{
    lemma_last_position_exists(entries, window.id);
    let k = last_position_of(entries, window.id);
    let test = eligible(entries[k].0, active_workspace);
    let front = selected_upto(entries, live, active_workspace, k as nat);
    let part = slot(entries, k, live, active_workspace);
    let j = choose|j: int| 0 <= j < live.len() && live[j] == window;
    live.lemma_filter_contains(test, j);
    let at = choose|at: int| 0 <= at < part.len() && part[at] == window;
    assert(selected_upto(entries, live, active_workspace, (k + 1) as nat) == front + part);
    assert((front + part)[front.len() + at] == window);
    lemma_selected_grows(entries, live, active_workspace, (k + 1) as nat, entries.len());
    assert(selected(entries, live, active_workspace)[front.len() + at] == window);
}

/// The windows that the first `n` entries place stand in the order of the
/// last entries of their ids, all of them before entry `n`.
pub proof fn lemma_selected_order(
    entries: Seq<(u64, i32, i32)>,
    live: Seq<Window>,
    active_workspace: u64,
    n: nat,
)
    requires
        n <= entries.len(),
    ensures
        forall|i: int|
            0 <= i < selected_upto(entries, live, active_workspace, n).len()
                ==> last_position_of(
                entries,
                (#[trigger] selected_upto(entries, live, active_workspace, n)[i]).id,
            ) < n,
        forall|i: int, j: int|
            0 <= i < j < selected_upto(entries, live, active_workspace, n).len()
                ==> last_position_of(
                entries,
                (#[trigger] selected_upto(entries, live, active_workspace, n)[i]).id,
            ) <= last_position_of(
                entries,
                (#[trigger] selected_upto(entries, live, active_workspace, n)[j]).id,
            ),
    decreases n,
{
    if n > 0 {
        let front = selected_upto(entries, live, active_workspace, (n - 1) as nat);
        let part = slot(entries, n - 1, live, active_workspace);
        let all = selected_upto(entries, live, active_workspace, n);
        let test = eligible(entries[n - 1].0, active_workspace);
        lemma_selected_order(entries, live, active_workspace, (n - 1) as nat);
        assert forall|i: int| front.len() <= i < all.len() implies last_position_of(
            entries,
            (#[trigger] all[i]).id,
        ) == n - 1 by {
            assert(all[i] == part[i - front.len()]);
            live.lemma_filter_pred(test, i - front.len());
            assert(is_last_position(entries, all[i].id, n - 1));
            lemma_last_position_unique(entries, all[i].id, n - 1);
        }
        assert forall|i: int| 0 <= i < front.len() implies last_position_of(
            entries,
            (#[trigger] all[i]).id,
        ) < n - 1 by {
            assert(all[i] == front[i]);
        }
    }
}

/// Every window of the stack is selectable.
pub proof fn lemma_stack_members(state: AppState, snapshot: Snapshot)
    ensures
        forall|i: int|
            0 <= i < stack(state, snapshot).len() ==> selectable(
                #[trigger] stack(state, snapshot)[i],
                state.windows@,
                snapshot.windows@,
                snapshot.active_workspace,
            ),
{
    let chosen = selected(state.windows@, snapshot.windows@, snapshot.active_workspace);
    lemma_selected_members(
        state.windows@,
        snapshot.windows@,
        snapshot.active_workspace,
        state.windows@.len(),
    );
    assert forall|i: int| 0 <= i < stack(state, snapshot).len() implies selectable(
        #[trigger] stack(state, snapshot)[i],
        state.windows@,
        snapshot.windows@,
        snapshot.active_workspace,
    ) by {
        if state.is_flipped {
            assert(stack(state, snapshot)[i] == chosen[chosen.len() - 1 - i]);
        }
    }
}

/// Reordering is idempotent: a second pass on the same snapshot, with nothing
/// changed in between, leaves the state as the first pass left it and asks for
/// the same positioning commands.
pub proof fn reorder_is_idempotent(
    start: Ctx,
    middle: Ctx,
    end: Ctx,
    snapshot: Snapshot,
    first: Outcome,
    second: Outcome,
)
    requires
        reordered(start, middle, snapshot, first),
        reordered(middle, end, snapshot, second),
    ensures
        end.state.windows@ == middle.state.windows@,
        end.state.is_hidden == middle.state.is_hidden,
        end.state.is_flipped == middle.state.is_flipped,
        second.actions@ == first.actions@,
{
    lemma_pruned_twice(start.state.windows@, snapshot.windows@);
    assert(stack(end.state, snapshot) == stack(middle.state, snapshot));
    assert forall|i: int| 0 <= i < first.actions@.len() implies first.actions@[i]
        == second.actions@[i] by {
        let window = stack(middle.state, snapshot)[i];
        assert(placed(
            first.actions@[i],
            window,
            i,
            middle.state.is_hidden,
            middle.config,
            snapshot,
        ));
        assert(placed(
            second.actions@[i],
            window,
            i,
            end.state.is_hidden,
            end.config,
            snapshot,
        ));
    }
    assert(second.actions@ =~= first.actions@);
}

/// Zombie collection: a reorder pass drops every entry whose window is absent
/// from the live list, and asks to position no such window.
pub proof fn zombies_are_collected(
    before: Ctx,
    after: Ctx,
    snapshot: Snapshot,
    outcome: Outcome,
    id: u64,
)
    requires
        reordered(before, after, snapshot, outcome),
        !is_live(snapshot.windows@, id),
    ensures
        !tracks(after.state.windows@, id),
        forall|i: int|
            0 <= i < outcome.actions@.len() ==> !positions(#[trigger] outcome.actions@[i], id),
{
    let kept = after.state.windows@;
    assert forall|i: int| 0 <= i < kept.len() implies (#[trigger] kept[i]).0 != id by {
        before.state.windows@.lemma_filter_pred(live_entry(snapshot.windows@), i);
    }
    lemma_stack_members(after.state, snapshot);
    assert forall|i: int| 0 <= i < outcome.actions@.len() implies !positions(
        #[trigger] outcome.actions@[i],
        id,
    ) by {
        let window = stack(after.state, snapshot)[i];
        assert(placed(
            outcome.actions@[i],
            window,
            i,
            after.state.is_hidden,
            after.config,
            snapshot,
        ));
        assert(selectable(window, kept, snapshot.windows@, snapshot.active_workspace));
        assert(snapshot.windows@.contains(window));
    }
}

/// Every positioning command of a reorder pass is for a live window that
/// floats, is on the active workspace and is tracked after the pass.
pub proof fn only_selectable_windows_move(
    before: Ctx,
    after: Ctx,
    snapshot: Snapshot,
    outcome: Outcome,
    i: int,
)
    requires
        reordered(before, after, snapshot, outcome),
        0 <= i < outcome.actions@.len(),
    ensures
        exists|window: Window|
            selectable(
                window,
                after.state.windows@,
                snapshot.windows@,
                snapshot.active_workspace,
            ) && positions(outcome.actions@[i], window.id),
{
    lemma_stack_members(after.state, snapshot);
    let window = stack(after.state, snapshot)[i];
    assert(placed(
        outcome.actions@[i],
        window,
        i,
        after.state.is_hidden,
        after.config,
        snapshot,
    ));
    assert(selectable(window, after.state.windows@, snapshot.windows@, snapshot.active_workspace));
}

/// Every live window that floats, is on the active workspace and is tracked
/// after a reorder pass gets a positioning command.
pub proof fn every_selectable_window_moves(
    before: Ctx,
    after: Ctx,
    snapshot: Snapshot,
    outcome: Outcome,
    window: Window,
)
    requires
        reordered(before, after, snapshot, outcome),
        selectable(window, after.state.windows@, snapshot.windows@, snapshot.active_workspace),
    ensures
        exists|i: int|
            0 <= i < outcome.actions@.len() && positions(#[trigger] outcome.actions@[i], window.id),
{
    let chosen = selected(after.state.windows@, snapshot.windows@, snapshot.active_workspace);
    lemma_selectable_is_selected(
        after.state.windows@,
        snapshot.windows@,
        snapshot.active_workspace,
        window,
    );
    let at = choose|at: int| 0 <= at < chosen.len() && chosen[at] == window;
    let i = if after.state.is_flipped {
        chosen.len() - 1 - at
    } else {
        at
    };
    assert(stack(after.state, snapshot)[i] == window);
    assert(placed(
        outcome.actions@[i],
        window,
        i,
        after.state.is_hidden,
        after.config,
        snapshot,
    ));
    assert(positions(outcome.actions@[i], window.id));
}

/// Stacking follows the state: in a stack that is not flipped a window never
/// stands below one whose entry comes earlier in the persisted sequence, an
/// id that several entries carry counting by the last of them.
pub proof fn stack_follows_the_entries(state: AppState, snapshot: Snapshot, i: int, j: int)
    requires
        !state.is_flipped,
        0 <= i < j < stack(state, snapshot).len(),
    ensures
        last_position_of(state.windows@, stack(state, snapshot)[i].id) <= last_position_of(
            state.windows@,
            stack(state, snapshot)[j].id,
        ),
{
    lemma_selected_order(
        state.windows@,
        snapshot.windows@,
        snapshot.active_workspace,
        state.windows@.len(),
    );
    let chosen = selected(state.windows@, snapshot.windows@, snapshot.active_workspace);
    assert(stack(state, snapshot)[i] == chosen[i]);
    assert(stack(state, snapshot)[j] == chosen[j]);
}

/// Workspace filter: a window that no live window shows on the active
/// workspace gets no positioning command.
pub proof fn other_workspaces_stay(
    before: Ctx,
    after: Ctx,
    snapshot: Snapshot,
    outcome: Outcome,
    id: u64,
)
    requires
        reordered(before, after, snapshot, outcome),
        forall|j: int|
            0 <= j < snapshot.windows@.len() && (#[trigger] snapshot.windows@[j]).id == id
                ==> snapshot.windows@[j].workspace_id != Some(snapshot.active_workspace),
    ensures
        forall|i: int|
            0 <= i < outcome.actions@.len() ==> !positions(#[trigger] outcome.actions@[i], id),
{
    lemma_stack_members(after.state, snapshot);
    assert forall|i: int| 0 <= i < outcome.actions@.len() implies !positions(
        #[trigger] outcome.actions@[i],
        id,
    ) by {
        let window = stack(after.state, snapshot)[i];
        assert(placed(
            outcome.actions@[i],
            window,
            i,
            after.state.is_hidden,
            after.config,
            snapshot,
        ));
        assert(selectable(
            window,
            after.state.windows@,
            snapshot.windows@,
            snapshot.active_workspace,
        ));
        assert(snapshot.windows@.contains(window));
    }
}

/// Stacking order: the command at index `i` of a layout puts its window
/// `i` times the sidebar height plus the gap above the bottom one.
pub proof fn stack_rises_evenly(
    actions: Seq<Action>,
    state: AppState,
    config: Config,
    snapshot: Snapshot,
    i: int,
)
    requires
        is_layout(actions, state, config, snapshot),
        0 <= i < actions.len(),
    ensures
        match (actions[0], actions[i]) {
            (
                Action::MoveFloatingWindow { y: bottom, .. },
                Action::MoveFloatingWindow { y: here, .. },
            ) => here == bottom - i * (config.geometry.height + config.geometry.gap),
            _ => false,
        },
{
    let windows = stack(state, snapshot);
    assert(placed(actions[0], windows[0], 0, state.is_hidden, config, snapshot));
    assert(placed(actions[i], windows[i], i, state.is_hidden, config, snapshot));
}

/// Flipping reverses which window stands at which index of the stack, and
/// nothing else.
pub proof fn flipping_reverses_the_stack(plain: AppState, flipped: AppState, snapshot: Snapshot)
    requires
        plain.windows@ == flipped.windows@,
        !plain.is_flipped,
        flipped.is_flipped,
    ensures
        stack(flipped, snapshot) == stack(plain, snapshot).reverse(),
        stack(flipped, snapshot).len() == stack(plain, snapshot).len(),
        forall|i: int|
            0 <= i < stack(plain, snapshot).len() ==> #[trigger] stack(flipped, snapshot)[i]
                == stack(plain, snapshot)[stack(plain, snapshot).len() - 1 - i],
{
}

/// Horizontal offsets: while the sidebar is hidden the focused window stands
/// at the display width less `focus_peek` and every other one at the display
/// width less `peek`; while it is shown every window stands at the display
/// width less the sidebar width and the right margin, focused or not.
pub proof fn offsets_follow_visibility(
    actions: Seq<Action>,
    state: AppState,
    config: Config,
    snapshot: Snapshot,
    i: int,
)
    requires
        is_layout(actions, state, config, snapshot),
        0 <= i < actions.len(),
    ensures
        match actions[i] {
            Action::MoveFloatingWindow { id, x, y } => {
                &&& id == stack(state, snapshot)[i].id
                &&& state.is_hidden && stack(state, snapshot)[i].is_focused ==> x
                    == snapshot.display_width - config.interaction.focus_peek
                &&& state.is_hidden && !stack(state, snapshot)[i].is_focused ==> x
                    == snapshot.display_width - config.interaction.peek
                &&& !state.is_hidden ==> x == snapshot.display_width - config.geometry.width
                    - config.margins.right
            },
            _ => false,
        },
{
    let windows = stack(state, snapshot);
    assert(placed(actions[i], windows[i], i, state.is_hidden, config, snapshot));
}

/// Focus cycle: in a sidebar of distinct windows, `Next` moves the focus from
/// entry `i` to the entry below it and from the first entry round to the last;
/// `Prev` moves it to the entry above and from the last entry round to the
/// first. A focus outside the sidebar enters at the last entry with `Next` and
/// at the first with `Prev`.
pub proof fn focus_cycle_wraps_around(entries: Seq<(u64, i32, i32)>, i: int, outside: u64)
    requires
        distinct_ids(entries),
        0 <= i < entries.len(),
        !tracks(entries, outside),
    ensures
        focus_target(entries, entries[i].0, Direction::Next) == if i == 0 {
            entries.len() - 1
        } else {
            i - 1
        },
        focus_target(entries, entries[i].0, Direction::Prev) == if i == entries.len() - 1 {
            0
        } else {
            i + 1
        },
        focus_target(entries, outside, Direction::Next) == entries.len() - 1,
        focus_target(entries, outside, Direction::Prev) == 0,
{
    let len = entries.len() as int;
    assert(is_position(entries, entries[i].0, i));
    lemma_position_unique(entries, entries[i].0, i);
    if i == 0 {
        lemma_small_mod((len - 1) as nat, len as nat);
    } else {
        lemma_mod_add_multiples_vanish(i - 1, len);
        lemma_small_mod((i - 1) as nat, len as nat);
    }
    if i + 1 == len {
        lemma_mod_self_0(len);
    } else {
        lemma_small_mod((i + 1) as nat, len as nat);
    }
}

/// Toggle round trip: a window that joins the sidebar and is toggled again
/// leaves it with the entries as they were, and the first two commands of the
/// second toggle restore the width and the height that the window had when it
/// joined.
pub proof fn toggle_round_trip(
    before: Seq<(u64, i32, i32)>,
    between: Seq<(u64, i32, i32)>,
    after: Seq<(u64, i32, i32)>,
    joining: Window,
    leaving: Window,
    config: Config,
    added: Seq<Action>,
    removed: Seq<Action>,
)
    requires
        !tracks(before, joining.id),
        toggled(before, between, added, joining, config),
        leaving.id == joining.id,
        toggled(between, after, removed, leaving, config),
    ensures
        between.last() == (joining.id, joining.width, joining.height),
        after == before,
        removed.len() >= 2,
        removed[0] == (Action::SetWindowWidth { id: joining.id, width: joining.width }),
        removed[1] == (Action::SetWindowHeight { id: joining.id, height: joining.height }),
{
    let last = before.len() as int;
    assert(between[last].0 == joining.id);
    assert(is_position(between, joining.id, last)) by {
        assert forall|j: int| 0 <= j < last implies (#[trigger] between[j]).0 != joining.id by {
            assert(between[j] == before[j]);
        }
    }
    lemma_position_unique(between, joining.id, last);
    assert(between.remove(last) =~= before);
}

} // verus!
