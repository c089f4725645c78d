//! The layout engine: reconciles the state with the live window list and
//! computes where every sidebar window goes.
use crate::config::Config;
use crate::niri::{Action, Snapshot, Window};
use crate::state::{distinct_ids, AppState};
use crate::{Ctx, Outcome};
use vstd::prelude::*;

verus! {

/// Some live window carries `id`.
pub open spec fn is_live(live: Seq<Window>, id: u64) -> bool {
    exists|i: int| 0 <= i < live.len() && (#[trigger] live[i]).id == id
}

/// The test that an entry passes when its window is still alive.
pub open spec fn live_entry(live: Seq<Window>) -> spec_fn((u64, i32, i32)) -> bool {
    |entry: (u64, i32, i32)| is_live(live, entry.0)
}

/// The entries whose window is still alive, in their order.
pub open spec fn pruned(entries: Seq<(u64, i32, i32)>, live: Seq<Window>) -> Seq<
    (u64, i32, i32),
> {
    entries.filter(live_entry(live))
}

/// The test that a live window passes when it carries `id`, floats and is on
/// the active workspace.
pub open spec fn eligible(id: u64, active_workspace: u64) -> spec_fn(Window) -> bool {
    |window: Window|
        window.is_floating && window.workspace_id == Some(active_workspace) && window.id == id
}

/// No later entry carries the id of entry `k`.
pub open spec fn is_last_entry(entries: Seq<(u64, i32, i32)>, k: int) -> bool {
    forall|j: int| k < j < entries.len() ==> (#[trigger] entries[j]).0 != entries[k].0
}

/// The live windows that entry `k` places, in the order of the live list. An
/// id that several entries carry is placed by the last of them.
pub open spec fn slot(
    entries: Seq<(u64, i32, i32)>,
    k: int,
    live: Seq<Window>,
    active_workspace: u64,
) -> Seq<Window> {
    if is_last_entry(entries, k) {
        live.filter(eligible(entries[k].0, active_workspace))
    } else {
        Seq::empty()
    }
}

/// The windows that the first `n` entries place, entry by entry.
pub open spec fn selected_upto(
    entries: Seq<(u64, i32, i32)>,
    live: Seq<Window>,
    active_workspace: u64,
    n: nat,
) -> Seq<Window>
    decreases n,
{
    if n == 0 {
        Seq::empty()
    } else {
        selected_upto(entries, live, active_workspace, (n - 1) as nat) + slot(
            entries,
            n - 1,
            live,
            active_workspace,
        )
    }
}

/// The live windows that float, are on the active workspace and are tracked,
/// ordered by the position of their entry; windows of one entry keep the order
/// of the live list.
pub open spec fn selected(
    entries: Seq<(u64, i32, i32)>,
    live: Seq<Window>,
    active_workspace: u64,
) -> Seq<Window> {
    selected_upto(entries, live, active_workspace, entries.len())
}

/// The selected windows from the bottom of the visual stack upwards.
pub open spec fn stack(state: AppState, snapshot: Snapshot) -> Seq<Window> {
    let chosen = selected(state.windows@, snapshot.windows@, snapshot.active_workspace);
    if state.is_flipped {
        chosen.reverse()
    } else {
        chosen
    }
}

/// The horizontal position of a sidebar window.
pub open spec fn target_x(config: Config, display_width: i32, hidden: bool, focused: bool) -> int {
    if hidden {
        if focused {
            display_width - config.interaction.focus_peek
        } else {
            display_width - config.interaction.peek
        }
    } else {
        display_width - config.geometry.width - config.margins.right
    }
}

/// The vertical position of the window at index `i` of the stack.
pub open spec fn target_y(config: Config, display_height: i32, i: int) -> int {
    display_height - config.geometry.height - config.margins.top - i * (config.geometry.height
        + config.geometry.gap)
}

/// `action` moves `window` to the place of index `i` of the stack.
pub open spec fn placed(
    action: Action,
    window: Window,
    i: int,
    hidden: bool,
    config: Config,
    snapshot: Snapshot,
) -> bool {
    match action {
        Action::MoveFloatingWindow { id, x, y } => {
            &&& id == window.id
            &&& x == target_x(config, snapshot.display_width, hidden, window.is_focused)
            &&& y == target_y(config, snapshot.display_height, i)
        },
        _ => false,
    }
}

/// `action` asks to position window `id`.
pub open spec fn positions(action: Action, id: u64) -> bool {
    match action {
        Action::MoveFloatingWindow { id: moved, .. } => moved == id,
        _ => false,
    }
}

/// `actions` holds one positioning command for each window of the stack, in
/// the order of the stack.
pub open spec fn is_layout(
    actions: Seq<Action>,
    state: AppState,
    config: Config,
    snapshot: Snapshot,
) -> bool {
    let windows = stack(state, snapshot);
    &&& actions.len() == windows.len()
    &&& forall|i: int|
        0 <= i < actions.len() ==> placed(
            #[trigger] actions[i],
            windows[i],
            i,
            state.is_hidden,
            config,
            snapshot,
        )
}

/// `after` and `outcome` are what one reorder pass on `snapshot` makes of
/// `before`: the entries of dead windows are gone, nothing else of the context
/// changed, the state is to be persisted, and the actions lay out the stack.
pub open spec fn reordered(before: Ctx, after: Ctx, snapshot: Snapshot, outcome: Outcome) -> bool {
    &&& after.config == before.config
    &&& after.state.is_hidden == before.state.is_hidden
    &&& after.state.is_flipped == before.state.is_flipped
    &&& after.state.windows@ == pruned(before.state.windows@, snapshot.windows@)
    &&& outcome.persist
    &&& !outcome.then_reorder
    &&& is_layout(outcome.actions@, after.state, after.config, snapshot)
}

/// Pruning keeps the entries distinct.
pub proof fn lemma_pruned_distinct(entries: Seq<(u64, i32, i32)>, live: Seq<Window>)
    requires
        distinct_ids(entries),
    ensures
        distinct_ids(pruned(entries, live)),
    decreases entries.len(),
{
    if entries.len() > 0 {
        let front = entries.drop_last();
        let kept = pruned(front, live);
        lemma_pruned_distinct(front, live);
        assert(entries =~= front.push(entries.last()));
        front.lemma_filter_push(entries.last(), live_entry(live));
        assert forall|a: int| 0 <= a < kept.len() implies (#[trigger] kept[a]).0
            != entries.last().0 by {
            assert(kept.contains(kept[a]));
            front.lemma_filter_contains_rev(live_entry(live), kept[a]);
            let b = choose|b: int| 0 <= b < front.len() && front[b] == kept[a];
            assert(entries[b].0 != entries[entries.len() - 1].0);
        }
    }
}

fn is_live_id(live: &Vec<Window>, id: u64) -> (found: bool)
    ensures
        found == is_live(live@, id),
{
    let mut i: usize = 0;
    while i < live.len()
        invariant
            i <= live@.len(),
            forall|j: int| 0 <= j < i ==> (#[trigger] live@[j]).id != id,
        decreases live@.len() - i,
    {
        if live[i].id == id {
            return true;
        }
        i += 1;
    }
    false
}

fn prune(entries: &Vec<(u64, i32, i32)>, live: &Vec<Window>) -> (kept: Vec<(u64, i32, i32)>)
    ensures
        kept@ == pruned(entries@, live@),
{
    let mut kept: Vec<(u64, i32, i32)> = Vec::new();
    let mut i: usize = 0;
    proof {
        assert(entries@.take(0) =~= Seq::empty());
    }
    while i < entries.len()
        invariant
            i <= entries@.len(),
            kept@ == pruned(entries@.take(i as int), live@),
        decreases entries@.len() - i,
    {
        let entry = entries[i];
        proof {
            assert(entries@.take(i + 1) =~= entries@.take(i as int).push(entry));
            entries@.take(i as int).lemma_filter_push(entry, live_entry(live@));
        }
        if is_live_id(live, entry.0) {
            kept.push(entry);
        }
        i += 1;
    }
    proof {
        assert(entries@.take(entries@.len() as int) =~= entries@);
    }
    kept
}

fn is_last(entries: &Vec<(u64, i32, i32)>, k: usize) -> (last: bool)
    requires
        k < entries@.len(),
    ensures
        last == is_last_entry(entries@, k as int),
{
    let id = entries[k].0;
    let len: usize = entries.len();
    let mut j: usize = k + 1;
    while j < len
        invariant
            len == entries@.len(),
            k < j <= entries@.len(),
            id == entries@[k as int].0,
            forall|m: int| k < m < j ==> (#[trigger] entries@[m]).0 != id,
        decreases entries@.len() - j,
    {
        if entries[j].0 == id {
            return false;
        }
        j += 1;
    }
    true
}

fn select(entries: &Vec<(u64, i32, i32)>, live: &Vec<Window>, active_workspace: u64) -> (chosen:
    Vec<Window>)
    ensures
        chosen@ == selected(entries@, live@, active_workspace),
{
    let mut chosen: Vec<Window> = Vec::new();
    let mut k: usize = 0;
    while k < entries.len()
        invariant
            k <= entries@.len(),
            chosen@ == selected_upto(entries@, live@, active_workspace, k as nat),
        decreases entries@.len() - k,
    {
        let ghost before = chosen@;
        if is_last(entries, k) {
            let id = entries[k].0;
            let mut j: usize = 0;
            proof {
                assert(live@.take(0) =~= Seq::empty());
                assert(before + Seq::<Window>::empty() =~= before);
            }
            while j < live.len()
                invariant
                    j <= live@.len(),
                    chosen@ == before + live@.take(j as int).filter(eligible(id, active_workspace)),
                decreases live@.len() - j,
            {
                let window = live[j];
                let ghost part = live@.take(j as int);
                proof {
                    assert(live@.take(j + 1) =~= part.push(window));
                    part.lemma_filter_push(window, eligible(id, active_workspace));
                    assert(before + part.filter(eligible(id, active_workspace)).push(window) =~= (
                    before + part.filter(eligible(id, active_workspace))).push(window));
                }
                let on_active = match window.workspace_id {
                    Some(workspace) => workspace == active_workspace,
                    None => false,
                };
                if window.is_floating && on_active && window.id == id {
                    chosen.push(window);
                }
                j += 1;
            }
            proof {
                assert(live@.take(live@.len() as int) =~= live@);
            }
        } else {
            proof {
                assert(before + Seq::<Window>::empty() =~= before);
            }
        }
        k += 1;
    }
    chosen
}

/// One reorder pass. Drops every entry whose window is gone from the live
/// list, then places the selected windows: the caller persists the state and
/// issues one positioning command per selected window.
pub fn reorder(ctx: &mut Ctx, snapshot: &Snapshot) -> (outcome: Outcome)
    ensures
        reordered(*old(ctx), *final(ctx), *snapshot, outcome),
        old(ctx).state.wf() ==> final(ctx).state.wf(),
{
    proof {
        if ctx.state.wf() {
            lemma_pruned_distinct(ctx.state.windows@, snapshot.windows@);
        }
    }
    let kept = prune(&ctx.state.windows, &snapshot.windows);
    ctx.state.windows = kept;
    let chosen = select(&ctx.state.windows, &snapshot.windows, snapshot.active_workspace);
    let flipped = ctx.state.is_flipped;
    let hidden = ctx.state.is_hidden;
    let config = ctx.config;
    let width: i64 = snapshot.display_width as i64;
    let shown_x: i64 = width - config.geometry.width as i64 - config.margins.right as i64;
    let hidden_x: i64 = width - config.interaction.peek as i64;
    let focus_hidden_x: i64 = width - config.interaction.focus_peek as i64;
    let base_y: i128 = snapshot.display_height as i128 - config.geometry.height as i128
        - config.margins.top as i128;
    let step: i128 = config.geometry.height as i128 + config.geometry.gap as i128;
    let n: usize = chosen.len();
    let mut actions: Vec<Action> = Vec::new();
    let mut i: usize = 0;
    while i < n
        invariant
            i <= n,
            n == chosen@.len(),
            actions@.len() == i,
            config == ctx.config,
            hidden == ctx.state.is_hidden,
            flipped == ctx.state.is_flipped,
            chosen@ == selected(ctx.state.windows@, snapshot.windows@, snapshot.active_workspace),
            shown_x == target_x(config, snapshot.display_width, false, false),
            hidden_x == target_x(config, snapshot.display_width, true, false),
            focus_hidden_x == target_x(config, snapshot.display_width, true, true),
            base_y == target_y(config, snapshot.display_height, 0),
            step == config.geometry.height + config.geometry.gap,
            forall|j: int|
                0 <= j < i ==> placed(
                    #[trigger] actions@[j],
                    stack(ctx.state, *snapshot)[j],
                    j,
                    hidden,
                    config,
                    *snapshot,
                ),
        decreases n - i,
    {
        let window = if flipped {
            chosen[n - 1 - i]
        } else {
            chosen[i]
        };
        let x: i64 = if hidden {
            if window.is_focused {
                focus_hidden_x
            } else {
                hidden_x
            }
        } else {
            shown_x
        };
        assert(-0x1_0000_0000_0000_0000_0000_0000 <= (i as i128) * step
            <= 0x1_0000_0000_0000_0000_0000_0000) by (nonlinear_arith)
            requires
                0 <= i <= 0xffff_ffff_ffff_ffff,
                -0x1_0000_0000 <= step <= 0x1_0000_0000,
        ;
        let y: i128 = base_y - (i as i128) * step;
        actions.push(Action::MoveFloatingWindow { id: window.id, x, y });
        i += 1;
    }
    Outcome { persist: true, actions, then_reorder: false }
}

} // verus!
