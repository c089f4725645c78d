//! Collapsing the sidebar to a sliver and showing it again.
use crate::{Ctx, Outcome};
use vstd::prelude::*;

verus! {

/// Inverts `is_hidden`. The caller persists the state and reorders.
pub fn toggle_visibility(ctx: &mut Ctx) -> (outcome: Outcome)
    ensures
        final(ctx).state.is_hidden == !old(ctx).state.is_hidden,
        final(ctx).state.is_flipped == old(ctx).state.is_flipped,
        final(ctx).state.windows@ == old(ctx).state.windows@,
        final(ctx).config == old(ctx).config,
        outcome.persist,
        outcome.actions@ == Seq::<crate::niri::Action>::empty(),
        outcome.then_reorder,
{
    ctx.state.is_hidden = !ctx.state.is_hidden;
    Outcome { persist: true, actions: Vec::new(), then_reorder: true }
}

} // verus!
