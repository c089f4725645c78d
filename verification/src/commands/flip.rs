//! Reversing the visual order of the stack.
use crate::{Ctx, Outcome};
use vstd::prelude::*;

verus! {

/// Inverts `is_flipped`. The caller persists the state and reorders.
pub fn toggle_flip(ctx: &mut Ctx) -> (outcome: Outcome)
    ensures
        final(ctx).state.is_flipped == !old(ctx).state.is_flipped,
        final(ctx).state.is_hidden == old(ctx).state.is_hidden,
        final(ctx).state.windows@ == old(ctx).state.windows@,
        final(ctx).config == old(ctx).config,
        outcome.persist,
        outcome.actions@ == Seq::<crate::niri::Action>::empty(),
        outcome.then_reorder,
{
    ctx.state.is_flipped = !ctx.state.is_flipped;
    Outcome { persist: true, actions: Vec::new(), then_reorder: true }
}

} // verus!
