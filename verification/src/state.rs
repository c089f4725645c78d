//! The persisted record of sidebar membership.
use vstd::prelude::*;

verus! {

/// The tracked windows, bottom of the stack first, each as
/// `(window_id, original_width, original_height)`, and the two display flags.
#[derive(Debug, Clone, PartialEq, Eq)]
pub struct AppState {
    pub windows: Vec<(u64, i32, i32)>,
    pub is_hidden: bool,
    pub is_flipped: bool,
}

/// Some entry carries `id`.
pub open spec fn tracks(entries: Seq<(u64, i32, i32)>, id: u64) -> bool {
    exists|i: int| 0 <= i < entries.len() && (#[trigger] entries[i]).0 == id
}

/// No two entries carry the same window id.
pub open spec fn distinct_ids(entries: Seq<(u64, i32, i32)>) -> bool {
    forall|i: int, j: int|
        0 <= i < j < entries.len() ==> (#[trigger] entries[i]).0 != (#[trigger] entries[j]).0
}

/// Entry `i` is the first one that carries `id`.
pub open spec fn is_position(entries: Seq<(u64, i32, i32)>, id: u64, i: int) -> bool {
    &&& 0 <= i < entries.len()
    &&& entries[i].0 == id
    &&& forall|j: int| 0 <= j < i ==> (#[trigger] entries[j]).0 != id
}

/// The index of the first entry that carries `id`; meaningful where `id` is tracked.
pub open spec fn position_of(entries: Seq<(u64, i32, i32)>, id: u64) -> int {
    choose|i: int| is_position(entries, id, i)
}

/// The entries without the first one that carries `id`.
pub open spec fn without(entries: Seq<(u64, i32, i32)>, id: u64) -> Seq<(u64, i32, i32)> {
    if tracks(entries, id) {
        entries.remove(position_of(entries, id))
    } else {
        entries
    }
}

/// A first entry is the only first entry.
pub proof fn lemma_position_unique(entries: Seq<(u64, i32, i32)>, id: u64, i: int)
    requires
        is_position(entries, id, i),
    ensures
        tracks(entries, id),
        position_of(entries, id) == i,
{
    let p = position_of(entries, id);
    assert(is_position(entries, id, p));
    if p < i {
        assert(entries[p].0 != id);
    }
    if i < p {
        assert(entries[i].0 != id);
    }
}

impl AppState {
    /// The state's invariant: every window is tracked at most once.
    pub open spec fn wf(&self) -> bool {
        distinct_ids(self.windows@)
    }

    /// The state of a fresh install: nothing tracked, shown, not flipped.
    pub open spec fn is_empty_default(&self) -> bool {
        &&& self.windows@ == Seq::<(u64, i32, i32)>::empty()
        &&& !self.is_hidden
        &&& !self.is_flipped
    }

    /// The state to work on, given what reading the stored document gave:
    /// `None` stands for a missing or unreadable document and degrades to the
    /// empty default state.
    pub fn recover(parsed: Option<AppState>) -> (state: AppState)
        ensures
            parsed.is_some() ==> state == parsed.unwrap(),
            parsed.is_none() ==> state.is_empty_default() && state.wf(),
    {
        match parsed {
            Some(state) => state,
            None => AppState::default(),
        }
    }

    /// The index of the first entry that carries `id`, if any.
    pub fn position(&self, id: u64) -> (found: Option<usize>)
        ensures
            found.is_some() <==> tracks(self.windows@, id),
            found.is_some() ==> found.unwrap() as int == position_of(self.windows@, id),
            found.is_some() ==> is_position(self.windows@, id, found.unwrap() as int),
    {
        let mut i: usize = 0;
        while i < self.windows.len()
            invariant
                i <= self.windows@.len(),
                forall|j: int| 0 <= j < i ==> (#[trigger] self.windows@[j]).0 != id,
            decreases self.windows@.len() - i,
        {
            if self.windows[i].0 == id {
                proof {
                    lemma_position_unique(self.windows@, id, i as int);
                }
                return Some(i);
            }
            i += 1;
        }
        None
    }

    /// Whether some entry carries `id`.
    pub fn is_tracked(&self, id: u64) -> (known: bool)
        ensures
            known == tracks(self.windows@, id),
    {
        self.position(id).is_some()
    }
}

impl Default for AppState {
    fn default() -> (state: AppState)
        ensures
            state.is_empty_default(),
            state.wf(),
    {
        AppState { windows: Vec::new(), is_hidden: false, is_flipped: false }
    }
}

} // verus!
