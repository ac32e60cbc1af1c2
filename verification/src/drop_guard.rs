//! Drop depth tracking, used to stop runaway recursion in chains of drops.
//!
//! A tracker counts how many drop handlers are currently nested; a handler
//! that would nest deeper than the limit is told to skip its logic.
use vstd::prelude::*;

verus! {

/// Maximum allowed drop depth before drop logic is skipped.
pub const MAX_DROP_DEPTH_LIMIT: usize = 50;

/// The nesting depth of drop handlers, and the deepest nesting seen.
pub struct DropDepth {
    pub depth: usize,
    pub max_depth: usize,
}

impl DropDepth {
    /// A tracker with nothing nested.
    pub fn new() -> (r: Self)
        ensures
            r.depth == 0,
            r.max_depth == 0,
    {
        DropDepth { depth: 0, max_depth: 0 }
    }
}

/// The tracker after entering a drop context.
pub open spec fn after_enter(t: DropDepth) -> DropDepth {
    DropDepth {
        depth: (t.depth + 1) as usize,
        max_depth: if t.depth + 1 > t.max_depth { (t.depth + 1) as usize } else { t.max_depth },
    }
}

/// What entering a drop context reports: the depth to restore on exit, or
/// `None` when the limit is exceeded.
pub open spec fn enter_outcome(t: DropDepth) -> Option<usize> {
    if t.depth + 1 > MAX_DROP_DEPTH_LIMIT {
        None
    } else {
        Some(t.depth)
    }
}

/// The tracker after exiting a drop context with a saved depth.
pub open spec fn after_exit(t: DropDepth, saved_depth: usize) -> DropDepth {
    DropDepth { depth: saved_depth, max_depth: t.max_depth }
}

/// Enter a drop context.
///
/// The depth goes up by one and the deepest nesting seen is updated. The
/// result is the depth from before, to be handed to [`exit_drop`], or `None`
/// when the new depth exceeds [`MAX_DROP_DEPTH_LIMIT`] and the drop logic
/// should be skipped.
pub fn enter_drop(tracker: &mut DropDepth, location: &str) -> (r: Option<usize>)
    requires
        old(tracker).depth < usize::MAX,
    ensures
        *final(tracker) == after_enter(*old(tracker)),
        r == enter_outcome(*old(tracker)),
{
    let current = tracker.depth;
    let new_depth = current + 1;
    tracker.depth = new_depth;
    if new_depth > tracker.max_depth {
        tracker.max_depth = new_depth;
    }
    if new_depth > MAX_DROP_DEPTH_LIMIT {
        None
    } else {
        Some(current)
    }
}

/// Exit a drop context, restoring the depth saved by [`enter_drop`].
pub fn exit_drop(tracker: &mut DropDepth, saved_depth: usize)
    ensures
        *final(tracker) == after_exit(*old(tracker), saved_depth),
{
    tracker.depth = saved_depth;
}

/// The current drop depth.
pub fn current_depth(tracker: &DropDepth) -> (r: usize)
    ensures
        r == tracker.depth,
{
    tracker.depth
}

/// Reset the depth and the deepest nesting seen.
pub fn reset_depth(tracker: &mut DropDepth)
    ensures
        final(tracker).depth == 0,
        final(tracker).max_depth == 0,
{
    tracker.depth = 0;
    tracker.max_depth = 0;
}

/// A drop handler runs exactly when its depth stays within the limit, and
/// exiting with the depth that entering saved leaves the depth where it
/// was, while the deepest nesting seen only grows.
pub proof fn lemma_enter_exit_restores(t: DropDepth)
    requires
        t.depth < usize::MAX,
    ensures
        enter_outcome(t) is Some <==> t.depth < MAX_DROP_DEPTH_LIMIT,
        enter_outcome(t) matches Some(saved) ==> after_exit(after_enter(t), saved).depth == t.depth,
        after_exit(after_enter(t), t.depth).max_depth >= t.max_depth,
        after_enter(t).max_depth >= after_enter(t).depth,
{
}

/// Entering a drop context nests one level deeper and remembers the
/// deepest nesting; it hands back the depth from before while the new depth
/// is within the limit, and nothing beyond it. Exiting restores the saved
/// depth and keeps the deepest nesting seen.
pub proof fn lemma_enter_counts_one(t: DropDepth, saved: usize)
    requires
        t.depth < usize::MAX,
    ensures
        after_enter(t).depth == t.depth + 1,
        after_enter(t).max_depth == (if t.depth + 1 > t.max_depth {
            t.depth + 1
        } else {
            t.max_depth as int
        }),
        t.depth < MAX_DROP_DEPTH_LIMIT ==> enter_outcome(t) == Some(t.depth),
        t.depth >= MAX_DROP_DEPTH_LIMIT ==> enter_outcome(t) is None,
        after_exit(t, saved).depth == saved,
        after_exit(t, saved).max_depth == t.max_depth,
{
}

} // verus!
