//! Which outbound drags still have a worker.

use std::collections::HashSet;

use vstd::prelude::*;

verus! {

broadcast use vstd::std_specs::hash::group_hash_axioms;

/// The outbound drags that still have a worker.
#[derive(Debug)]
pub struct OutboundDrags {
    active: HashSet<u64>,
}

impl View for OutboundDrags {
    type V = Set<u64>;

    closed spec fn view(&self) -> Set<u64> {
        self.active@
    }
}

/// Handle for one outbound drag that has a worker.
#[derive(Debug)]
pub struct ActiveOutboundDrag {
    id: u64,
}

impl ActiveOutboundDrag {
    /// The drag that the handle stands for.
    pub closed spec fn drag_id(self) -> u64 {
        self.id
    }

    /// Register a drag whose worker starts.
    pub fn register(drags: &mut OutboundDrags, id: u64) -> (handle: ActiveOutboundDrag)
        ensures
            handle.drag_id() == id,
            final(drags)@ == old(drags)@.insert(id),
    {
        drags.active.insert(id);
        ActiveOutboundDrag { id }
    }

    /// Give the handle back: the worker is done.
    pub fn release(self, drags: &mut OutboundDrags)
        ensures
            final(drags)@ == old(drags)@.remove(self.drag_id()),
    {
        drags.active.remove(&self.id);
    }
}

impl OutboundDrags {
    /// No drag has a worker.
    pub fn new() -> (drags: OutboundDrags)
        ensures
            drags@ == Set::<u64>::empty(),
    {
        OutboundDrags { active: HashSet::new() }
    }
}

/// Whether any outbound drag still has a worker.
#[must_use]
pub fn has_active_outbound_drag(drags: &OutboundDrags) -> (any: bool)
    ensures
        any == (drags@ != Set::<u64>::empty()),
{
    let any = !drags.active.is_empty();
    proof {
        if drags@.is_empty() {
            assert(drags@ =~= Set::<u64>::empty());
        }
    }
    any
}

/// True while the platform backend still has an outbound drag worker for `drag_id`.
#[must_use]
pub fn is_drag_active(drags: &OutboundDrags, drag_id: u64) -> (active: bool)
    ensures
        active == drags@.contains(drag_id),
{
    drags.active.contains(&drag_id)
}

/// Forget the worker of a drag before it is done.
pub fn clear_drag_active(drags: &mut OutboundDrags, drag_id: u64)
    ensures
        final(drags)@ == old(drags)@.remove(drag_id),
{
    drags.active.remove(&drag_id);
}

/// A drag is active from its registration to its release or clearing, and other
/// drags do not change that.
pub proof fn drag_is_active_while_registered(drags: Set<u64>, id: u64, other: u64)
    ensures
        drags.insert(id).contains(id),
        !drags.insert(id).remove(id).contains(id),
        id != other ==> drags.insert(id).remove(other).contains(id),
        id != other ==> drags.insert(other).contains(id) == drags.contains(id),
{
}

} // verus!
