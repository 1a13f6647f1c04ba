//! Choosing the monitor whose scale factor applies to a position.
//!
//! The geometry (converting a position to logical coordinates with each
//! monitor's scale factor and testing it against the monitor's bounds) is
//! done by the caller; what it found for each monitor, in the order the
//! monitors were listed, is handed here as a [`MonitorHit`], and the decision
//! which monitor wins is made here.
use vstd::prelude::*;

verus! {

/// What was found about one monitor for a queried position.
#[derive(Debug, Clone, Copy, PartialEq, Eq, Structural)]
pub struct MonitorHit {
    /// The monitor has a positive width and a positive scale factor.
    pub usable: bool,
    /// The position lies within the monitor's bounds.
    pub contains: bool,
}

impl MonitorHit {
    /// Records what was found about one monitor.
    pub fn new(usable: bool, contains: bool) -> (hit: Self)
        ensures
            hit.usable == usable,
            hit.contains == contains,
    {
        MonitorHit { usable, contains }
    }
}

/// A monitor is a target of the position when it is usable and contains it.
pub open spec fn is_target(hit: MonitorHit) -> bool {
    hit.usable && hit.contains
}

/// Returns the index of the monitor that determines the scale factor of the
/// queried position: the first usable monitor that contains it, or `None`
/// if no monitor does.
pub fn resolve_target_monitor(hits: &Vec<MonitorHit>) -> (target: Option<usize>)
    ensures
        match target {
            Some(i) => {
                &&& i < hits.len()
                &&& is_target(hits@[i as int])
                &&& forall|j: int| 0 <= j < i ==> !is_target(#[trigger] hits@[j])
            },
            None => forall|j: int| 0 <= j < hits.len() ==> !is_target(#[trigger] hits@[j]),
        },
        match target {
            Some(i) => {
                &&& hits@[i as int].usable
                &&& hits@[i as int].contains
                &&& forall|j: int|
                    0 <= j < i ==> !(#[trigger] hits@[j]).usable || !hits@[j].contains
            },
            None => forall|j: int|
                0 <= j < hits.len() ==> !(#[trigger] hits@[j]).usable || !hits@[j].contains,
        },
{
    let mut i: usize = 0;
    while i < hits.len()
        invariant
            i <= hits.len(),
            forall|j: int| 0 <= j < i ==> !is_target(#[trigger] hits@[j]),
        decreases hits.len() - i,
    {
        let hit = hits[i];
        if hit.usable && hit.contains {
            return Some(i);
        }
        i = i + 1;
    }
    None
}

} // verus!
