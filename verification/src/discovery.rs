//! Discovery filter: applies the optional address allow-list to the
//! transport's add/remove events and decides whether a probe is scheduled.
//! Addresses are 48-bit device identifiers carried in a `u64`.
use vstd::prelude::*;

verus! {

/// An event of the transport's discovery stream.
#[derive(Clone, Copy, Debug)]
pub enum DiscoveryEvent {
    Added { addr: u64 },
    Removed { addr: u64 },
}

/// What the event loop must do with a discovery event.
#[derive(Clone, Copy, Debug)]
pub enum DiscoveryAction {
    /// The address is filtered out (or the event kind carries no work).
    Ignored,
    /// Notice the device, wait the quiet period, then run a probe.
    Probe { addr: u64 },
    /// Informational only: an allowed device disappeared.
    NoteRemoval { addr: u64 },
}

/// An address passes when the allow-list is empty or contains it.
pub open spec fn spec_address_allowed(filter: Seq<u64>, addr: u64) -> bool {
    filter.len() == 0 || filter.contains(addr)
}

/// The address a discovery event speaks of.
pub open spec fn spec_event_addr(event: DiscoveryEvent) -> u64 {
    match event {
        DiscoveryEvent::Added { addr } => addr,
        DiscoveryEvent::Removed { addr } => addr,
    }
}

/// The decision for one discovery event.
pub open spec fn spec_handle_event(filter: Seq<u64>, event: DiscoveryEvent) -> DiscoveryAction {
    match event {
        DiscoveryEvent::Added { addr } => {
            if spec_address_allowed(filter, addr) {
                DiscoveryAction::Probe { addr }
            } else {
                DiscoveryAction::Ignored
            }
        },
        DiscoveryEvent::Removed { addr } => {
            if spec_address_allowed(filter, addr) {
                DiscoveryAction::NoteRemoval { addr }
            } else {
                DiscoveryAction::Ignored
            }
        },
    }
}

/// Whether `addr` passes the allow-list.
pub fn address_allowed(filter: &Vec<u64>, addr: u64) -> (r: bool)
    ensures
        r == spec_address_allowed(filter@, addr),
{
    if filter.len() == 0 {
        return true;
    }
    let mut i: usize = 0;
    while i < filter.len()
        invariant
            0 <= i <= filter@.len(),
            forall|j: int| 0 <= j < i ==> filter@[j] != addr,
        decreases filter@.len() - i,
    {
        if filter[i] == addr {
            return true;
        }
        i = i + 1;
    }
    false
}

/// Decides what to do with one discovery event.
pub fn handle_event(filter: &Vec<u64>, event: &DiscoveryEvent) -> (a: DiscoveryAction)
    ensures
        a == spec_handle_event(filter@, *event),
{
    match event {
        DiscoveryEvent::Added { addr } => {
            if address_allowed(filter, *addr) {
                DiscoveryAction::Probe { addr: *addr }
            } else {
                DiscoveryAction::Ignored
            }
        },
        DiscoveryEvent::Removed { addr } => {
            if address_allowed(filter, *addr) {
                DiscoveryAction::NoteRemoval { addr: *addr }
            } else {
                DiscoveryAction::Ignored
            }
        },
    }
}

/// Allow-list law: an added or removed event for an address absent from a
/// non-empty allow-list never reaches the orchestrator — it is ignored.
pub proof fn lemma_allow_list_blocks(filter: Seq<u64>, event: DiscoveryEvent)
    requires
        filter.len() > 0,
        !filter.contains(spec_event_addr(event)),
    ensures
        spec_handle_event(filter, event) == DiscoveryAction::Ignored,
{
}

} // verus!
