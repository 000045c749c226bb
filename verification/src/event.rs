//! The closed vocabulary of the monitor: which kernel object changed, and how.

use vstd::prelude::*;

verus! {

/// The classes of kernel network objects whose changes are reported.
#[derive(Clone, Copy, Debug, PartialEq, Eq, Structural)]
pub enum Variant {
    Route,
    Link,
    LinkProperty,
    Address,
    Neighbour,
    NeighbourTable,
    QueueDiscipline,
    TrafficClass,
    TrafficFilter,
    TrafficChain,
    NamespaceId,
    Rule,
}

/// What happened to the object.
#[derive(Clone, Copy, Debug, PartialEq, Eq, Structural)]
pub enum Action {
    Created,
    Deleted,
    /// The kernel's "set" notifications: an existing object was modified.
    Modified,
}

/// One classified change notification.
#[derive(Clone, Copy, Debug, PartialEq, Eq, Structural)]
pub struct Event {
    pub variant: Variant,
    pub action: Action,
}

impl Variant {
    /// Every class can be created. Every class but the neighbour table can be
    /// deleted. Only links and neighbour tables can be modified.
    pub open spec fn supports(self, action: Action) -> bool {
        match action {
            Action::Created => true,
            Action::Deleted => self != Variant::NeighbourTable,
            Action::Modified => self == Variant::Link || self == Variant::NeighbourTable,
        }
    }

    /// Whether the kernel reports `action` for objects of this class.
    pub fn is_supported(self, action: Action) -> (supported: bool)
        ensures
            supported == self.supports(action),
    {
        match action {
            Action::Created => true,
            Action::Deleted => !matches!(self, Variant::NeighbourTable),
            Action::Modified => matches!(self, Variant::Link | Variant::NeighbourTable),
        }
    }
}

impl Event {
    /// An event is well formed when its class supports its action.
    pub open spec fn wf(self) -> bool {
        self.variant.supports(self.action)
    }

    /// The event for `variant` and `action`, where the class supports the action.
    pub fn new(variant: Variant, action: Action) -> (event: Option<Event>)
        ensures
            event == (if variant.supports(action) {
                Some(Event { variant, action })
            } else {
                None
            }),
    {
        if variant.is_supported(action) {
            Some(Event { variant, action })
        } else {
            None
        }
    }
}

} // verus!
