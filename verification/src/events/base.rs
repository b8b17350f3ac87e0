use vstd::prelude::*;

verus! {

/// The initial values of an event of the `Event` interface.
#[derive(Debug, Clone)]
pub struct EventInit {
    pub event_type: String,
    pub bubbles: bool,
    pub cancelable: bool,
    pub default_prevented: bool,
    pub propagation_stopped: bool,
    pub immediate_propagation_stopped: bool,
    pub target_path: Vec<usize>,
}

impl EventInit {
    /// Every field holds its default: empty text and lists, no value, `false`, zero.
    pub open spec fn is_default(&self) -> bool {
        &&& self.event_type@ == Seq::<char>::empty()
        &&& !self.bubbles
        &&& !self.cancelable
        &&& !self.default_prevented
        &&& !self.propagation_stopped
        &&& !self.immediate_propagation_stopped
        &&& self.target_path@.len() == 0
    }
}

impl Default for EventInit {
    fn default() -> (r: Self)
        ensures
            r.is_default(),
    {
        EventInit {
            event_type: String::new(),
            bubbles: false,
            cancelable: false,
            default_prevented: false,
            propagation_stopped: false,
            immediate_propagation_stopped: false,
            target_path: Vec::new(),
        }
    }
}

/// `b` is `a` with at most its three flags (default prevented, propagation
/// stopped, immediate propagation stopped) changed.
pub open spec fn same_but_flags(a: EventInit, b: EventInit) -> bool {
    &&& b.event_type == a.event_type
    &&& b.bubbles == a.bubbles
    &&& b.cancelable == a.cancelable
    &&& b.target_path == a.target_path
}

impl EventInit {
    /// The type of the event.
    pub fn event_type(&self) -> (r: &str)
        ensures
            r@ == self.event_type@,
    {
        self.event_type.as_str()
    }

    /// Prevents the event's default action, if the event is cancelable.
    pub fn prevent_default(&mut self)
        ensures
            same_but_flags(*old(self), *final(self)),
            final(self).default_prevented == (old(self).default_prevented || old(self).cancelable),
            final(self).propagation_stopped == old(self).propagation_stopped,
            final(self).immediate_propagation_stopped == old(self).immediate_propagation_stopped,
    {
        if self.cancelable {
            self.default_prevented = true;
        }
    }

    /// Whether the event's default action has been prevented.
    pub fn is_default_prevented(&self) -> (r: bool)
        ensures
            r == self.default_prevented,
    {
        self.default_prevented
    }

    /// Stops the event from reaching further nodes.
    pub fn stop_propagation(&mut self)
        ensures
            same_but_flags(*old(self), *final(self)),
            final(self).default_prevented == old(self).default_prevented,
            final(self).propagation_stopped,
            final(self).immediate_propagation_stopped == old(self).immediate_propagation_stopped,
    {
        self.propagation_stopped = true;
    }

    /// Stops the event from reaching further nodes and further listeners of
    /// the current node.
    pub fn stop_immediate_propagation(&mut self)
        ensures
            same_but_flags(*old(self), *final(self)),
            final(self).default_prevented == old(self).default_prevented,
            final(self).propagation_stopped,
            final(self).immediate_propagation_stopped,
    {
        self.propagation_stopped = true;
        self.immediate_propagation_stopped = true;
    }

    /// Whether the event has been stopped from reaching further nodes.
    pub fn is_propagation_stopped(&self) -> (r: bool)
        ensures
            r == self.propagation_stopped,
    {
        self.propagation_stopped
    }
}

} // verus!
