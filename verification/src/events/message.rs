use vstd::prelude::*;
use super::base::EventInit;

verus! {

/// The initial values of an event of the `MessageEvent` interface.
#[derive(Debug, Clone)]
pub struct MessageEventInit {
    pub base: EventInit,
    pub data: String,
    pub origin: String,
    pub last_event_id: String,
    pub source: Option<String>,
    pub ports: Vec<String>,
}

impl MessageEventInit {
    /// Every field holds its default: empty text and lists, no value, `false`, zero.
    pub open spec fn is_default(&self) -> bool {
        &&& self.base.is_default()
        &&& self.data@ == Seq::<char>::empty()
        &&& self.origin@ == Seq::<char>::empty()
        &&& self.last_event_id@ == Seq::<char>::empty()
        &&& self.source is None
        &&& self.ports@.len() == 0
    }
}

impl Default for MessageEventInit {
    fn default() -> (r: Self)
        ensures
            r.is_default(),
    {
        MessageEventInit {
            base: EventInit::default(),
            data: String::new(),
            origin: String::new(),
            last_event_id: String::new(),
            source: None,
            ports: Vec::new(),
        }
    }
}

} // verus!
