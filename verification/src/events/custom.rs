use vstd::prelude::*;
use super::base::EventInit;

verus! {

/// The initial values of an event of the `CustomEvent` interface.
#[derive(Debug, Clone)]
pub struct CustomEventInit {
    pub base: EventInit,
    pub detail: String,
}

impl CustomEventInit {
    /// Every field holds its default: empty text and lists, no value, `false`, zero.
    pub open spec fn is_default(&self) -> bool {
        &&& self.base.is_default()
        &&& self.detail@ == Seq::<char>::empty()
    }
}

impl Default for CustomEventInit {
    fn default() -> (r: Self)
        ensures
            r.is_default(),
    {
        CustomEventInit {
            base: EventInit::default(),
            detail: String::new(),
        }
    }
}

} // verus!
