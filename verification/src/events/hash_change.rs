use vstd::prelude::*;
use super::base::EventInit;

verus! {

/// The initial values of an event of the `HashChangeEvent` interface.
#[derive(Debug, Clone)]
pub struct HashChangeEventInit {
    pub base: EventInit,
    pub old_url: String,
    pub new_url: String,
}

impl HashChangeEventInit {
    /// Every field holds its default: empty text and lists, no value, `false`, zero.
    pub open spec fn is_default(&self) -> bool {
        &&& self.base.is_default()
        &&& self.old_url@ == Seq::<char>::empty()
        &&& self.new_url@ == Seq::<char>::empty()
    }
}

impl Default for HashChangeEventInit {
    fn default() -> (r: Self)
        ensures
            r.is_default(),
    {
        HashChangeEventInit {
            base: EventInit::default(),
            old_url: String::new(),
            new_url: String::new(),
        }
    }
}

} // verus!
