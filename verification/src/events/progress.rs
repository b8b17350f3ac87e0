use vstd::prelude::*;
use super::base::EventInit;

verus! {

/// The initial values of an event of the `ProgressEvent` interface.
#[derive(Debug, Clone)]
pub struct ProgressEventInit {
    pub base: EventInit,
    pub length_computable: bool,
    pub loaded: u64,
    pub total: u64,
}

impl ProgressEventInit {
    /// Every field holds its default: empty text and lists, no value, `false`, zero.
    pub open spec fn is_default(&self) -> bool {
        &&& self.base.is_default()
        &&& !self.length_computable
        &&& self.loaded == 0
        &&& self.total == 0
    }
}

impl Default for ProgressEventInit {
    fn default() -> (r: Self)
        ensures
            r.is_default(),
    {
        ProgressEventInit {
            base: EventInit::default(),
            length_computable: false,
            loaded: 0,
            total: 0,
        }
    }
}

} // verus!
