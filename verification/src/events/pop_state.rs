use vstd::prelude::*;
use super::base::EventInit;

verus! {

/// The initial values of an event of the `PopStateEvent` interface.
#[derive(Debug, Clone)]
pub struct PopStateEventInit {
    pub base: EventInit,
    pub state: Option<String>,
}

impl PopStateEventInit {
    /// Every field holds its default: empty text and lists, no value, `false`, zero.
    pub open spec fn is_default(&self) -> bool {
        &&& self.base.is_default()
        &&& self.state is None
    }
}

impl Default for PopStateEventInit {
    fn default() -> (r: Self)
        ensures
            r.is_default(),
    {
        PopStateEventInit {
            base: EventInit::default(),
            state: None,
        }
    }
}

} // verus!
