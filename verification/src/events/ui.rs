use vstd::prelude::*;
use super::base::EventInit;

verus! {

/// The initial values of an event of the `UiEvent` interface.
#[derive(Debug, Clone)]
pub struct UiEventInit {
    pub base: EventInit,
    pub view: Option<String>,
    pub detail: i32,
}

impl UiEventInit {
    /// Every field holds its default: empty text and lists, no value, `false`, zero.
    pub open spec fn is_default(&self) -> bool {
        &&& self.base.is_default()
        &&& self.view is None
        &&& self.detail == 0
    }
}

impl Default for UiEventInit {
    fn default() -> (r: Self)
        ensures
            r.is_default(),
    {
        UiEventInit {
            base: EventInit::default(),
            view: None,
            detail: 0,
        }
    }
}

} // verus!
