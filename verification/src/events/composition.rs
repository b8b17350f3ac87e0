use vstd::prelude::*;
use super::ui::UiEventInit;

verus! {

/// The initial values of an event of the `CompositionEvent` interface.
#[derive(Debug, Clone)]
pub struct CompositionEventInit {
    pub ui: UiEventInit,
    pub data: String,
}

impl CompositionEventInit {
    /// Every field holds its default: empty text and lists, no value, `false`, zero.
    pub open spec fn is_default(&self) -> bool {
        &&& self.ui.is_default()
        &&& self.data@ == Seq::<char>::empty()
    }
}

impl Default for CompositionEventInit {
    fn default() -> (r: Self)
        ensures
            r.is_default(),
    {
        CompositionEventInit {
            ui: UiEventInit::default(),
            data: String::new(),
        }
    }
}

} // verus!
