use vstd::prelude::*;
use super::ui::UiEventInit;

verus! {

/// The initial values of an event of the `FocusEvent` interface.
#[derive(Debug, Clone)]
pub struct FocusEventInit {
    pub ui: UiEventInit,
    pub related_target: Option<String>,
}

impl FocusEventInit {
    /// Every field holds its default: empty text and lists, no value, `false`, zero.
    pub open spec fn is_default(&self) -> bool {
        &&& self.ui.is_default()
        &&& self.related_target is None
    }
}

impl Default for FocusEventInit {
    fn default() -> (r: Self)
        ensures
            r.is_default(),
    {
        FocusEventInit {
            ui: UiEventInit::default(),
            related_target: None,
        }
    }
}

} // verus!
