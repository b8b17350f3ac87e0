use vstd::prelude::*;
use super::base::EventInit;

verus! {

/// The initial values of an event of the `ClipboardEvent` interface.
#[derive(Debug, Clone)]
pub struct ClipboardEventInit {
    pub base: EventInit,
    pub clipboard_data: Option<String>,
}

impl ClipboardEventInit {
    /// Every field holds its default: empty text and lists, no value, `false`, zero.
    pub open spec fn is_default(&self) -> bool {
        &&& self.base.is_default()
        &&& self.clipboard_data is None
    }
}

impl Default for ClipboardEventInit {
    fn default() -> (r: Self)
        ensures
            r.is_default(),
    {
        ClipboardEventInit {
            base: EventInit::default(),
            clipboard_data: None,
        }
    }
}

} // verus!
