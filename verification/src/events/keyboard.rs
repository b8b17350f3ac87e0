use vstd::prelude::*;
use super::ui::UiEventInit;

verus! {

/// The initial values of an event of the `KeyboardEvent` interface.
#[derive(Debug, Clone)]
pub struct KeyboardEventInit {
    pub ui: UiEventInit,
    pub key: String,
    pub code: String,
    pub location: u32,
    pub repeat: bool,
    pub is_composing: bool,
}

impl KeyboardEventInit {
    /// Every field holds its default: empty text and lists, no value, `false`, zero.
    pub open spec fn is_default(&self) -> bool {
        &&& self.ui.is_default()
        &&& self.key@ == Seq::<char>::empty()
        &&& self.code@ == Seq::<char>::empty()
        &&& self.location == 0
        &&& !self.repeat
        &&& !self.is_composing
    }
}

impl Default for KeyboardEventInit {
    fn default() -> (r: Self)
        ensures
            r.is_default(),
    {
        KeyboardEventInit {
            ui: UiEventInit::default(),
            key: String::new(),
            code: String::new(),
            location: 0,
            repeat: false,
            is_composing: false,
        }
    }
}

} // verus!
