use vstd::prelude::*;
use super::ui::UiEventInit;

verus! {

/// The initial values of an event of the `InputEvent` interface.
#[derive(Debug, Clone)]
pub struct InputEventInit {
    pub ui: UiEventInit,
    pub data: Option<String>,
    pub is_composing: bool,
    pub input_type: String,
}

impl InputEventInit {
    /// Every field holds its default: empty text and lists, no value, `false`, zero.
    pub open spec fn is_default(&self) -> bool {
        &&& self.ui.is_default()
        &&& self.data is None
        &&& !self.is_composing
        &&& self.input_type@ == Seq::<char>::empty()
    }
}

impl Default for InputEventInit {
    fn default() -> (r: Self)
        ensures
            r.is_default(),
    {
        InputEventInit {
            ui: UiEventInit::default(),
            data: None,
            is_composing: false,
            input_type: String::new(),
        }
    }
}

} // verus!
