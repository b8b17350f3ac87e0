use vstd::prelude::*;
use super::base::EventInit;

verus! {

/// The initial values of an event of the `ErrorEvent` interface.
#[derive(Debug, Clone)]
pub struct ErrorEventInit {
    pub base: EventInit,
    pub message: String,
    pub filename: String,
    pub lineno: u32,
    pub colno: u32,
    pub error: Option<String>,
}

impl ErrorEventInit {
    /// Every field holds its default: empty text and lists, no value, `false`, zero.
    pub open spec fn is_default(&self) -> bool {
        &&& self.base.is_default()
        &&& self.message@ == Seq::<char>::empty()
        &&& self.filename@ == Seq::<char>::empty()
        &&& self.lineno == 0
        &&& self.colno == 0
        &&& self.error is None
    }
}

impl Default for ErrorEventInit {
    fn default() -> (r: Self)
        ensures
            r.is_default(),
    {
        ErrorEventInit {
            base: EventInit::default(),
            message: String::new(),
            filename: String::new(),
            lineno: 0,
            colno: 0,
            error: None,
        }
    }
}

} // verus!
