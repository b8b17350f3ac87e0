use vstd::prelude::*;
use super::base::EventInit;

verus! {

/// The initial values of an event of the `StorageEvent` interface.
#[derive(Debug, Clone)]
pub struct StorageEventInit {
    pub base: EventInit,
    pub key: Option<String>,
    pub old_value: Option<String>,
    pub new_value: Option<String>,
    pub url: String,
    pub storage_area: Option<String>,
}

impl StorageEventInit {
    /// Every field holds its default: empty text and lists, no value, `false`, zero.
    pub open spec fn is_default(&self) -> bool {
        &&& self.base.is_default()
        &&& self.key is None
        &&& self.old_value is None
        &&& self.new_value is None
        &&& self.url@ == Seq::<char>::empty()
        &&& self.storage_area is None
    }
}

impl Default for StorageEventInit {
    fn default() -> (r: Self)
        ensures
            r.is_default(),
    {
        StorageEventInit {
            base: EventInit::default(),
            key: None,
            old_value: None,
            new_value: None,
            url: String::new(),
            storage_area: None,
        }
    }
}

/// The initial values of an event of the `SubmitEvent` interface.
#[derive(Debug, Clone)]
pub struct SubmitEventInit {
    pub base: EventInit,
    pub submitter: Option<String>,
}

impl SubmitEventInit {
    /// Every field holds its default: empty text and lists, no value, `false`, zero.
    pub open spec fn is_default(&self) -> bool {
        &&& self.base.is_default()
        &&& self.submitter is None
    }
}

impl Default for SubmitEventInit {
    fn default() -> (r: Self)
        ensures
            r.is_default(),
    {
        SubmitEventInit {
            base: EventInit::default(),
            submitter: None,
        }
    }
}

/// The initial values of an event of the `FormDataEvent` interface.
#[derive(Debug, Clone)]
pub struct FormDataEventInit {
    pub base: EventInit,
    pub form_data: Option<String>,
}

impl FormDataEventInit {
    /// Every field holds its default: empty text and lists, no value, `false`, zero.
    pub open spec fn is_default(&self) -> bool {
        &&& self.base.is_default()
        &&& self.form_data is None
    }
}

impl Default for FormDataEventInit {
    fn default() -> (r: Self)
        ensures
            r.is_default(),
    {
        FormDataEventInit {
            base: EventInit::default(),
            form_data: None,
        }
    }
}

/// The initial values of an event of the `ToggleEvent` interface.
#[derive(Debug, Clone)]
pub struct ToggleEventInit {
    pub base: EventInit,
    pub old_state: String,
    pub new_state: String,
}

impl ToggleEventInit {
    /// Every field holds its default: empty text and lists, no value, `false`, zero.
    pub open spec fn is_default(&self) -> bool {
        &&& self.base.is_default()
        &&& self.old_state@ == Seq::<char>::empty()
        &&& self.new_state@ == Seq::<char>::empty()
    }
}

impl Default for ToggleEventInit {
    fn default() -> (r: Self)
        ensures
            r.is_default(),
    {
        ToggleEventInit {
            base: EventInit::default(),
            old_state: String::new(),
            new_state: String::new(),
        }
    }
}

/// The initial values of an event of the `CommandEvent` interface.
#[derive(Debug, Clone)]
pub struct CommandEventInit {
    pub base: EventInit,
    pub command: String,
}

impl CommandEventInit {
    /// Every field holds its default: empty text and lists, no value, `false`, zero.
    pub open spec fn is_default(&self) -> bool {
        &&& self.base.is_default()
        &&& self.command@ == Seq::<char>::empty()
    }
}

impl Default for CommandEventInit {
    fn default() -> (r: Self)
        ensures
            r.is_default(),
    {
        CommandEventInit {
            base: EventInit::default(),
            command: String::new(),
        }
    }
}

} // verus!
