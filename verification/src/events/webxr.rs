use vstd::prelude::*;
use super::base::EventInit;

verus! {

/// The initial values of an event of the `XRInputSourceEvent` interface.
#[derive(Debug, Clone)]
pub struct XRInputSourceEventInit {
    pub base: EventInit,
    pub frame: Option<String>,
    pub input_source: Option<String>,
}

impl XRInputSourceEventInit {
    /// Every field holds its default: empty text and lists, no value, `false`, zero.
    pub open spec fn is_default(&self) -> bool {
        &&& self.base.is_default()
        &&& self.frame is None
        &&& self.input_source is None
    }
}

impl Default for XRInputSourceEventInit {
    fn default() -> (r: Self)
        ensures
            r.is_default(),
    {
        XRInputSourceEventInit {
            base: EventInit::default(),
            frame: None,
            input_source: None,
        }
    }
}

/// The initial values of an event of the `XRInputSourcesChangeEvent` interface.
#[derive(Debug, Clone)]
pub struct XRInputSourcesChangeEventInit {
    pub base: EventInit,
    pub session: Option<String>,
    pub added: Vec<String>,
    pub removed: Vec<String>,
}

impl XRInputSourcesChangeEventInit {
    /// Every field holds its default: empty text and lists, no value, `false`, zero.
    pub open spec fn is_default(&self) -> bool {
        &&& self.base.is_default()
        &&& self.session is None
        &&& self.added@.len() == 0
        &&& self.removed@.len() == 0
    }
}

impl Default for XRInputSourcesChangeEventInit {
    fn default() -> (r: Self)
        ensures
            r.is_default(),
    {
        XRInputSourcesChangeEventInit {
            base: EventInit::default(),
            session: None,
            added: Vec::new(),
            removed: Vec::new(),
        }
    }
}

/// The initial values of an event of the `XRLayerEvent` interface.
#[derive(Debug, Clone)]
pub struct XRLayerEventInit {
    pub base: EventInit,
    pub layer: Option<String>,
}

impl XRLayerEventInit {
    /// Every field holds its default: empty text and lists, no value, `false`, zero.
    pub open spec fn is_default(&self) -> bool {
        &&& self.base.is_default()
        &&& self.layer is None
    }
}

impl Default for XRLayerEventInit {
    fn default() -> (r: Self)
        ensures
            r.is_default(),
    {
        XRLayerEventInit {
            base: EventInit::default(),
            layer: None,
        }
    }
}

/// The initial values of an event of the `XRReferenceSpaceEvent` interface.
#[derive(Debug, Clone)]
pub struct XRReferenceSpaceEventInit {
    pub base: EventInit,
    pub reference_space: Option<String>,
    pub transform: Option<String>,
}

impl XRReferenceSpaceEventInit {
    /// Every field holds its default: empty text and lists, no value, `false`, zero.
    pub open spec fn is_default(&self) -> bool {
        &&& self.base.is_default()
        &&& self.reference_space is None
        &&& self.transform is None
    }
}

impl Default for XRReferenceSpaceEventInit {
    fn default() -> (r: Self)
        ensures
            r.is_default(),
    {
        XRReferenceSpaceEventInit {
            base: EventInit::default(),
            reference_space: None,
            transform: None,
        }
    }
}

/// The initial values of an event of the `XRSessionEvent` interface.
#[derive(Debug, Clone)]
pub struct XRSessionEventInit {
    pub base: EventInit,
    pub session: Option<String>,
}

impl XRSessionEventInit {
    /// Every field holds its default: empty text and lists, no value, `false`, zero.
    pub open spec fn is_default(&self) -> bool {
        &&& self.base.is_default()
        &&& self.session is None
    }
}

impl Default for XRSessionEventInit {
    fn default() -> (r: Self)
        ensures
            r.is_default(),
    {
        XRSessionEventInit {
            base: EventInit::default(),
            session: None,
        }
    }
}

/// The initial values of an event of the `XRVisibilityMaskChangeEvent` interface.
#[derive(Debug, Clone)]
pub struct XRVisibilityMaskChangeEventInit {
    pub base: EventInit,
    pub session: Option<String>,
}

impl XRVisibilityMaskChangeEventInit {
    /// Every field holds its default: empty text and lists, no value, `false`, zero.
    pub open spec fn is_default(&self) -> bool {
        &&& self.base.is_default()
        &&& self.session is None
    }
}

impl Default for XRVisibilityMaskChangeEventInit {
    fn default() -> (r: Self)
        ensures
            r.is_default(),
    {
        XRVisibilityMaskChangeEventInit {
            base: EventInit::default(),
            session: None,
        }
    }
}

} // verus!
