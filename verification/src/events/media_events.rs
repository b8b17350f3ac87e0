use vstd::prelude::*;
use super::base::EventInit;

verus! {

/// The initial values of an event of the `GamepadEvent` interface.
#[derive(Debug, Clone)]
pub struct GamepadEventInit {
    pub base: EventInit,
    pub gamepad: Option<String>,
}

impl GamepadEventInit {
    /// Every field holds its default: empty text and lists, no value, `false`, zero.
    pub open spec fn is_default(&self) -> bool {
        &&& self.base.is_default()
        &&& self.gamepad is None
    }
}

impl Default for GamepadEventInit {
    fn default() -> (r: Self)
        ensures
            r.is_default(),
    {
        GamepadEventInit {
            base: EventInit::default(),
            gamepad: None,
        }
    }
}

/// The initial values of an event of the `MediaStreamTrackEvent` interface.
#[derive(Debug, Clone)]
pub struct MediaStreamTrackEventInit {
    pub base: EventInit,
    pub track: Option<String>,
}

impl MediaStreamTrackEventInit {
    /// Every field holds its default: empty text and lists, no value, `false`, zero.
    pub open spec fn is_default(&self) -> bool {
        &&& self.base.is_default()
        &&& self.track is None
    }
}

impl Default for MediaStreamTrackEventInit {
    fn default() -> (r: Self)
        ensures
            r.is_default(),
    {
        MediaStreamTrackEventInit {
            base: EventInit::default(),
            track: None,
        }
    }
}

/// The initial values of an event of the `MediaEncryptedEvent` interface.
#[derive(Debug, Clone)]
pub struct MediaEncryptedEventInit {
    pub base: EventInit,
    pub init_data_type: String,
    pub init_data: Option<String>,
}

impl MediaEncryptedEventInit {
    /// Every field holds its default: empty text and lists, no value, `false`, zero.
    pub open spec fn is_default(&self) -> bool {
        &&& self.base.is_default()
        &&& self.init_data_type@ == Seq::<char>::empty()
        &&& self.init_data is None
    }
}

impl Default for MediaEncryptedEventInit {
    fn default() -> (r: Self)
        ensures
            r.is_default(),
    {
        MediaEncryptedEventInit {
            base: EventInit::default(),
            init_data_type: String::new(),
            init_data: None,
        }
    }
}

/// The initial values of an event of the `MediaKeyMessageEvent` interface.
#[derive(Debug, Clone)]
pub struct MediaKeyMessageEventInit {
    pub base: EventInit,
    pub message_type: String,
    pub message: Option<String>,
}

impl MediaKeyMessageEventInit {
    /// Every field holds its default: empty text and lists, no value, `false`, zero.
    pub open spec fn is_default(&self) -> bool {
        &&& self.base.is_default()
        &&& self.message_type@ == Seq::<char>::empty()
        &&& self.message is None
    }
}

impl Default for MediaKeyMessageEventInit {
    fn default() -> (r: Self)
        ensures
            r.is_default(),
    {
        MediaKeyMessageEventInit {
            base: EventInit::default(),
            message_type: String::new(),
            message: None,
        }
    }
}

/// The initial values of an event of the `MediaQueryListEvent` interface.
#[derive(Debug, Clone)]
pub struct MediaQueryListEventInit {
    pub base: EventInit,
    pub media: String,
    pub matches: bool,
}

impl MediaQueryListEventInit {
    /// Every field holds its default: empty text and lists, no value, `false`, zero.
    pub open spec fn is_default(&self) -> bool {
        &&& self.base.is_default()
        &&& self.media@ == Seq::<char>::empty()
        &&& !self.matches
    }
}

impl Default for MediaQueryListEventInit {
    fn default() -> (r: Self)
        ensures
            r.is_default(),
    {
        MediaQueryListEventInit {
            base: EventInit::default(),
            media: String::new(),
            matches: false,
        }
    }
}

/// The initial values of an event of the `PictureInPictureEvent` interface.
#[derive(Debug, Clone)]
pub struct PictureInPictureEventInit {
    pub base: EventInit,
    pub picture_in_picture_window: Option<String>,
}

impl PictureInPictureEventInit {
    /// Every field holds its default: empty text and lists, no value, `false`, zero.
    pub open spec fn is_default(&self) -> bool {
        &&& self.base.is_default()
        &&& self.picture_in_picture_window is None
    }
}

impl Default for PictureInPictureEventInit {
    fn default() -> (r: Self)
        ensures
            r.is_default(),
    {
        PictureInPictureEventInit {
            base: EventInit::default(),
            picture_in_picture_window: None,
        }
    }
}

/// The initial values of an event of the `DocumentPictureInPictureEvent` interface.
#[derive(Debug, Clone)]
pub struct DocumentPictureInPictureEventInit {
    pub base: EventInit,
    pub window: Option<String>,
}

impl DocumentPictureInPictureEventInit {
    /// Every field holds its default: empty text and lists, no value, `false`, zero.
    pub open spec fn is_default(&self) -> bool {
        &&& self.base.is_default()
        &&& self.window is None
    }
}

impl Default for DocumentPictureInPictureEventInit {
    fn default() -> (r: Self)
        ensures
            r.is_default(),
    {
        DocumentPictureInPictureEventInit {
            base: EventInit::default(),
            window: None,
        }
    }
}

/// The initial values of an event of the `PortalActivateEvent` interface.
#[derive(Debug, Clone)]
pub struct PortalActivateEventInit {
    pub base: EventInit,
    pub data: Option<String>,
}

impl PortalActivateEventInit {
    /// Every field holds its default: empty text and lists, no value, `false`, zero.
    pub open spec fn is_default(&self) -> bool {
        &&& self.base.is_default()
        &&& self.data is None
    }
}

impl Default for PortalActivateEventInit {
    fn default() -> (r: Self)
        ensures
            r.is_default(),
    {
        PortalActivateEventInit {
            base: EventInit::default(),
            data: None,
        }
    }
}

/// The initial values of an event of the `PageTransitionEvent` interface.
#[derive(Debug, Clone)]
pub struct PageTransitionEventInit {
    pub base: EventInit,
    pub persisted: bool,
}

impl PageTransitionEventInit {
    /// Every field holds its default: empty text and lists, no value, `false`, zero.
    pub open spec fn is_default(&self) -> bool {
        &&& self.base.is_default()
        &&& !self.persisted
    }
}

impl Default for PageTransitionEventInit {
    fn default() -> (r: Self)
        ensures
            r.is_default(),
    {
        PageTransitionEventInit {
            base: EventInit::default(),
            persisted: false,
        }
    }
}

/// The initial values of an event of the `PageRevealEvent` interface.
#[derive(Debug, Clone)]
pub struct PageRevealEventInit {
    pub base: EventInit,
}

impl PageRevealEventInit {
    /// Every field holds its default: empty text and lists, no value, `false`, zero.
    pub open spec fn is_default(&self) -> bool {
        &&& self.base.is_default()
    }
}

impl Default for PageRevealEventInit {
    fn default() -> (r: Self)
        ensures
            r.is_default(),
    {
        PageRevealEventInit {
            base: EventInit::default(),
        }
    }
}

/// The initial values of an event of the `PageSwapEvent` interface.
#[derive(Debug, Clone)]
pub struct PageSwapEventInit {
    pub base: EventInit,
    pub activation: Option<String>,
    pub view_transition: Option<String>,
}

impl PageSwapEventInit {
    /// Every field holds its default: empty text and lists, no value, `false`, zero.
    pub open spec fn is_default(&self) -> bool {
        &&& self.base.is_default()
        &&& self.activation is None
        &&& self.view_transition is None
    }
}

impl Default for PageSwapEventInit {
    fn default() -> (r: Self)
        ensures
            r.is_default(),
    {
        PageSwapEventInit {
            base: EventInit::default(),
            activation: None,
            view_transition: None,
        }
    }
}

/// The initial values of an event of the `NavigateEvent` interface.
#[derive(Debug, Clone)]
pub struct NavigateEventInit {
    pub base: EventInit,
    pub navigation_type: String,
    pub destination: Option<String>,
    pub can_intercept: bool,
    pub user_initiated: bool,
    pub hash_change: bool,
    pub download_request: Option<String>,
    pub form_data: Option<String>,
    pub info: Option<String>,
}

impl NavigateEventInit {
    /// Every field holds its default: empty text and lists, no value, `false`, zero.
    pub open spec fn is_default(&self) -> bool {
        &&& self.base.is_default()
        &&& self.navigation_type@ == Seq::<char>::empty()
        &&& self.destination is None
        &&& !self.can_intercept
        &&& !self.user_initiated
        &&& !self.hash_change
        &&& self.download_request is None
        &&& self.form_data is None
        &&& self.info is None
    }
}

impl Default for NavigateEventInit {
    fn default() -> (r: Self)
        ensures
            r.is_default(),
    {
        NavigateEventInit {
            base: EventInit::default(),
            navigation_type: String::new(),
            destination: None,
            can_intercept: false,
            user_initiated: false,
            hash_change: false,
            download_request: None,
            form_data: None,
            info: None,
        }
    }
}

/// The initial values of an event of the `NavigationCurrentEntryChangeEvent` interface.
#[derive(Debug, Clone)]
pub struct NavigationCurrentEntryChangeEventInit {
    pub base: EventInit,
    pub navigation_type: String,
    pub from: Option<String>,
}

impl NavigationCurrentEntryChangeEventInit {
    /// Every field holds its default: empty text and lists, no value, `false`, zero.
    pub open spec fn is_default(&self) -> bool {
        &&& self.base.is_default()
        &&& self.navigation_type@ == Seq::<char>::empty()
        &&& self.from is None
    }
}

impl Default for NavigationCurrentEntryChangeEventInit {
    fn default() -> (r: Self)
        ensures
            r.is_default(),
    {
        NavigationCurrentEntryChangeEventInit {
            base: EventInit::default(),
            navigation_type: String::new(),
            from: None,
        }
    }
}

/// The initial values of an event of the `BeforeUnloadEvent` interface.
#[derive(Debug, Clone)]
pub struct BeforeUnloadEventInit {
    pub base: EventInit,
}

impl BeforeUnloadEventInit {
    /// Every field holds its default: empty text and lists, no value, `false`, zero.
    pub open spec fn is_default(&self) -> bool {
        &&& self.base.is_default()
    }
}

impl Default for BeforeUnloadEventInit {
    fn default() -> (r: Self)
        ensures
            r.is_default(),
    {
        BeforeUnloadEventInit {
            base: EventInit::default(),
        }
    }
}

/// The initial values of an event of the `BeforeInstallPromptEvent` interface.
#[derive(Debug, Clone)]
pub struct BeforeInstallPromptEventInit {
    pub base: EventInit,
    pub platforms: Vec<String>,
}

impl BeforeInstallPromptEventInit {
    /// Every field holds its default: empty text and lists, no value, `false`, zero.
    pub open spec fn is_default(&self) -> bool {
        &&& self.base.is_default()
        &&& self.platforms@.len() == 0
    }
}

impl Default for BeforeInstallPromptEventInit {
    fn default() -> (r: Self)
        ensures
            r.is_default(),
    {
        BeforeInstallPromptEventInit {
            base: EventInit::default(),
            platforms: Vec::new(),
        }
    }
}

/// The initial values of an event of the `SecurityPolicyViolationEvent` interface.
#[derive(Debug, Clone)]
pub struct SecurityPolicyViolationEventInit {
    pub base: EventInit,
    pub document_uri: String,
    pub referrer: String,
    pub blocked_uri: String,
    pub violated_directive: String,
    pub effective_directive: String,
    pub original_policy: String,
    pub disposition: String,
    pub source_file: String,
    pub status_code: u16,
    pub line_number: u32,
    pub column_number: u32,
}

impl SecurityPolicyViolationEventInit {
    /// Every field holds its default: empty text and lists, no value, `false`, zero.
    pub open spec fn is_default(&self) -> bool {
        &&& self.base.is_default()
        &&& self.document_uri@ == Seq::<char>::empty()
        &&& self.referrer@ == Seq::<char>::empty()
        &&& self.blocked_uri@ == Seq::<char>::empty()
        &&& self.violated_directive@ == Seq::<char>::empty()
        &&& self.effective_directive@ == Seq::<char>::empty()
        &&& self.original_policy@ == Seq::<char>::empty()
        &&& self.disposition@ == Seq::<char>::empty()
        &&& self.source_file@ == Seq::<char>::empty()
        &&& self.status_code == 0
        &&& self.line_number == 0
        &&& self.column_number == 0
    }
}

impl Default for SecurityPolicyViolationEventInit {
    fn default() -> (r: Self)
        ensures
            r.is_default(),
    {
        SecurityPolicyViolationEventInit {
            base: EventInit::default(),
            document_uri: String::new(),
            referrer: String::new(),
            blocked_uri: String::new(),
            violated_directive: String::new(),
            effective_directive: String::new(),
            original_policy: String::new(),
            disposition: String::new(),
            source_file: String::new(),
            status_code: 0,
            line_number: 0,
            column_number: 0,
        }
    }
}

/// The initial values of an event of the `PromiseRejectionEvent` interface.
#[derive(Debug, Clone)]
pub struct PromiseRejectionEventInit {
    pub base: EventInit,
    pub promise: Option<String>,
    pub reason: Option<String>,
}

impl PromiseRejectionEventInit {
    /// Every field holds its default: empty text and lists, no value, `false`, zero.
    pub open spec fn is_default(&self) -> bool {
        &&& self.base.is_default()
        &&& self.promise is None
        &&& self.reason is None
    }
}

impl Default for PromiseRejectionEventInit {
    fn default() -> (r: Self)
        ensures
            r.is_default(),
    {
        PromiseRejectionEventInit {
            base: EventInit::default(),
            promise: None,
            reason: None,
        }
    }
}

/// The initial values of an event of the `TaskPriorityChangeEvent` interface.
#[derive(Debug, Clone)]
pub struct TaskPriorityChangeEventInit {
    pub base: EventInit,
    pub previous_priority: String,
}

impl TaskPriorityChangeEventInit {
    /// Every field holds its default: empty text and lists, no value, `false`, zero.
    pub open spec fn is_default(&self) -> bool {
        &&& self.base.is_default()
        &&& self.previous_priority@ == Seq::<char>::empty()
    }
}

impl Default for TaskPriorityChangeEventInit {
    fn default() -> (r: Self)
        ensures
            r.is_default(),
    {
        TaskPriorityChangeEventInit {
            base: EventInit::default(),
            previous_priority: String::new(),
        }
    }
}

} // verus!
