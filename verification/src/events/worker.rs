use vstd::prelude::*;
use super::base::EventInit;
use super::message::MessageEventInit;

verus! {

/// The initial values of an event of the `CloseEvent` interface.
#[derive(Debug, Clone)]
pub struct CloseEventInit {
    pub base: EventInit,
    pub was_clean: bool,
    pub code: u16,
    pub reason: String,
}

impl CloseEventInit {
    /// Every field holds its default: empty text and lists, no value, `false`, zero.
    pub open spec fn is_default(&self) -> bool {
        &&& self.base.is_default()
        &&& !self.was_clean
        &&& self.code == 0
        &&& self.reason@ == Seq::<char>::empty()
    }
}

impl Default for CloseEventInit {
    fn default() -> (r: Self)
        ensures
            r.is_default(),
    {
        CloseEventInit {
            base: EventInit::default(),
            was_clean: false,
            code: 0,
            reason: String::new(),
        }
    }
}

/// The initial values of an event of the `FetchEvent` interface.
#[derive(Debug, Clone)]
pub struct FetchEventInit {
    pub base: ExtendableEventInit,
    pub request: Option<String>,
    pub client_id: String,
    pub resulting_client_id: String,
    pub replaces_client_id: String,
    pub handled: Option<String>,
    pub preload_response: Option<String>,
}

impl FetchEventInit {
    /// Every field holds its default: empty text and lists, no value, `false`, zero.
    pub open spec fn is_default(&self) -> bool {
        &&& self.base.is_default()
        &&& self.request is None
        &&& self.client_id@ == Seq::<char>::empty()
        &&& self.resulting_client_id@ == Seq::<char>::empty()
        &&& self.replaces_client_id@ == Seq::<char>::empty()
        &&& self.handled is None
        &&& self.preload_response is None
    }
}

impl Default for FetchEventInit {
    fn default() -> (r: Self)
        ensures
            r.is_default(),
    {
        FetchEventInit {
            base: ExtendableEventInit::default(),
            request: None,
            client_id: String::new(),
            resulting_client_id: String::new(),
            replaces_client_id: String::new(),
            handled: None,
            preload_response: None,
        }
    }
}

/// The initial values of an event of the `ExtendableEvent` interface.
#[derive(Debug, Clone)]
pub struct ExtendableEventInit {
    pub base: EventInit,
}

impl ExtendableEventInit {
    /// Every field holds its default: empty text and lists, no value, `false`, zero.
    pub open spec fn is_default(&self) -> bool {
        &&& self.base.is_default()
    }
}

impl Default for ExtendableEventInit {
    fn default() -> (r: Self)
        ensures
            r.is_default(),
    {
        ExtendableEventInit {
            base: EventInit::default(),
        }
    }
}

/// The initial values of an event of the `ExtendableMessageEvent` interface.
#[derive(Debug, Clone)]
pub struct ExtendableMessageEventInit {
    pub extendable: ExtendableEventInit,
    pub message: MessageEventInit,
}

impl ExtendableMessageEventInit {
    /// Every field holds its default: empty text and lists, no value, `false`, zero.
    pub open spec fn is_default(&self) -> bool {
        &&& self.extendable.is_default()
        &&& self.message.is_default()
    }
}

impl Default for ExtendableMessageEventInit {
    fn default() -> (r: Self)
        ensures
            r.is_default(),
    {
        ExtendableMessageEventInit {
            extendable: ExtendableEventInit::default(),
            message: MessageEventInit::default(),
        }
    }
}

/// The initial values of an event of the `ExtendableCookieChangeEvent` interface.
#[derive(Debug, Clone)]
pub struct ExtendableCookieChangeEventInit {
    pub base: ExtendableEventInit,
    pub changed: Vec<String>,
    pub deleted: Vec<String>,
}

impl ExtendableCookieChangeEventInit {
    /// Every field holds its default: empty text and lists, no value, `false`, zero.
    pub open spec fn is_default(&self) -> bool {
        &&& self.base.is_default()
        &&& self.changed@.len() == 0
        &&& self.deleted@.len() == 0
    }
}

impl Default for ExtendableCookieChangeEventInit {
    fn default() -> (r: Self)
        ensures
            r.is_default(),
    {
        ExtendableCookieChangeEventInit {
            base: ExtendableEventInit::default(),
            changed: Vec::new(),
            deleted: Vec::new(),
        }
    }
}

/// The initial values of an event of the `InstallEvent` interface.
#[derive(Debug, Clone)]
pub struct InstallEventInit {
    pub base: ExtendableEventInit,
}

impl InstallEventInit {
    /// Every field holds its default: empty text and lists, no value, `false`, zero.
    pub open spec fn is_default(&self) -> bool {
        &&& self.base.is_default()
    }
}

impl Default for InstallEventInit {
    fn default() -> (r: Self)
        ensures
            r.is_default(),
    {
        InstallEventInit {
            base: ExtendableEventInit::default(),
        }
    }
}

/// The initial values of an event of the `SyncEvent` interface.
#[derive(Debug, Clone)]
pub struct SyncEventInit {
    pub base: ExtendableEventInit,
    pub tag: String,
    pub last_chance: bool,
}

impl SyncEventInit {
    /// Every field holds its default: empty text and lists, no value, `false`, zero.
    pub open spec fn is_default(&self) -> bool {
        &&& self.base.is_default()
        &&& self.tag@ == Seq::<char>::empty()
        &&& !self.last_chance
    }
}

impl Default for SyncEventInit {
    fn default() -> (r: Self)
        ensures
            r.is_default(),
    {
        SyncEventInit {
            base: ExtendableEventInit::default(),
            tag: String::new(),
            last_chance: false,
        }
    }
}

/// The initial values of an event of the `PeriodicSyncEvent` interface.
#[derive(Debug, Clone)]
pub struct PeriodicSyncEventInit {
    pub base: ExtendableEventInit,
    pub tag: String,
}

impl PeriodicSyncEventInit {
    /// Every field holds its default: empty text and lists, no value, `false`, zero.
    pub open spec fn is_default(&self) -> bool {
        &&& self.base.is_default()
        &&& self.tag@ == Seq::<char>::empty()
    }
}

impl Default for PeriodicSyncEventInit {
    fn default() -> (r: Self)
        ensures
            r.is_default(),
    {
        PeriodicSyncEventInit {
            base: ExtendableEventInit::default(),
            tag: String::new(),
        }
    }
}

/// The initial values of an event of the `PushEvent` interface.
#[derive(Debug, Clone)]
pub struct PushEventInit {
    pub base: ExtendableEventInit,
    pub data: Option<String>,
}

impl PushEventInit {
    /// Every field holds its default: empty text and lists, no value, `false`, zero.
    pub open spec fn is_default(&self) -> bool {
        &&& self.base.is_default()
        &&& self.data is None
    }
}

impl Default for PushEventInit {
    fn default() -> (r: Self)
        ensures
            r.is_default(),
    {
        PushEventInit {
            base: ExtendableEventInit::default(),
            data: None,
        }
    }
}

/// The initial values of an event of the `PushSubscriptionChangeEvent` interface.
#[derive(Debug, Clone)]
pub struct PushSubscriptionChangeEventInit {
    pub base: ExtendableEventInit,
    pub new_subscription: Option<String>,
    pub old_subscription: Option<String>,
}

impl PushSubscriptionChangeEventInit {
    /// Every field holds its default: empty text and lists, no value, `false`, zero.
    pub open spec fn is_default(&self) -> bool {
        &&& self.base.is_default()
        &&& self.new_subscription is None
        &&& self.old_subscription is None
    }
}

impl Default for PushSubscriptionChangeEventInit {
    fn default() -> (r: Self)
        ensures
            r.is_default(),
    {
        PushSubscriptionChangeEventInit {
            base: ExtendableEventInit::default(),
            new_subscription: None,
            old_subscription: None,
        }
    }
}

/// The initial values of an event of the `NotificationEvent` interface.
#[derive(Debug, Clone)]
pub struct NotificationEventInit {
    pub base: ExtendableEventInit,
    pub notification: Option<String>,
    pub action: String,
}

impl NotificationEventInit {
    /// Every field holds its default: empty text and lists, no value, `false`, zero.
    pub open spec fn is_default(&self) -> bool {
        &&& self.base.is_default()
        &&& self.notification is None
        &&& self.action@ == Seq::<char>::empty()
    }
}

impl Default for NotificationEventInit {
    fn default() -> (r: Self)
        ensures
            r.is_default(),
    {
        NotificationEventInit {
            base: ExtendableEventInit::default(),
            notification: None,
            action: String::new(),
        }
    }
}

/// The initial values of an event of the `BackgroundFetchEvent` interface.
#[derive(Debug, Clone)]
pub struct BackgroundFetchEventInit {
    pub base: ExtendableEventInit,
    pub registration: Option<String>,
}

impl BackgroundFetchEventInit {
    /// Every field holds its default: empty text and lists, no value, `false`, zero.
    pub open spec fn is_default(&self) -> bool {
        &&& self.base.is_default()
        &&& self.registration is None
    }
}

impl Default for BackgroundFetchEventInit {
    fn default() -> (r: Self)
        ensures
            r.is_default(),
    {
        BackgroundFetchEventInit {
            base: ExtendableEventInit::default(),
            registration: None,
        }
    }
}

/// The initial values of an event of the `BackgroundFetchUpdateUIEvent` interface.
#[derive(Debug, Clone)]
pub struct BackgroundFetchUpdateUIEventInit {
    pub base: BackgroundFetchEventInit,
}

impl BackgroundFetchUpdateUIEventInit {
    /// Every field holds its default: empty text and lists, no value, `false`, zero.
    pub open spec fn is_default(&self) -> bool {
        &&& self.base.is_default()
    }
}

impl Default for BackgroundFetchUpdateUIEventInit {
    fn default() -> (r: Self)
        ensures
            r.is_default(),
    {
        BackgroundFetchUpdateUIEventInit {
            base: BackgroundFetchEventInit::default(),
        }
    }
}

/// The initial values of an event of the `ContentIndexEvent` interface.
#[derive(Debug, Clone)]
pub struct ContentIndexEventInit {
    pub base: ExtendableEventInit,
    pub id: String,
}

impl ContentIndexEventInit {
    /// Every field holds its default: empty text and lists, no value, `false`, zero.
    pub open spec fn is_default(&self) -> bool {
        &&& self.base.is_default()
        &&& self.id@ == Seq::<char>::empty()
    }
}

impl Default for ContentIndexEventInit {
    fn default() -> (r: Self)
        ensures
            r.is_default(),
    {
        ContentIndexEventInit {
            base: ExtendableEventInit::default(),
            id: String::new(),
        }
    }
}

} // verus!
