use vstd::prelude::*;
use super::base::EventInit;

verus! {

/// The initial values of an event of the `RTCDataChannelEvent` interface.
#[derive(Debug, Clone)]
pub struct RTCDataChannelEventInit {
    pub base: EventInit,
    pub channel: Option<String>,
}

impl RTCDataChannelEventInit {
    /// Every field holds its default: empty text and lists, no value, `false`, zero.
    pub open spec fn is_default(&self) -> bool {
        &&& self.base.is_default()
        &&& self.channel is None
    }
}

impl Default for RTCDataChannelEventInit {
    fn default() -> (r: Self)
        ensures
            r.is_default(),
    {
        RTCDataChannelEventInit {
            base: EventInit::default(),
            channel: None,
        }
    }
}

/// The initial values of an event of the `RTCDTMFToneChangeEvent` interface.
#[derive(Debug, Clone)]
pub struct RTCDTMFToneChangeEventInit {
    pub base: EventInit,
    pub tone: String,
}

impl RTCDTMFToneChangeEventInit {
    /// Every field holds its default: empty text and lists, no value, `false`, zero.
    pub open spec fn is_default(&self) -> bool {
        &&& self.base.is_default()
        &&& self.tone@ == Seq::<char>::empty()
    }
}

impl Default for RTCDTMFToneChangeEventInit {
    fn default() -> (r: Self)
        ensures
            r.is_default(),
    {
        RTCDTMFToneChangeEventInit {
            base: EventInit::default(),
            tone: String::new(),
        }
    }
}

/// The initial values of an event of the `RTCErrorEvent` interface.
#[derive(Debug, Clone)]
pub struct RTCErrorEventInit {
    pub base: EventInit,
    pub error: Option<String>,
}

impl RTCErrorEventInit {
    /// Every field holds its default: empty text and lists, no value, `false`, zero.
    pub open spec fn is_default(&self) -> bool {
        &&& self.base.is_default()
        &&& self.error is None
    }
}

impl Default for RTCErrorEventInit {
    fn default() -> (r: Self)
        ensures
            r.is_default(),
    {
        RTCErrorEventInit {
            base: EventInit::default(),
            error: None,
        }
    }
}

/// The initial values of an event of the `RTCPeerConnectionIceEvent` interface.
#[derive(Debug, Clone)]
pub struct RTCPeerConnectionIceEventInit {
    pub base: EventInit,
    pub candidate: Option<String>,
    pub url: String,
}

impl RTCPeerConnectionIceEventInit {
    /// Every field holds its default: empty text and lists, no value, `false`, zero.
    pub open spec fn is_default(&self) -> bool {
        &&& self.base.is_default()
        &&& self.candidate is None
        &&& self.url@ == Seq::<char>::empty()
    }
}

impl Default for RTCPeerConnectionIceEventInit {
    fn default() -> (r: Self)
        ensures
            r.is_default(),
    {
        RTCPeerConnectionIceEventInit {
            base: EventInit::default(),
            candidate: None,
            url: String::new(),
        }
    }
}

/// The initial values of an event of the `RTCPeerConnectionIceErrorEvent` interface.
#[derive(Debug, Clone)]
pub struct RTCPeerConnectionIceErrorEventInit {
    pub base: EventInit,
    pub address: String,
    pub port: Option<u16>,
    pub url: String,
    pub error_code: u16,
    pub error_text: String,
}

impl RTCPeerConnectionIceErrorEventInit {
    /// Every field holds its default: empty text and lists, no value, `false`, zero.
    pub open spec fn is_default(&self) -> bool {
        &&& self.base.is_default()
        &&& self.address@ == Seq::<char>::empty()
        &&& self.port is None
        &&& self.url@ == Seq::<char>::empty()
        &&& self.error_code == 0
        &&& self.error_text@ == Seq::<char>::empty()
    }
}

impl Default for RTCPeerConnectionIceErrorEventInit {
    fn default() -> (r: Self)
        ensures
            r.is_default(),
    {
        RTCPeerConnectionIceErrorEventInit {
            base: EventInit::default(),
            address: String::new(),
            port: None,
            url: String::new(),
            error_code: 0,
            error_text: String::new(),
        }
    }
}

/// The initial values of an event of the `RTCTrackEvent` interface.
#[derive(Debug, Clone)]
pub struct RTCTrackEventInit {
    pub base: EventInit,
    pub receiver: Option<String>,
    pub track: Option<String>,
    pub streams: Vec<String>,
    pub transceiver: Option<String>,
}

impl RTCTrackEventInit {
    /// Every field holds its default: empty text and lists, no value, `false`, zero.
    pub open spec fn is_default(&self) -> bool {
        &&& self.base.is_default()
        &&& self.receiver is None
        &&& self.track is None
        &&& self.streams@.len() == 0
        &&& self.transceiver is None
    }
}

impl Default for RTCTrackEventInit {
    fn default() -> (r: Self)
        ensures
            r.is_default(),
    {
        RTCTrackEventInit {
            base: EventInit::default(),
            receiver: None,
            track: None,
            streams: Vec::new(),
            transceiver: None,
        }
    }
}

/// The initial values of an event of the `RTCTransformEvent` interface.
#[derive(Debug, Clone)]
pub struct RTCTransformEventInit {
    pub base: EventInit,
    pub readable: Option<String>,
    pub writable: Option<String>,
}

impl RTCTransformEventInit {
    /// Every field holds its default: empty text and lists, no value, `false`, zero.
    pub open spec fn is_default(&self) -> bool {
        &&& self.base.is_default()
        &&& self.readable is None
        &&& self.writable is None
    }
}

impl Default for RTCTransformEventInit {
    fn default() -> (r: Self)
        ensures
            r.is_default(),
    {
        RTCTransformEventInit {
            base: EventInit::default(),
            readable: None,
            writable: None,
        }
    }
}

} // verus!
