use vstd::prelude::*;
use super::base::EventInit;

verus! {

/// The initial values of an event of the `SpeechRecognitionEvent` interface.
#[derive(Debug, Clone)]
pub struct SpeechRecognitionEventInit {
    pub base: EventInit,
    pub result_index: u32,
    pub results: Option<String>,
}

impl SpeechRecognitionEventInit {
    /// Every field holds its default: empty text and lists, no value, `false`, zero.
    pub open spec fn is_default(&self) -> bool {
        &&& self.base.is_default()
        &&& self.result_index == 0
        &&& self.results is None
    }
}

impl Default for SpeechRecognitionEventInit {
    fn default() -> (r: Self)
        ensures
            r.is_default(),
    {
        SpeechRecognitionEventInit {
            base: EventInit::default(),
            result_index: 0,
            results: None,
        }
    }
}

/// The initial values of an event of the `SpeechRecognitionErrorEvent` interface.
#[derive(Debug, Clone)]
pub struct SpeechRecognitionErrorEventInit {
    pub base: EventInit,
    pub error: String,
    pub message: String,
}

impl SpeechRecognitionErrorEventInit {
    /// Every field holds its default: empty text and lists, no value, `false`, zero.
    pub open spec fn is_default(&self) -> bool {
        &&& self.base.is_default()
        &&& self.error@ == Seq::<char>::empty()
        &&& self.message@ == Seq::<char>::empty()
    }
}

impl Default for SpeechRecognitionErrorEventInit {
    fn default() -> (r: Self)
        ensures
            r.is_default(),
    {
        SpeechRecognitionErrorEventInit {
            base: EventInit::default(),
            error: String::new(),
            message: String::new(),
        }
    }
}

/// The initial values of an event of the `OfflineAudioCompletionEvent` interface.
#[derive(Debug, Clone)]
pub struct OfflineAudioCompletionEventInit {
    pub base: EventInit,
    pub rendered_buffer: Option<String>,
}

impl OfflineAudioCompletionEventInit {
    /// Every field holds its default: empty text and lists, no value, `false`, zero.
    pub open spec fn is_default(&self) -> bool {
        &&& self.base.is_default()
        &&& self.rendered_buffer is None
    }
}

impl Default for OfflineAudioCompletionEventInit {
    fn default() -> (r: Self)
        ensures
            r.is_default(),
    {
        OfflineAudioCompletionEventInit {
            base: EventInit::default(),
            rendered_buffer: None,
        }
    }
}

/// The initial values of an event of the `MIDIConnectionEvent` interface.
#[derive(Debug, Clone)]
pub struct MIDIConnectionEventInit {
    pub base: EventInit,
    pub port: Option<String>,
}

impl MIDIConnectionEventInit {
    /// Every field holds its default: empty text and lists, no value, `false`, zero.
    pub open spec fn is_default(&self) -> bool {
        &&& self.base.is_default()
        &&& self.port is None
    }
}

impl Default for MIDIConnectionEventInit {
    fn default() -> (r: Self)
        ensures
            r.is_default(),
    {
        MIDIConnectionEventInit {
            base: EventInit::default(),
            port: None,
        }
    }
}

/// The initial values of an event of the `MIDIMessageEvent` interface.
#[derive(Debug, Clone)]
pub struct MIDIMessageEventInit {
    pub base: EventInit,
    pub data: Option<String>,
}

impl MIDIMessageEventInit {
    /// Every field holds its default: empty text and lists, no value, `false`, zero.
    pub open spec fn is_default(&self) -> bool {
        &&& self.base.is_default()
        &&& self.data is None
    }
}

impl Default for MIDIMessageEventInit {
    fn default() -> (r: Self)
        ensures
            r.is_default(),
    {
        MIDIMessageEventInit {
            base: EventInit::default(),
            data: None,
        }
    }
}

} // verus!
