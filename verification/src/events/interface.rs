//! The DOM event interfaces, and which one an interface name selects.
use vstd::prelude::*;

use crate::text::{chars_of, compare_char_seqs, NameOrder};

verus! {

/// The DOM event interfaces that an event can be created as.
#[derive(Debug, Clone, Copy, PartialEq, Eq, Structural)]
pub enum EventInterface {
    /// The plain `Event` interface.
    Event,
    /// `MouseEvent`
    MouseEvent,
    /// `WheelEvent`
    WheelEvent,
    /// `KeyboardEvent`
    KeyboardEvent,
    /// `FocusEvent`
    FocusEvent,
    /// `InputEvent`
    InputEvent,
    /// `CompositionEvent`
    CompositionEvent,
    /// `PointerEvent`
    PointerEvent,
    /// `TouchEvent`
    TouchEvent,
    /// `DragEvent`
    DragEvent,
    /// `ClipboardEvent`
    ClipboardEvent,
    /// `ProgressEvent`
    ProgressEvent,
    /// `MessageEvent`
    MessageEvent,
    /// `HashChangeEvent`
    HashChangeEvent,
    /// `PopStateEvent`
    PopStateEvent,
    /// `AnimationEvent`
    AnimationEvent,
    /// `TransitionEvent`
    TransitionEvent,
    /// `ErrorEvent`
    ErrorEvent,
    /// `UIEvent`
    UiEvent,
    /// `DeviceMotionEvent`
    DeviceMotion,
    /// `DeviceOrientationEvent`
    DeviceOrientation,
    /// `StorageEvent`
    Storage,
    /// `SubmitEvent`
    Submit,
    /// `FormDataEvent`
    FormData,
    /// `ToggleEvent`
    Toggle,
    /// `CommandEvent`
    Command,
    /// `CloseEvent`
    Close,
    /// `FetchEvent`
    Fetch,
    /// `ExtendableEvent`
    Extendable,
    /// `ExtendableMessageEvent`
    ExtendableMessage,
    /// `ExtendableCookieChangeEvent`
    ExtendableCookieChange,
    /// `InstallEvent`
    Install,
    /// `SyncEvent`
    Sync,
    /// `PeriodicSyncEvent`
    PeriodicSync,
    /// `PushEvent`
    Push,
    /// `PushSubscriptionChangeEvent`
    PushSubscriptionChange,
    /// `NotificationEvent`
    Notification,
    /// `BackgroundFetchEvent`
    BackgroundFetch,
    /// `BackgroundFetchUpdateUIEvent`
    BackgroundFetchUpdateUI,
    /// `ContentIndexEvent`
    ContentIndex,
    /// `GamepadEvent`
    Gamepad,
    /// `MediaStreamTrackEvent`
    MediaStreamTrack,
    /// `MediaEncryptedEvent`
    MediaEncrypted,
    /// `MediaKeyMessageEvent`
    MediaKeyMessage,
    /// `MediaQueryListEvent`
    MediaQueryList,
    /// `PictureInPictureEvent`
    PictureInPicture,
    /// `DocumentPictureInPictureEvent`
    DocumentPictureInPicture,
    /// `PortalActivateEvent`
    PortalActivate,
    /// `PageTransitionEvent`
    PageTransition,
    /// `PageRevealEvent`
    PageReveal,
    /// `PageSwapEvent`
    PageSwap,
    /// `NavigateEvent`
    Navigate,
    /// `NavigationCurrentEntryChangeEvent`
    NavigationCurrentEntryChange,
    /// `BeforeUnloadEvent`
    BeforeUnload,
    /// `BeforeInstallPromptEvent`
    BeforeInstallPrompt,
    /// `SecurityPolicyViolationEvent`
    SecurityPolicyViolation,
    /// `PromiseRejectionEvent`
    PromiseRejection,
    /// `TaskPriorityChangeEvent`
    TaskPriorityChange,
    /// `RTCDataChannelEvent`
    RTCDataChannel,
    /// `RTCDTMFToneChangeEvent`
    RTCDTMFToneChange,
    /// `RTCErrorEvent`
    RTCError,
    /// `RTCPeerConnectionIceEvent`
    RTCPeerConnectionIce,
    /// `RTCPeerConnectionIceErrorEvent`
    RTCPeerConnectionIceError,
    /// `RTCTrackEvent`
    RTCTrack,
    /// `RTCTransformEvent`
    RTCTransform,
    /// `XRInputSourceEvent`
    XRInputSource,
    /// `XRInputSourcesChangeEvent`
    XRInputSourcesChange,
    /// `XRLayerEvent`
    XRLayer,
    /// `XRReferenceSpaceEvent`
    XRReferenceSpace,
    /// `XRSessionEvent`
    XRSession,
    /// `XRVisibilityMaskChangeEvent`
    XRVisibilityMaskChange,
    /// `SpeechRecognitionEvent`
    SpeechRecognition,
    /// `SpeechRecognitionErrorEvent`
    SpeechRecognitionError,
    /// `SpeechSynthesisEvent`
    SpeechSynthesis,
    /// `SpeechSynthesisErrorEvent`
    SpeechSynthesisError,
    /// `AudioProcessingEvent`
    AudioProcessing,
    /// `OfflineAudioCompletionEvent`
    OfflineAudioCompletion,
    /// `MIDIConnectionEvent`
    MIDIConnection,
    /// `MIDIMessageEvent`
    MIDIMessage,
    /// `PaymentRequestEvent`
    PaymentRequest,
    /// `PaymentRequestUpdateEvent`
    PaymentRequestUpdate,
    /// `PaymentMethodChangeEvent`
    PaymentMethodChange,
    /// `CanMakePaymentEvent`
    CanMakePayment,
    /// `PresentationConnectionAvailableEvent`
    PresentationConnectionAvailable,
    /// `PresentationConnectionCloseEvent`
    PresentationConnectionClose,
    /// `BluetoothAdvertisingEvent`
    BluetoothAdvertising,
    /// `HIDConnectionEvent`
    HIDConnection,
    /// `HIDInputReportEvent`
    HIDInputReport,
    /// `USBConnectionEvent`
    USBConnection,
    /// `NDEFReadingEvent`
    NDEFReading,
    /// `WebGLContextEvent`
    WebGLContext,
    /// `GPUUncapturedErrorEvent`
    GPUUncapturedError,
    /// `FontFaceSetLoadEvent`
    FontFaceSetLoad,
    /// `TextEvent`
    TextEvent,
    /// `TextFormatUpdateEvent`
    TextFormatUpdate,
    /// `TextUpdateEvent`
    TextUpdate,
    /// `SFrameTransformErrorEvent`
    SFrameTransformError,
    /// `CharacterBoundsUpdateEvent`
    CharacterBoundsUpdate,
    /// `KeyFrameRequestEvent`
    KeyFrameRequest,
    /// `WindowControlsOverlayGeometryChangeEvent`
    WindowControlsOverlayGeometryChange,
    /// `AutofillEvent`
    Autofill,
    /// `BlobEvent`
    Blob,
    /// `BufferedChangeEvent`
    BufferedChange,
    /// `CaptureActionEvent`
    CaptureAction,
    /// `CapturedMouseEvent`
    CapturedMouse,
    /// `ClipboardChangeEvent`
    ClipboardChange,
    /// `ContentVisibilityAutoStateChangeEvent`
    ContentVisibilityAutoStateChange,
    /// `CookieChangeEvent`
    CookieChange,
    /// `SensorErrorEvent`
    SensorError,
    /// `ValueEvent`
    Value,
}

impl EventInterface {
    /// The interface an interface name selects; a name of no interface
    /// selects the plain `Event`.
    pub open spec fn spec_from_name(name: Seq<char>) -> EventInterface {
        if name == "MouseEvent"@ {
            EventInterface::MouseEvent
        } else if name == "WheelEvent"@ {
            EventInterface::WheelEvent
        } else if name == "KeyboardEvent"@ {
            EventInterface::KeyboardEvent
        } else if name == "FocusEvent"@ {
            EventInterface::FocusEvent
        } else if name == "InputEvent"@ {
            EventInterface::InputEvent
        } else if name == "CompositionEvent"@ {
            EventInterface::CompositionEvent
        } else if name == "PointerEvent"@ {
            EventInterface::PointerEvent
        } else if name == "TouchEvent"@ {
            EventInterface::TouchEvent
        } else if name == "DragEvent"@ {
            EventInterface::DragEvent
        } else if name == "ClipboardEvent"@ {
            EventInterface::ClipboardEvent
        } else if name == "ProgressEvent"@ {
            EventInterface::ProgressEvent
        } else if name == "MessageEvent"@ {
            EventInterface::MessageEvent
        } else if name == "HashChangeEvent"@ {
            EventInterface::HashChangeEvent
        } else if name == "PopStateEvent"@ {
            EventInterface::PopStateEvent
        } else if name == "AnimationEvent"@ {
            EventInterface::AnimationEvent
        } else if name == "TransitionEvent"@ {
            EventInterface::TransitionEvent
        } else if name == "ErrorEvent"@ {
            EventInterface::ErrorEvent
        } else if name == "UIEvent"@ {
            EventInterface::UiEvent
        } else if name == "DeviceMotionEvent"@ {
            EventInterface::DeviceMotion
        } else if name == "DeviceOrientationEvent"@ {
            EventInterface::DeviceOrientation
        } else if name == "StorageEvent"@ {
            EventInterface::Storage
        } else if name == "SubmitEvent"@ {
            EventInterface::Submit
        } else if name == "FormDataEvent"@ {
            EventInterface::FormData
        } else if name == "ToggleEvent"@ {
            EventInterface::Toggle
        } else if name == "CommandEvent"@ {
            EventInterface::Command
        } else if name == "CloseEvent"@ {
            EventInterface::Close
        } else if name == "FetchEvent"@ {
            EventInterface::Fetch
        } else if name == "ExtendableEvent"@ {
            EventInterface::Extendable
        } else if name == "ExtendableMessageEvent"@ {
            EventInterface::ExtendableMessage
        } else if name == "ExtendableCookieChangeEvent"@ {
            EventInterface::ExtendableCookieChange
        } else if name == "InstallEvent"@ {
            EventInterface::Install
        } else if name == "SyncEvent"@ {
            EventInterface::Sync
        } else if name == "PeriodicSyncEvent"@ {
            EventInterface::PeriodicSync
        } else if name == "PushEvent"@ {
            EventInterface::Push
        } else if name == "PushSubscriptionChangeEvent"@ {
            EventInterface::PushSubscriptionChange
        } else if name == "NotificationEvent"@ {
            EventInterface::Notification
        } else if name == "BackgroundFetchEvent"@ {
            EventInterface::BackgroundFetch
        } else if name == "BackgroundFetchUpdateUIEvent"@ {
            EventInterface::BackgroundFetchUpdateUI
        } else if name == "ContentIndexEvent"@ {
            EventInterface::ContentIndex
        } else if name == "GamepadEvent"@ {
            EventInterface::Gamepad
        } else if name == "MediaStreamTrackEvent"@ {
            EventInterface::MediaStreamTrack
        } else if name == "MediaEncryptedEvent"@ {
            EventInterface::MediaEncrypted
        } else if name == "MediaKeyMessageEvent"@ {
            EventInterface::MediaKeyMessage
        } else if name == "MediaQueryListEvent"@ {
            EventInterface::MediaQueryList
        } else if name == "PictureInPictureEvent"@ {
            EventInterface::PictureInPicture
        } else if name == "DocumentPictureInPictureEvent"@ {
            EventInterface::DocumentPictureInPicture
        } else if name == "PortalActivateEvent"@ {
            EventInterface::PortalActivate
        } else if name == "PageTransitionEvent"@ {
            EventInterface::PageTransition
        } else if name == "PageRevealEvent"@ {
            EventInterface::PageReveal
        } else if name == "PageSwapEvent"@ {
            EventInterface::PageSwap
        } else if name == "NavigateEvent"@ {
            EventInterface::Navigate
        } else if name == "NavigationCurrentEntryChangeEvent"@ {
            EventInterface::NavigationCurrentEntryChange
        } else if name == "BeforeUnloadEvent"@ {
            EventInterface::BeforeUnload
        } else if name == "BeforeInstallPromptEvent"@ {
            EventInterface::BeforeInstallPrompt
        } else if name == "SecurityPolicyViolationEvent"@ {
            EventInterface::SecurityPolicyViolation
        } else if name == "PromiseRejectionEvent"@ {
            EventInterface::PromiseRejection
        } else if name == "TaskPriorityChangeEvent"@ {
            EventInterface::TaskPriorityChange
        } else if name == "RTCDataChannelEvent"@ {
            EventInterface::RTCDataChannel
        } else if name == "RTCDTMFToneChangeEvent"@ {
            EventInterface::RTCDTMFToneChange
        } else if name == "RTCErrorEvent"@ {
            EventInterface::RTCError
        } else if name == "RTCPeerConnectionIceEvent"@ {
            EventInterface::RTCPeerConnectionIce
        } else if name == "RTCPeerConnectionIceErrorEvent"@ {
            EventInterface::RTCPeerConnectionIceError
        } else if name == "RTCTrackEvent"@ {
            EventInterface::RTCTrack
        } else if name == "RTCTransformEvent"@ {
            EventInterface::RTCTransform
        } else if name == "XRInputSourceEvent"@ {
            EventInterface::XRInputSource
        } else if name == "XRInputSourcesChangeEvent"@ {
            EventInterface::XRInputSourcesChange
        } else if name == "XRLayerEvent"@ {
            EventInterface::XRLayer
        } else if name == "XRReferenceSpaceEvent"@ {
            EventInterface::XRReferenceSpace
        } else if name == "XRSessionEvent"@ {
            EventInterface::XRSession
        } else if name == "XRVisibilityMaskChangeEvent"@ {
            EventInterface::XRVisibilityMaskChange
        } else if name == "SpeechRecognitionEvent"@ {
            EventInterface::SpeechRecognition
        } else if name == "SpeechRecognitionErrorEvent"@ {
            EventInterface::SpeechRecognitionError
        } else if name == "SpeechSynthesisEvent"@ {
            EventInterface::SpeechSynthesis
        } else if name == "SpeechSynthesisErrorEvent"@ {
            EventInterface::SpeechSynthesisError
        } else if name == "AudioProcessingEvent"@ {
            EventInterface::AudioProcessing
        } else if name == "OfflineAudioCompletionEvent"@ {
            EventInterface::OfflineAudioCompletion
        } else if name == "MIDIConnectionEvent"@ {
            EventInterface::MIDIConnection
        } else if name == "MIDIMessageEvent"@ {
            EventInterface::MIDIMessage
        } else if name == "PaymentRequestEvent"@ {
            EventInterface::PaymentRequest
        } else if name == "PaymentRequestUpdateEvent"@ {
            EventInterface::PaymentRequestUpdate
        } else if name == "PaymentMethodChangeEvent"@ {
            EventInterface::PaymentMethodChange
        } else if name == "CanMakePaymentEvent"@ {
            EventInterface::CanMakePayment
        } else if name == "PresentationConnectionAvailableEvent"@ {
            EventInterface::PresentationConnectionAvailable
        } else if name == "PresentationConnectionCloseEvent"@ {
            EventInterface::PresentationConnectionClose
        } else if name == "BluetoothAdvertisingEvent"@ {
            EventInterface::BluetoothAdvertising
        } else if name == "HIDConnectionEvent"@ {
            EventInterface::HIDConnection
        } else if name == "HIDInputReportEvent"@ {
            EventInterface::HIDInputReport
        } else if name == "USBConnectionEvent"@ {
            EventInterface::USBConnection
        } else if name == "NDEFReadingEvent"@ {
            EventInterface::NDEFReading
        } else if name == "WebGLContextEvent"@ {
            EventInterface::WebGLContext
        } else if name == "GPUUncapturedErrorEvent"@ {
            EventInterface::GPUUncapturedError
        } else if name == "FontFaceSetLoadEvent"@ {
            EventInterface::FontFaceSetLoad
        } else if name == "TextEvent"@ {
            EventInterface::TextEvent
        } else if name == "TextFormatUpdateEvent"@ {
            EventInterface::TextFormatUpdate
        } else if name == "TextUpdateEvent"@ {
            EventInterface::TextUpdate
        } else if name == "SFrameTransformErrorEvent"@ {
            EventInterface::SFrameTransformError
        } else if name == "CharacterBoundsUpdateEvent"@ {
            EventInterface::CharacterBoundsUpdate
        } else if name == "KeyFrameRequestEvent"@ {
            EventInterface::KeyFrameRequest
        } else if name == "WindowControlsOverlayGeometryChangeEvent"@ {
            EventInterface::WindowControlsOverlayGeometryChange
        } else if name == "AutofillEvent"@ {
            EventInterface::Autofill
        } else if name == "BlobEvent"@ {
            EventInterface::Blob
        } else if name == "BufferedChangeEvent"@ {
            EventInterface::BufferedChange
        } else if name == "CaptureActionEvent"@ {
            EventInterface::CaptureAction
        } else if name == "CapturedMouseEvent"@ {
            EventInterface::CapturedMouse
        } else if name == "ClipboardChangeEvent"@ {
            EventInterface::ClipboardChange
        } else if name == "ContentVisibilityAutoStateChangeEvent"@ {
            EventInterface::ContentVisibilityAutoStateChange
        } else if name == "CookieChangeEvent"@ {
            EventInterface::CookieChange
        } else if name == "SensorErrorEvent"@ {
            EventInterface::SensorError
        } else if name == "ValueEvent"@ {
            EventInterface::Value
        } else {
            EventInterface::Event
        }
    }

    /// The name of the interface.
    pub open spec fn spec_name(&self) -> Seq<char> {
        match self {
            EventInterface::Event => "Event"@,
            EventInterface::MouseEvent => "MouseEvent"@,
            EventInterface::WheelEvent => "WheelEvent"@,
            EventInterface::KeyboardEvent => "KeyboardEvent"@,
            EventInterface::FocusEvent => "FocusEvent"@,
            EventInterface::InputEvent => "InputEvent"@,
            EventInterface::CompositionEvent => "CompositionEvent"@,
            EventInterface::PointerEvent => "PointerEvent"@,
            EventInterface::TouchEvent => "TouchEvent"@,
            EventInterface::DragEvent => "DragEvent"@,
            EventInterface::ClipboardEvent => "ClipboardEvent"@,
            EventInterface::ProgressEvent => "ProgressEvent"@,
            EventInterface::MessageEvent => "MessageEvent"@,
            EventInterface::HashChangeEvent => "HashChangeEvent"@,
            EventInterface::PopStateEvent => "PopStateEvent"@,
            EventInterface::AnimationEvent => "AnimationEvent"@,
            EventInterface::TransitionEvent => "TransitionEvent"@,
            EventInterface::ErrorEvent => "ErrorEvent"@,
            EventInterface::UiEvent => "UIEvent"@,
            EventInterface::DeviceMotion => "DeviceMotionEvent"@,
            EventInterface::DeviceOrientation => "DeviceOrientationEvent"@,
            EventInterface::Storage => "StorageEvent"@,
            EventInterface::Submit => "SubmitEvent"@,
            EventInterface::FormData => "FormDataEvent"@,
            EventInterface::Toggle => "ToggleEvent"@,
            EventInterface::Command => "CommandEvent"@,
            EventInterface::Close => "CloseEvent"@,
            EventInterface::Fetch => "FetchEvent"@,
            EventInterface::Extendable => "ExtendableEvent"@,
            EventInterface::ExtendableMessage => "ExtendableMessageEvent"@,
            EventInterface::ExtendableCookieChange => "ExtendableCookieChangeEvent"@,
            EventInterface::Install => "InstallEvent"@,
            EventInterface::Sync => "SyncEvent"@,
            EventInterface::PeriodicSync => "PeriodicSyncEvent"@,
            EventInterface::Push => "PushEvent"@,
            EventInterface::PushSubscriptionChange => "PushSubscriptionChangeEvent"@,
            EventInterface::Notification => "NotificationEvent"@,
            EventInterface::BackgroundFetch => "BackgroundFetchEvent"@,
            EventInterface::BackgroundFetchUpdateUI => "BackgroundFetchUpdateUIEvent"@,
            EventInterface::ContentIndex => "ContentIndexEvent"@,
            EventInterface::Gamepad => "GamepadEvent"@,
            EventInterface::MediaStreamTrack => "MediaStreamTrackEvent"@,
            EventInterface::MediaEncrypted => "MediaEncryptedEvent"@,
            EventInterface::MediaKeyMessage => "MediaKeyMessageEvent"@,
            EventInterface::MediaQueryList => "MediaQueryListEvent"@,
            EventInterface::PictureInPicture => "PictureInPictureEvent"@,
            EventInterface::DocumentPictureInPicture => "DocumentPictureInPictureEvent"@,
            EventInterface::PortalActivate => "PortalActivateEvent"@,
            EventInterface::PageTransition => "PageTransitionEvent"@,
            EventInterface::PageReveal => "PageRevealEvent"@,
            EventInterface::PageSwap => "PageSwapEvent"@,
            EventInterface::Navigate => "NavigateEvent"@,
            EventInterface::NavigationCurrentEntryChange => "NavigationCurrentEntryChangeEvent"@,
            EventInterface::BeforeUnload => "BeforeUnloadEvent"@,
            EventInterface::BeforeInstallPrompt => "BeforeInstallPromptEvent"@,
            EventInterface::SecurityPolicyViolation => "SecurityPolicyViolationEvent"@,
            EventInterface::PromiseRejection => "PromiseRejectionEvent"@,
            EventInterface::TaskPriorityChange => "TaskPriorityChangeEvent"@,
            EventInterface::RTCDataChannel => "RTCDataChannelEvent"@,
            EventInterface::RTCDTMFToneChange => "RTCDTMFToneChangeEvent"@,
            EventInterface::RTCError => "RTCErrorEvent"@,
            EventInterface::RTCPeerConnectionIce => "RTCPeerConnectionIceEvent"@,
            EventInterface::RTCPeerConnectionIceError => "RTCPeerConnectionIceErrorEvent"@,
            EventInterface::RTCTrack => "RTCTrackEvent"@,
            EventInterface::RTCTransform => "RTCTransformEvent"@,
            EventInterface::XRInputSource => "XRInputSourceEvent"@,
            EventInterface::XRInputSourcesChange => "XRInputSourcesChangeEvent"@,
            EventInterface::XRLayer => "XRLayerEvent"@,
            EventInterface::XRReferenceSpace => "XRReferenceSpaceEvent"@,
            EventInterface::XRSession => "XRSessionEvent"@,
            EventInterface::XRVisibilityMaskChange => "XRVisibilityMaskChangeEvent"@,
            EventInterface::SpeechRecognition => "SpeechRecognitionEvent"@,
            EventInterface::SpeechRecognitionError => "SpeechRecognitionErrorEvent"@,
            EventInterface::SpeechSynthesis => "SpeechSynthesisEvent"@,
            EventInterface::SpeechSynthesisError => "SpeechSynthesisErrorEvent"@,
            EventInterface::AudioProcessing => "AudioProcessingEvent"@,
            EventInterface::OfflineAudioCompletion => "OfflineAudioCompletionEvent"@,
            EventInterface::MIDIConnection => "MIDIConnectionEvent"@,
            EventInterface::MIDIMessage => "MIDIMessageEvent"@,
            EventInterface::PaymentRequest => "PaymentRequestEvent"@,
            EventInterface::PaymentRequestUpdate => "PaymentRequestUpdateEvent"@,
            EventInterface::PaymentMethodChange => "PaymentMethodChangeEvent"@,
            EventInterface::CanMakePayment => "CanMakePaymentEvent"@,
            EventInterface::PresentationConnectionAvailable => "PresentationConnectionAvailableEvent"@,
            EventInterface::PresentationConnectionClose => "PresentationConnectionCloseEvent"@,
            EventInterface::BluetoothAdvertising => "BluetoothAdvertisingEvent"@,
            EventInterface::HIDConnection => "HIDConnectionEvent"@,
            EventInterface::HIDInputReport => "HIDInputReportEvent"@,
            EventInterface::USBConnection => "USBConnectionEvent"@,
            EventInterface::NDEFReading => "NDEFReadingEvent"@,
            EventInterface::WebGLContext => "WebGLContextEvent"@,
            EventInterface::GPUUncapturedError => "GPUUncapturedErrorEvent"@,
            EventInterface::FontFaceSetLoad => "FontFaceSetLoadEvent"@,
            EventInterface::TextEvent => "TextEvent"@,
            EventInterface::TextFormatUpdate => "TextFormatUpdateEvent"@,
            EventInterface::TextUpdate => "TextUpdateEvent"@,
            EventInterface::SFrameTransformError => "SFrameTransformErrorEvent"@,
            EventInterface::CharacterBoundsUpdate => "CharacterBoundsUpdateEvent"@,
            EventInterface::KeyFrameRequest => "KeyFrameRequestEvent"@,
            EventInterface::WindowControlsOverlayGeometryChange => "WindowControlsOverlayGeometryChangeEvent"@,
            EventInterface::Autofill => "AutofillEvent"@,
            EventInterface::Blob => "BlobEvent"@,
            EventInterface::BufferedChange => "BufferedChangeEvent"@,
            EventInterface::CaptureAction => "CaptureActionEvent"@,
            EventInterface::CapturedMouse => "CapturedMouseEvent"@,
            EventInterface::ClipboardChange => "ClipboardChangeEvent"@,
            EventInterface::ContentVisibilityAutoStateChange => "ContentVisibilityAutoStateChangeEvent"@,
            EventInterface::CookieChange => "CookieChangeEvent"@,
            EventInterface::SensorError => "SensorErrorEvent"@,
            EventInterface::Value => "ValueEvent"@,
        }
    }

    /// The interface an interface name selects; a name of no interface
    /// selects the plain `Event`.
    pub fn from_name(name: &str) -> (r: EventInterface)
        ensures
            r == Self::spec_from_name(name@),
    {
        let key = chars_of(name);
        let k = key.as_slice();
        if spelled(k, "MouseEvent") {
            return EventInterface::MouseEvent;
        }
        if spelled(k, "WheelEvent") {
            return EventInterface::WheelEvent;
        }
        if spelled(k, "KeyboardEvent") {
            return EventInterface::KeyboardEvent;
        }
        if spelled(k, "FocusEvent") {
            return EventInterface::FocusEvent;
        }
        if spelled(k, "InputEvent") {
            return EventInterface::InputEvent;
        }
        if spelled(k, "CompositionEvent") {
            return EventInterface::CompositionEvent;
        }
        if spelled(k, "PointerEvent") {
            return EventInterface::PointerEvent;
        }
        if spelled(k, "TouchEvent") {
            return EventInterface::TouchEvent;
        }
        if spelled(k, "DragEvent") {
            return EventInterface::DragEvent;
        }
        if spelled(k, "ClipboardEvent") {
            return EventInterface::ClipboardEvent;
        }
        if spelled(k, "ProgressEvent") {
            return EventInterface::ProgressEvent;
        }
        if spelled(k, "MessageEvent") {
            return EventInterface::MessageEvent;
        }
        if spelled(k, "HashChangeEvent") {
            return EventInterface::HashChangeEvent;
        }
        if spelled(k, "PopStateEvent") {
            return EventInterface::PopStateEvent;
        }
        if spelled(k, "AnimationEvent") {
            return EventInterface::AnimationEvent;
        }
        if spelled(k, "TransitionEvent") {
            return EventInterface::TransitionEvent;
        }
        if spelled(k, "ErrorEvent") {
            return EventInterface::ErrorEvent;
        }
        if spelled(k, "UIEvent") {
            return EventInterface::UiEvent;
        }
        if spelled(k, "DeviceMotionEvent") {
            return EventInterface::DeviceMotion;
        }
        if spelled(k, "DeviceOrientationEvent") {
            return EventInterface::DeviceOrientation;
        }
        if spelled(k, "StorageEvent") {
            return EventInterface::Storage;
        }
        if spelled(k, "SubmitEvent") {
            return EventInterface::Submit;
        }
        if spelled(k, "FormDataEvent") {
            return EventInterface::FormData;
        }
        if spelled(k, "ToggleEvent") {
            return EventInterface::Toggle;
        }
        if spelled(k, "CommandEvent") {
            return EventInterface::Command;
        }
        if spelled(k, "CloseEvent") {
            return EventInterface::Close;
        }
        if spelled(k, "FetchEvent") {
            return EventInterface::Fetch;
        }
        if spelled(k, "ExtendableEvent") {
            return EventInterface::Extendable;
        }
        if spelled(k, "ExtendableMessageEvent") {
            return EventInterface::ExtendableMessage;
        }
        if spelled(k, "ExtendableCookieChangeEvent") {
            return EventInterface::ExtendableCookieChange;
        }
        if spelled(k, "InstallEvent") {
            return EventInterface::Install;
        }
        if spelled(k, "SyncEvent") {
            return EventInterface::Sync;
        }
        if spelled(k, "PeriodicSyncEvent") {
            return EventInterface::PeriodicSync;
        }
        if spelled(k, "PushEvent") {
            return EventInterface::Push;
        }
        if spelled(k, "PushSubscriptionChangeEvent") {
            return EventInterface::PushSubscriptionChange;
        }
        if spelled(k, "NotificationEvent") {
            return EventInterface::Notification;
        }
        if spelled(k, "BackgroundFetchEvent") {
            return EventInterface::BackgroundFetch;
        }
        if spelled(k, "BackgroundFetchUpdateUIEvent") {
            return EventInterface::BackgroundFetchUpdateUI;
        }
        if spelled(k, "ContentIndexEvent") {
            return EventInterface::ContentIndex;
        }
        if spelled(k, "GamepadEvent") {
            return EventInterface::Gamepad;
        }
        if spelled(k, "MediaStreamTrackEvent") {
            return EventInterface::MediaStreamTrack;
        }
        if spelled(k, "MediaEncryptedEvent") {
            return EventInterface::MediaEncrypted;
        }
        if spelled(k, "MediaKeyMessageEvent") {
            return EventInterface::MediaKeyMessage;
        }
        if spelled(k, "MediaQueryListEvent") {
            return EventInterface::MediaQueryList;
        }
        if spelled(k, "PictureInPictureEvent") {
            return EventInterface::PictureInPicture;
        }
        if spelled(k, "DocumentPictureInPictureEvent") {
            return EventInterface::DocumentPictureInPicture;
        }
        if spelled(k, "PortalActivateEvent") {
            return EventInterface::PortalActivate;
        }
        if spelled(k, "PageTransitionEvent") {
            return EventInterface::PageTransition;
        }
        if spelled(k, "PageRevealEvent") {
            return EventInterface::PageReveal;
        }
        if spelled(k, "PageSwapEvent") {
            return EventInterface::PageSwap;
        }
        if spelled(k, "NavigateEvent") {
            return EventInterface::Navigate;
        }
        if spelled(k, "NavigationCurrentEntryChangeEvent") {
            return EventInterface::NavigationCurrentEntryChange;
        }
        if spelled(k, "BeforeUnloadEvent") {
            return EventInterface::BeforeUnload;
        }
        if spelled(k, "BeforeInstallPromptEvent") {
            return EventInterface::BeforeInstallPrompt;
        }
        if spelled(k, "SecurityPolicyViolationEvent") {
            return EventInterface::SecurityPolicyViolation;
        }
        if spelled(k, "PromiseRejectionEvent") {
            return EventInterface::PromiseRejection;
        }
        if spelled(k, "TaskPriorityChangeEvent") {
            return EventInterface::TaskPriorityChange;
        }
        if spelled(k, "RTCDataChannelEvent") {
            return EventInterface::RTCDataChannel;
        }
        if spelled(k, "RTCDTMFToneChangeEvent") {
            return EventInterface::RTCDTMFToneChange;
        }
        if spelled(k, "RTCErrorEvent") {
            return EventInterface::RTCError;
        }
        if spelled(k, "RTCPeerConnectionIceEvent") {
            return EventInterface::RTCPeerConnectionIce;
        }
        if spelled(k, "RTCPeerConnectionIceErrorEvent") {
            return EventInterface::RTCPeerConnectionIceError;
        }
        if spelled(k, "RTCTrackEvent") {
            return EventInterface::RTCTrack;
        }
        if spelled(k, "RTCTransformEvent") {
            return EventInterface::RTCTransform;
        }
        if spelled(k, "XRInputSourceEvent") {
            return EventInterface::XRInputSource;
        }
        if spelled(k, "XRInputSourcesChangeEvent") {
            return EventInterface::XRInputSourcesChange;
        }
        if spelled(k, "XRLayerEvent") {
            return EventInterface::XRLayer;
        }
        if spelled(k, "XRReferenceSpaceEvent") {
            return EventInterface::XRReferenceSpace;
        }
        if spelled(k, "XRSessionEvent") {
            return EventInterface::XRSession;
        }
        if spelled(k, "XRVisibilityMaskChangeEvent") {
            return EventInterface::XRVisibilityMaskChange;
        }
        if spelled(k, "SpeechRecognitionEvent") {
            return EventInterface::SpeechRecognition;
        }
        if spelled(k, "SpeechRecognitionErrorEvent") {
            return EventInterface::SpeechRecognitionError;
        }
        if spelled(k, "SpeechSynthesisEvent") {
            return EventInterface::SpeechSynthesis;
        }
        if spelled(k, "SpeechSynthesisErrorEvent") {
            return EventInterface::SpeechSynthesisError;
        }
        if spelled(k, "AudioProcessingEvent") {
            return EventInterface::AudioProcessing;
        }
        if spelled(k, "OfflineAudioCompletionEvent") {
            return EventInterface::OfflineAudioCompletion;
        }
        if spelled(k, "MIDIConnectionEvent") {
            return EventInterface::MIDIConnection;
        }
        if spelled(k, "MIDIMessageEvent") {
            return EventInterface::MIDIMessage;
        }
        if spelled(k, "PaymentRequestEvent") {
            return EventInterface::PaymentRequest;
        }
        if spelled(k, "PaymentRequestUpdateEvent") {
            return EventInterface::PaymentRequestUpdate;
        }
        if spelled(k, "PaymentMethodChangeEvent") {
            return EventInterface::PaymentMethodChange;
        }
        if spelled(k, "CanMakePaymentEvent") {
            return EventInterface::CanMakePayment;
        }
        if spelled(k, "PresentationConnectionAvailableEvent") {
            return EventInterface::PresentationConnectionAvailable;
        }
        if spelled(k, "PresentationConnectionCloseEvent") {
            return EventInterface::PresentationConnectionClose;
        }
        if spelled(k, "BluetoothAdvertisingEvent") {
            return EventInterface::BluetoothAdvertising;
        }
        if spelled(k, "HIDConnectionEvent") {
            return EventInterface::HIDConnection;
        }
        if spelled(k, "HIDInputReportEvent") {
            return EventInterface::HIDInputReport;
        }
        if spelled(k, "USBConnectionEvent") {
            return EventInterface::USBConnection;
        }
        if spelled(k, "NDEFReadingEvent") {
            return EventInterface::NDEFReading;
        }
        if spelled(k, "WebGLContextEvent") {
            return EventInterface::WebGLContext;
        }
        if spelled(k, "GPUUncapturedErrorEvent") {
            return EventInterface::GPUUncapturedError;
        }
        if spelled(k, "FontFaceSetLoadEvent") {
            return EventInterface::FontFaceSetLoad;
        }
        if spelled(k, "TextEvent") {
            return EventInterface::TextEvent;
        }
        if spelled(k, "TextFormatUpdateEvent") {
            return EventInterface::TextFormatUpdate;
        }
        if spelled(k, "TextUpdateEvent") {
            return EventInterface::TextUpdate;
        }
        if spelled(k, "SFrameTransformErrorEvent") {
            return EventInterface::SFrameTransformError;
        }
        if spelled(k, "CharacterBoundsUpdateEvent") {
            return EventInterface::CharacterBoundsUpdate;
        }
        if spelled(k, "KeyFrameRequestEvent") {
            return EventInterface::KeyFrameRequest;
        }
        if spelled(k, "WindowControlsOverlayGeometryChangeEvent") {
            return EventInterface::WindowControlsOverlayGeometryChange;
        }
        if spelled(k, "AutofillEvent") {
            return EventInterface::Autofill;
        }
        if spelled(k, "BlobEvent") {
            return EventInterface::Blob;
        }
        if spelled(k, "BufferedChangeEvent") {
            return EventInterface::BufferedChange;
        }
        if spelled(k, "CaptureActionEvent") {
            return EventInterface::CaptureAction;
        }
        if spelled(k, "CapturedMouseEvent") {
            return EventInterface::CapturedMouse;
        }
        if spelled(k, "ClipboardChangeEvent") {
            return EventInterface::ClipboardChange;
        }
        if spelled(k, "ContentVisibilityAutoStateChangeEvent") {
            return EventInterface::ContentVisibilityAutoStateChange;
        }
        if spelled(k, "CookieChangeEvent") {
            return EventInterface::CookieChange;
        }
        if spelled(k, "SensorErrorEvent") {
            return EventInterface::SensorError;
        }
        if spelled(k, "ValueEvent") {
            return EventInterface::Value;
        }
        EventInterface::Event
    }

    /// The name of the interface.
    pub fn name(&self) -> (r: &'static str)
        ensures
            r@ == self.spec_name(),
    {
        match self {
            EventInterface::Event => "Event",
            EventInterface::MouseEvent => "MouseEvent",
            EventInterface::WheelEvent => "WheelEvent",
            EventInterface::KeyboardEvent => "KeyboardEvent",
            EventInterface::FocusEvent => "FocusEvent",
            EventInterface::InputEvent => "InputEvent",
            EventInterface::CompositionEvent => "CompositionEvent",
            EventInterface::PointerEvent => "PointerEvent",
            EventInterface::TouchEvent => "TouchEvent",
            EventInterface::DragEvent => "DragEvent",
            EventInterface::ClipboardEvent => "ClipboardEvent",
            EventInterface::ProgressEvent => "ProgressEvent",
            EventInterface::MessageEvent => "MessageEvent",
            EventInterface::HashChangeEvent => "HashChangeEvent",
            EventInterface::PopStateEvent => "PopStateEvent",
            EventInterface::AnimationEvent => "AnimationEvent",
            EventInterface::TransitionEvent => "TransitionEvent",
            EventInterface::ErrorEvent => "ErrorEvent",
            EventInterface::UiEvent => "UIEvent",
            EventInterface::DeviceMotion => "DeviceMotionEvent",
            EventInterface::DeviceOrientation => "DeviceOrientationEvent",
            EventInterface::Storage => "StorageEvent",
            EventInterface::Submit => "SubmitEvent",
            EventInterface::FormData => "FormDataEvent",
            EventInterface::Toggle => "ToggleEvent",
            EventInterface::Command => "CommandEvent",
            EventInterface::Close => "CloseEvent",
            EventInterface::Fetch => "FetchEvent",
            EventInterface::Extendable => "ExtendableEvent",
            EventInterface::ExtendableMessage => "ExtendableMessageEvent",
            EventInterface::ExtendableCookieChange => "ExtendableCookieChangeEvent",
            EventInterface::Install => "InstallEvent",
            EventInterface::Sync => "SyncEvent",
            EventInterface::PeriodicSync => "PeriodicSyncEvent",
            EventInterface::Push => "PushEvent",
            EventInterface::PushSubscriptionChange => "PushSubscriptionChangeEvent",
            EventInterface::Notification => "NotificationEvent",
            EventInterface::BackgroundFetch => "BackgroundFetchEvent",
            EventInterface::BackgroundFetchUpdateUI => "BackgroundFetchUpdateUIEvent",
            EventInterface::ContentIndex => "ContentIndexEvent",
            EventInterface::Gamepad => "GamepadEvent",
            EventInterface::MediaStreamTrack => "MediaStreamTrackEvent",
            EventInterface::MediaEncrypted => "MediaEncryptedEvent",
            EventInterface::MediaKeyMessage => "MediaKeyMessageEvent",
            EventInterface::MediaQueryList => "MediaQueryListEvent",
            EventInterface::PictureInPicture => "PictureInPictureEvent",
            EventInterface::DocumentPictureInPicture => "DocumentPictureInPictureEvent",
            EventInterface::PortalActivate => "PortalActivateEvent",
            EventInterface::PageTransition => "PageTransitionEvent",
            EventInterface::PageReveal => "PageRevealEvent",
            EventInterface::PageSwap => "PageSwapEvent",
            EventInterface::Navigate => "NavigateEvent",
            EventInterface::NavigationCurrentEntryChange => "NavigationCurrentEntryChangeEvent",
            EventInterface::BeforeUnload => "BeforeUnloadEvent",
            EventInterface::BeforeInstallPrompt => "BeforeInstallPromptEvent",
            EventInterface::SecurityPolicyViolation => "SecurityPolicyViolationEvent",
            EventInterface::PromiseRejection => "PromiseRejectionEvent",
            EventInterface::TaskPriorityChange => "TaskPriorityChangeEvent",
            EventInterface::RTCDataChannel => "RTCDataChannelEvent",
            EventInterface::RTCDTMFToneChange => "RTCDTMFToneChangeEvent",
            EventInterface::RTCError => "RTCErrorEvent",
            EventInterface::RTCPeerConnectionIce => "RTCPeerConnectionIceEvent",
            EventInterface::RTCPeerConnectionIceError => "RTCPeerConnectionIceErrorEvent",
            EventInterface::RTCTrack => "RTCTrackEvent",
            EventInterface::RTCTransform => "RTCTransformEvent",
            EventInterface::XRInputSource => "XRInputSourceEvent",
            EventInterface::XRInputSourcesChange => "XRInputSourcesChangeEvent",
            EventInterface::XRLayer => "XRLayerEvent",
            EventInterface::XRReferenceSpace => "XRReferenceSpaceEvent",
            EventInterface::XRSession => "XRSessionEvent",
            EventInterface::XRVisibilityMaskChange => "XRVisibilityMaskChangeEvent",
            EventInterface::SpeechRecognition => "SpeechRecognitionEvent",
            EventInterface::SpeechRecognitionError => "SpeechRecognitionErrorEvent",
            EventInterface::SpeechSynthesis => "SpeechSynthesisEvent",
            EventInterface::SpeechSynthesisError => "SpeechSynthesisErrorEvent",
            EventInterface::AudioProcessing => "AudioProcessingEvent",
            EventInterface::OfflineAudioCompletion => "OfflineAudioCompletionEvent",
            EventInterface::MIDIConnection => "MIDIConnectionEvent",
            EventInterface::MIDIMessage => "MIDIMessageEvent",
            EventInterface::PaymentRequest => "PaymentRequestEvent",
            EventInterface::PaymentRequestUpdate => "PaymentRequestUpdateEvent",
            EventInterface::PaymentMethodChange => "PaymentMethodChangeEvent",
            EventInterface::CanMakePayment => "CanMakePaymentEvent",
            EventInterface::PresentationConnectionAvailable => "PresentationConnectionAvailableEvent",
            EventInterface::PresentationConnectionClose => "PresentationConnectionCloseEvent",
            EventInterface::BluetoothAdvertising => "BluetoothAdvertisingEvent",
            EventInterface::HIDConnection => "HIDConnectionEvent",
            EventInterface::HIDInputReport => "HIDInputReportEvent",
            EventInterface::USBConnection => "USBConnectionEvent",
            EventInterface::NDEFReading => "NDEFReadingEvent",
            EventInterface::WebGLContext => "WebGLContextEvent",
            EventInterface::GPUUncapturedError => "GPUUncapturedErrorEvent",
            EventInterface::FontFaceSetLoad => "FontFaceSetLoadEvent",
            EventInterface::TextEvent => "TextEvent",
            EventInterface::TextFormatUpdate => "TextFormatUpdateEvent",
            EventInterface::TextUpdate => "TextUpdateEvent",
            EventInterface::SFrameTransformError => "SFrameTransformErrorEvent",
            EventInterface::CharacterBoundsUpdate => "CharacterBoundsUpdateEvent",
            EventInterface::KeyFrameRequest => "KeyFrameRequestEvent",
            EventInterface::WindowControlsOverlayGeometryChange => "WindowControlsOverlayGeometryChangeEvent",
            EventInterface::Autofill => "AutofillEvent",
            EventInterface::Blob => "BlobEvent",
            EventInterface::BufferedChange => "BufferedChangeEvent",
            EventInterface::CaptureAction => "CaptureActionEvent",
            EventInterface::CapturedMouse => "CapturedMouseEvent",
            EventInterface::ClipboardChange => "ClipboardChangeEvent",
            EventInterface::ContentVisibilityAutoStateChange => "ContentVisibilityAutoStateChangeEvent",
            EventInterface::CookieChange => "CookieChangeEvent",
            EventInterface::SensorError => "SensorErrorEvent",
            EventInterface::Value => "ValueEvent",
        }
    }
}

/// Whether `key` is spelled exactly `word`.
fn spelled(key: &[char], word: &str) -> (r: bool)
    ensures
        r == (key@ == word@),
{
    let w = chars_of(word);
    compare_char_seqs(key, w.as_slice()) == NameOrder::Equal
}

/// Reading the name of an interface selects that interface.
pub proof fn lemma_from_name_of_name(k: EventInterface)
    ensures
        EventInterface::spec_from_name(k.spec_name()) == k,
{
    reveal_strlit("Event");
    reveal_strlit("MouseEvent");
    reveal_strlit("WheelEvent");
    reveal_strlit("KeyboardEvent");
    reveal_strlit("FocusEvent");
    reveal_strlit("InputEvent");
    reveal_strlit("CompositionEvent");
    reveal_strlit("PointerEvent");
    reveal_strlit("TouchEvent");
    reveal_strlit("DragEvent");
    reveal_strlit("ClipboardEvent");
    reveal_strlit("ProgressEvent");
    reveal_strlit("MessageEvent");
    reveal_strlit("HashChangeEvent");
    reveal_strlit("PopStateEvent");
    reveal_strlit("AnimationEvent");
    reveal_strlit("TransitionEvent");
    reveal_strlit("ErrorEvent");
    reveal_strlit("UIEvent");
    reveal_strlit("DeviceMotionEvent");
    reveal_strlit("DeviceOrientationEvent");
    reveal_strlit("StorageEvent");
    reveal_strlit("SubmitEvent");
    reveal_strlit("FormDataEvent");
    reveal_strlit("ToggleEvent");
    reveal_strlit("CommandEvent");
    reveal_strlit("CloseEvent");
    reveal_strlit("FetchEvent");
    reveal_strlit("ExtendableEvent");
    reveal_strlit("ExtendableMessageEvent");
    reveal_strlit("ExtendableCookieChangeEvent");
    reveal_strlit("InstallEvent");
    reveal_strlit("SyncEvent");
    reveal_strlit("PeriodicSyncEvent");
    reveal_strlit("PushEvent");
    reveal_strlit("PushSubscriptionChangeEvent");
    reveal_strlit("NotificationEvent");
    reveal_strlit("BackgroundFetchEvent");
    reveal_strlit("BackgroundFetchUpdateUIEvent");
    reveal_strlit("ContentIndexEvent");
    reveal_strlit("GamepadEvent");
    reveal_strlit("MediaStreamTrackEvent");
    reveal_strlit("MediaEncryptedEvent");
    reveal_strlit("MediaKeyMessageEvent");
    reveal_strlit("MediaQueryListEvent");
    reveal_strlit("PictureInPictureEvent");
    reveal_strlit("DocumentPictureInPictureEvent");
    reveal_strlit("PortalActivateEvent");
    reveal_strlit("PageTransitionEvent");
    reveal_strlit("PageRevealEvent");
    reveal_strlit("PageSwapEvent");
    reveal_strlit("NavigateEvent");
    reveal_strlit("NavigationCurrentEntryChangeEvent");
    reveal_strlit("BeforeUnloadEvent");
    reveal_strlit("BeforeInstallPromptEvent");
    reveal_strlit("SecurityPolicyViolationEvent");
    reveal_strlit("PromiseRejectionEvent");
    reveal_strlit("TaskPriorityChangeEvent");
    reveal_strlit("RTCDataChannelEvent");
    reveal_strlit("RTCDTMFToneChangeEvent");
    reveal_strlit("RTCErrorEvent");
    reveal_strlit("RTCPeerConnectionIceEvent");
    reveal_strlit("RTCPeerConnectionIceErrorEvent");
    reveal_strlit("RTCTrackEvent");
    reveal_strlit("RTCTransformEvent");
    reveal_strlit("XRInputSourceEvent");
    reveal_strlit("XRInputSourcesChangeEvent");
    reveal_strlit("XRLayerEvent");
    reveal_strlit("XRReferenceSpaceEvent");
    reveal_strlit("XRSessionEvent");
    reveal_strlit("XRVisibilityMaskChangeEvent");
    reveal_strlit("SpeechRecognitionEvent");
    reveal_strlit("SpeechRecognitionErrorEvent");
    reveal_strlit("SpeechSynthesisEvent");
    reveal_strlit("SpeechSynthesisErrorEvent");
    reveal_strlit("AudioProcessingEvent");
    reveal_strlit("OfflineAudioCompletionEvent");
    reveal_strlit("MIDIConnectionEvent");
    reveal_strlit("MIDIMessageEvent");
    reveal_strlit("PaymentRequestEvent");
    reveal_strlit("PaymentRequestUpdateEvent");
    reveal_strlit("PaymentMethodChangeEvent");
    reveal_strlit("CanMakePaymentEvent");
    reveal_strlit("PresentationConnectionAvailableEvent");
    reveal_strlit("PresentationConnectionCloseEvent");
    reveal_strlit("BluetoothAdvertisingEvent");
    reveal_strlit("HIDConnectionEvent");
    reveal_strlit("HIDInputReportEvent");
    reveal_strlit("USBConnectionEvent");
    reveal_strlit("NDEFReadingEvent");
    reveal_strlit("WebGLContextEvent");
    reveal_strlit("GPUUncapturedErrorEvent");
    reveal_strlit("FontFaceSetLoadEvent");
    reveal_strlit("TextEvent");
    reveal_strlit("TextFormatUpdateEvent");
    reveal_strlit("TextUpdateEvent");
    reveal_strlit("SFrameTransformErrorEvent");
    reveal_strlit("CharacterBoundsUpdateEvent");
    reveal_strlit("KeyFrameRequestEvent");
    reveal_strlit("WindowControlsOverlayGeometryChangeEvent");
    reveal_strlit("AutofillEvent");
    reveal_strlit("BlobEvent");
    reveal_strlit("BufferedChangeEvent");
    reveal_strlit("CaptureActionEvent");
    reveal_strlit("CapturedMouseEvent");
    reveal_strlit("ClipboardChangeEvent");
    reveal_strlit("ContentVisibilityAutoStateChangeEvent");
    reveal_strlit("CookieChangeEvent");
    reveal_strlit("SensorErrorEvent");
    reveal_strlit("ValueEvent");
    assert("Event"@.len() == 5 && "Event"@[0] == 'E' && "Event"@[1] == 'v' && "Event"@[2] == 'e' && "Event"@[3] == 'n' && "Event"@[4] == 't');
    assert("MouseEvent"@.len() == 10 && "MouseEvent"@[0] == 'M' && "MouseEvent"@[1] == 'o' && "MouseEvent"@[2] == 'u' && "MouseEvent"@[3] == 's' && "MouseEvent"@[4] == 'e' && "MouseEvent"@[5] == 'E' && "MouseEvent"@[6] == 'v' && "MouseEvent"@[7] == 'e' && "MouseEvent"@[8] == 'n' && "MouseEvent"@[9] == 't');
    assert("WheelEvent"@.len() == 10 && "WheelEvent"@[0] == 'W' && "WheelEvent"@[1] == 'h' && "WheelEvent"@[2] == 'e' && "WheelEvent"@[3] == 'e' && "WheelEvent"@[4] == 'l' && "WheelEvent"@[5] == 'E' && "WheelEvent"@[6] == 'v' && "WheelEvent"@[7] == 'e' && "WheelEvent"@[8] == 'n' && "WheelEvent"@[9] == 't');
    assert("KeyboardEvent"@.len() == 13 && "KeyboardEvent"@[0] == 'K' && "KeyboardEvent"@[1] == 'e' && "KeyboardEvent"@[2] == 'y' && "KeyboardEvent"@[3] == 'b' && "KeyboardEvent"@[4] == 'o' && "KeyboardEvent"@[5] == 'a' && "KeyboardEvent"@[6] == 'r' && "KeyboardEvent"@[7] == 'd' && "KeyboardEvent"@[8] == 'E' && "KeyboardEvent"@[9] == 'v' && "KeyboardEvent"@[10] == 'e' && "KeyboardEvent"@[11] == 'n' && "KeyboardEvent"@[12] == 't');
    assert("FocusEvent"@.len() == 10 && "FocusEvent"@[0] == 'F' && "FocusEvent"@[1] == 'o' && "FocusEvent"@[2] == 'c' && "FocusEvent"@[3] == 'u' && "FocusEvent"@[4] == 's' && "FocusEvent"@[5] == 'E' && "FocusEvent"@[6] == 'v' && "FocusEvent"@[7] == 'e' && "FocusEvent"@[8] == 'n' && "FocusEvent"@[9] == 't');
    assert("InputEvent"@.len() == 10 && "InputEvent"@[0] == 'I' && "InputEvent"@[1] == 'n' && "InputEvent"@[2] == 'p' && "InputEvent"@[3] == 'u' && "InputEvent"@[4] == 't' && "InputEvent"@[5] == 'E' && "InputEvent"@[6] == 'v' && "InputEvent"@[7] == 'e' && "InputEvent"@[8] == 'n' && "InputEvent"@[9] == 't');
    assert("CompositionEvent"@.len() == 16 && "CompositionEvent"@[0] == 'C' && "CompositionEvent"@[1] == 'o' && "CompositionEvent"@[2] == 'm' && "CompositionEvent"@[3] == 'p' && "CompositionEvent"@[4] == 'o' && "CompositionEvent"@[5] == 's' && "CompositionEvent"@[6] == 'i' && "CompositionEvent"@[7] == 't' && "CompositionEvent"@[8] == 'i' && "CompositionEvent"@[9] == 'o' && "CompositionEvent"@[10] == 'n' && "CompositionEvent"@[11] == 'E' && "CompositionEvent"@[12] == 'v' && "CompositionEvent"@[13] == 'e' && "CompositionEvent"@[14] == 'n' && "CompositionEvent"@[15] == 't');
    assert("PointerEvent"@.len() == 12 && "PointerEvent"@[0] == 'P' && "PointerEvent"@[1] == 'o' && "PointerEvent"@[2] == 'i' && "PointerEvent"@[3] == 'n' && "PointerEvent"@[4] == 't' && "PointerEvent"@[5] == 'e' && "PointerEvent"@[6] == 'r' && "PointerEvent"@[7] == 'E' && "PointerEvent"@[8] == 'v' && "PointerEvent"@[9] == 'e' && "PointerEvent"@[10] == 'n' && "PointerEvent"@[11] == 't');
    assert("TouchEvent"@.len() == 10 && "TouchEvent"@[0] == 'T' && "TouchEvent"@[1] == 'o' && "TouchEvent"@[2] == 'u' && "TouchEvent"@[3] == 'c' && "TouchEvent"@[4] == 'h' && "TouchEvent"@[5] == 'E' && "TouchEvent"@[6] == 'v' && "TouchEvent"@[7] == 'e' && "TouchEvent"@[8] == 'n' && "TouchEvent"@[9] == 't');
    assert("DragEvent"@.len() == 9 && "DragEvent"@[0] == 'D' && "DragEvent"@[1] == 'r' && "DragEvent"@[2] == 'a' && "DragEvent"@[3] == 'g' && "DragEvent"@[4] == 'E' && "DragEvent"@[5] == 'v' && "DragEvent"@[6] == 'e' && "DragEvent"@[7] == 'n' && "DragEvent"@[8] == 't');
    assert("ClipboardEvent"@.len() == 14 && "ClipboardEvent"@[0] == 'C' && "ClipboardEvent"@[1] == 'l' && "ClipboardEvent"@[2] == 'i' && "ClipboardEvent"@[3] == 'p' && "ClipboardEvent"@[4] == 'b' && "ClipboardEvent"@[5] == 'o' && "ClipboardEvent"@[6] == 'a' && "ClipboardEvent"@[7] == 'r' && "ClipboardEvent"@[8] == 'd' && "ClipboardEvent"@[9] == 'E' && "ClipboardEvent"@[10] == 'v' && "ClipboardEvent"@[11] == 'e' && "ClipboardEvent"@[12] == 'n' && "ClipboardEvent"@[13] == 't');
    assert("ProgressEvent"@.len() == 13 && "ProgressEvent"@[0] == 'P' && "ProgressEvent"@[1] == 'r' && "ProgressEvent"@[2] == 'o' && "ProgressEvent"@[3] == 'g' && "ProgressEvent"@[4] == 'r' && "ProgressEvent"@[5] == 'e' && "ProgressEvent"@[6] == 's' && "ProgressEvent"@[7] == 's' && "ProgressEvent"@[8] == 'E' && "ProgressEvent"@[9] == 'v' && "ProgressEvent"@[10] == 'e' && "ProgressEvent"@[11] == 'n' && "ProgressEvent"@[12] == 't');
    assert("MessageEvent"@.len() == 12 && "MessageEvent"@[0] == 'M' && "MessageEvent"@[1] == 'e' && "MessageEvent"@[2] == 's' && "MessageEvent"@[3] == 's' && "MessageEvent"@[4] == 'a' && "MessageEvent"@[5] == 'g' && "MessageEvent"@[6] == 'e' && "MessageEvent"@[7] == 'E' && "MessageEvent"@[8] == 'v' && "MessageEvent"@[9] == 'e' && "MessageEvent"@[10] == 'n' && "MessageEvent"@[11] == 't');
    assert("HashChangeEvent"@.len() == 15 && "HashChangeEvent"@[0] == 'H' && "HashChangeEvent"@[1] == 'a' && "HashChangeEvent"@[2] == 's' && "HashChangeEvent"@[3] == 'h' && "HashChangeEvent"@[4] == 'C' && "HashChangeEvent"@[5] == 'h' && "HashChangeEvent"@[6] == 'a' && "HashChangeEvent"@[7] == 'n' && "HashChangeEvent"@[8] == 'g' && "HashChangeEvent"@[9] == 'e' && "HashChangeEvent"@[10] == 'E' && "HashChangeEvent"@[11] == 'v' && "HashChangeEvent"@[12] == 'e' && "HashChangeEvent"@[13] == 'n' && "HashChangeEvent"@[14] == 't');
    assert("PopStateEvent"@.len() == 13 && "PopStateEvent"@[0] == 'P' && "PopStateEvent"@[1] == 'o' && "PopStateEvent"@[2] == 'p' && "PopStateEvent"@[3] == 'S' && "PopStateEvent"@[4] == 't' && "PopStateEvent"@[5] == 'a' && "PopStateEvent"@[6] == 't' && "PopStateEvent"@[7] == 'e' && "PopStateEvent"@[8] == 'E' && "PopStateEvent"@[9] == 'v' && "PopStateEvent"@[10] == 'e' && "PopStateEvent"@[11] == 'n' && "PopStateEvent"@[12] == 't');
    assert("AnimationEvent"@.len() == 14 && "AnimationEvent"@[0] == 'A' && "AnimationEvent"@[1] == 'n' && "AnimationEvent"@[2] == 'i' && "AnimationEvent"@[3] == 'm' && "AnimationEvent"@[4] == 'a' && "AnimationEvent"@[5] == 't' && "AnimationEvent"@[6] == 'i' && "AnimationEvent"@[7] == 'o' && "AnimationEvent"@[8] == 'n' && "AnimationEvent"@[9] == 'E' && "AnimationEvent"@[10] == 'v' && "AnimationEvent"@[11] == 'e' && "AnimationEvent"@[12] == 'n' && "AnimationEvent"@[13] == 't');
    assert("TransitionEvent"@.len() == 15 && "TransitionEvent"@[0] == 'T' && "TransitionEvent"@[1] == 'r' && "TransitionEvent"@[2] == 'a' && "TransitionEvent"@[3] == 'n' && "TransitionEvent"@[4] == 's' && "TransitionEvent"@[5] == 'i' && "TransitionEvent"@[6] == 't' && "TransitionEvent"@[7] == 'i' && "TransitionEvent"@[8] == 'o' && "TransitionEvent"@[9] == 'n' && "TransitionEvent"@[10] == 'E' && "TransitionEvent"@[11] == 'v' && "TransitionEvent"@[12] == 'e' && "TransitionEvent"@[13] == 'n' && "TransitionEvent"@[14] == 't');
    assert("ErrorEvent"@.len() == 10 && "ErrorEvent"@[0] == 'E' && "ErrorEvent"@[1] == 'r' && "ErrorEvent"@[2] == 'r' && "ErrorEvent"@[3] == 'o' && "ErrorEvent"@[4] == 'r' && "ErrorEvent"@[5] == 'E' && "ErrorEvent"@[6] == 'v' && "ErrorEvent"@[7] == 'e' && "ErrorEvent"@[8] == 'n' && "ErrorEvent"@[9] == 't');
    assert("UIEvent"@.len() == 7 && "UIEvent"@[0] == 'U' && "UIEvent"@[1] == 'I' && "UIEvent"@[2] == 'E' && "UIEvent"@[3] == 'v' && "UIEvent"@[4] == 'e' && "UIEvent"@[5] == 'n' && "UIEvent"@[6] == 't');
    assert("DeviceMotionEvent"@.len() == 17 && "DeviceMotionEvent"@[0] == 'D' && "DeviceMotionEvent"@[1] == 'e' && "DeviceMotionEvent"@[2] == 'v' && "DeviceMotionEvent"@[3] == 'i' && "DeviceMotionEvent"@[4] == 'c' && "DeviceMotionEvent"@[5] == 'e' && "DeviceMotionEvent"@[6] == 'M' && "DeviceMotionEvent"@[7] == 'o' && "DeviceMotionEvent"@[8] == 't' && "DeviceMotionEvent"@[9] == 'i' && "DeviceMotionEvent"@[10] == 'o' && "DeviceMotionEvent"@[11] == 'n' && "DeviceMotionEvent"@[12] == 'E' && "DeviceMotionEvent"@[13] == 'v' && "DeviceMotionEvent"@[14] == 'e' && "DeviceMotionEvent"@[15] == 'n' && "DeviceMotionEvent"@[16] == 't');
    assert("DeviceOrientationEvent"@.len() == 22 && "DeviceOrientationEvent"@[0] == 'D' && "DeviceOrientationEvent"@[1] == 'e' && "DeviceOrientationEvent"@[2] == 'v' && "DeviceOrientationEvent"@[3] == 'i' && "DeviceOrientationEvent"@[4] == 'c' && "DeviceOrientationEvent"@[5] == 'e' && "DeviceOrientationEvent"@[6] == 'O' && "DeviceOrientationEvent"@[7] == 'r' && "DeviceOrientationEvent"@[8] == 'i' && "DeviceOrientationEvent"@[9] == 'e' && "DeviceOrientationEvent"@[10] == 'n' && "DeviceOrientationEvent"@[11] == 't' && "DeviceOrientationEvent"@[12] == 'a' && "DeviceOrientationEvent"@[13] == 't' && "DeviceOrientationEvent"@[14] == 'i' && "DeviceOrientationEvent"@[15] == 'o' && "DeviceOrientationEvent"@[16] == 'n' && "DeviceOrientationEvent"@[17] == 'E' && "DeviceOrientationEvent"@[18] == 'v' && "DeviceOrientationEvent"@[19] == 'e' && "DeviceOrientationEvent"@[20] == 'n' && "DeviceOrientationEvent"@[21] == 't');
    assert("StorageEvent"@.len() == 12 && "StorageEvent"@[0] == 'S' && "StorageEvent"@[1] == 't' && "StorageEvent"@[2] == 'o' && "StorageEvent"@[3] == 'r' && "StorageEvent"@[4] == 'a' && "StorageEvent"@[5] == 'g' && "StorageEvent"@[6] == 'e' && "StorageEvent"@[7] == 'E' && "StorageEvent"@[8] == 'v' && "StorageEvent"@[9] == 'e' && "StorageEvent"@[10] == 'n' && "StorageEvent"@[11] == 't');
    assert("SubmitEvent"@.len() == 11 && "SubmitEvent"@[0] == 'S' && "SubmitEvent"@[1] == 'u' && "SubmitEvent"@[2] == 'b' && "SubmitEvent"@[3] == 'm' && "SubmitEvent"@[4] == 'i' && "SubmitEvent"@[5] == 't' && "SubmitEvent"@[6] == 'E' && "SubmitEvent"@[7] == 'v' && "SubmitEvent"@[8] == 'e' && "SubmitEvent"@[9] == 'n' && "SubmitEvent"@[10] == 't');
    assert("FormDataEvent"@.len() == 13 && "FormDataEvent"@[0] == 'F' && "FormDataEvent"@[1] == 'o' && "FormDataEvent"@[2] == 'r' && "FormDataEvent"@[3] == 'm' && "FormDataEvent"@[4] == 'D' && "FormDataEvent"@[5] == 'a' && "FormDataEvent"@[6] == 't' && "FormDataEvent"@[7] == 'a' && "FormDataEvent"@[8] == 'E' && "FormDataEvent"@[9] == 'v' && "FormDataEvent"@[10] == 'e' && "FormDataEvent"@[11] == 'n' && "FormDataEvent"@[12] == 't');
    assert("ToggleEvent"@.len() == 11 && "ToggleEvent"@[0] == 'T' && "ToggleEvent"@[1] == 'o' && "ToggleEvent"@[2] == 'g' && "ToggleEvent"@[3] == 'g' && "ToggleEvent"@[4] == 'l' && "ToggleEvent"@[5] == 'e' && "ToggleEvent"@[6] == 'E' && "ToggleEvent"@[7] == 'v' && "ToggleEvent"@[8] == 'e' && "ToggleEvent"@[9] == 'n' && "ToggleEvent"@[10] == 't');
    assert("CommandEvent"@.len() == 12 && "CommandEvent"@[0] == 'C' && "CommandEvent"@[1] == 'o' && "CommandEvent"@[2] == 'm' && "CommandEvent"@[3] == 'm' && "CommandEvent"@[4] == 'a' && "CommandEvent"@[5] == 'n' && "CommandEvent"@[6] == 'd' && "CommandEvent"@[7] == 'E' && "CommandEvent"@[8] == 'v' && "CommandEvent"@[9] == 'e' && "CommandEvent"@[10] == 'n' && "CommandEvent"@[11] == 't');
    assert("CloseEvent"@.len() == 10 && "CloseEvent"@[0] == 'C' && "CloseEvent"@[1] == 'l' && "CloseEvent"@[2] == 'o' && "CloseEvent"@[3] == 's' && "CloseEvent"@[4] == 'e' && "CloseEvent"@[5] == 'E' && "CloseEvent"@[6] == 'v' && "CloseEvent"@[7] == 'e' && "CloseEvent"@[8] == 'n' && "CloseEvent"@[9] == 't');
    assert("FetchEvent"@.len() == 10 && "FetchEvent"@[0] == 'F' && "FetchEvent"@[1] == 'e' && "FetchEvent"@[2] == 't' && "FetchEvent"@[3] == 'c' && "FetchEvent"@[4] == 'h' && "FetchEvent"@[5] == 'E' && "FetchEvent"@[6] == 'v' && "FetchEvent"@[7] == 'e' && "FetchEvent"@[8] == 'n' && "FetchEvent"@[9] == 't');
    assert("ExtendableEvent"@.len() == 15 && "ExtendableEvent"@[0] == 'E' && "ExtendableEvent"@[1] == 'x' && "ExtendableEvent"@[2] == 't' && "ExtendableEvent"@[3] == 'e' && "ExtendableEvent"@[4] == 'n' && "ExtendableEvent"@[5] == 'd' && "ExtendableEvent"@[6] == 'a' && "ExtendableEvent"@[7] == 'b' && "ExtendableEvent"@[8] == 'l' && "ExtendableEvent"@[9] == 'e' && "ExtendableEvent"@[10] == 'E' && "ExtendableEvent"@[11] == 'v' && "ExtendableEvent"@[12] == 'e' && "ExtendableEvent"@[13] == 'n' && "ExtendableEvent"@[14] == 't');
    assert("ExtendableMessageEvent"@.len() == 22 && "ExtendableMessageEvent"@[0] == 'E' && "ExtendableMessageEvent"@[1] == 'x' && "ExtendableMessageEvent"@[2] == 't' && "ExtendableMessageEvent"@[3] == 'e' && "ExtendableMessageEvent"@[4] == 'n' && "ExtendableMessageEvent"@[5] == 'd' && "ExtendableMessageEvent"@[6] == 'a' && "ExtendableMessageEvent"@[7] == 'b' && "ExtendableMessageEvent"@[8] == 'l' && "ExtendableMessageEvent"@[9] == 'e' && "ExtendableMessageEvent"@[10] == 'M' && "ExtendableMessageEvent"@[11] == 'e' && "ExtendableMessageEvent"@[12] == 's' && "ExtendableMessageEvent"@[13] == 's' && "ExtendableMessageEvent"@[14] == 'a' && "ExtendableMessageEvent"@[15] == 'g' && "ExtendableMessageEvent"@[16] == 'e' && "ExtendableMessageEvent"@[17] == 'E' && "ExtendableMessageEvent"@[18] == 'v' && "ExtendableMessageEvent"@[19] == 'e' && "ExtendableMessageEvent"@[20] == 'n' && "ExtendableMessageEvent"@[21] == 't');
    assert("ExtendableCookieChangeEvent"@.len() == 27 && "ExtendableCookieChangeEvent"@[0] == 'E' && "ExtendableCookieChangeEvent"@[1] == 'x' && "ExtendableCookieChangeEvent"@[2] == 't' && "ExtendableCookieChangeEvent"@[3] == 'e' && "ExtendableCookieChangeEvent"@[4] == 'n' && "ExtendableCookieChangeEvent"@[5] == 'd' && "ExtendableCookieChangeEvent"@[6] == 'a' && "ExtendableCookieChangeEvent"@[7] == 'b' && "ExtendableCookieChangeEvent"@[8] == 'l' && "ExtendableCookieChangeEvent"@[9] == 'e' && "ExtendableCookieChangeEvent"@[10] == 'C' && "ExtendableCookieChangeEvent"@[11] == 'o' && "ExtendableCookieChangeEvent"@[12] == 'o' && "ExtendableCookieChangeEvent"@[13] == 'k' && "ExtendableCookieChangeEvent"@[14] == 'i' && "ExtendableCookieChangeEvent"@[15] == 'e' && "ExtendableCookieChangeEvent"@[16] == 'C' && "ExtendableCookieChangeEvent"@[17] == 'h' && "ExtendableCookieChangeEvent"@[18] == 'a' && "ExtendableCookieChangeEvent"@[19] == 'n' && "ExtendableCookieChangeEvent"@[20] == 'g' && "ExtendableCookieChangeEvent"@[21] == 'e' && "ExtendableCookieChangeEvent"@[22] == 'E' && "ExtendableCookieChangeEvent"@[23] == 'v' && "ExtendableCookieChangeEvent"@[24] == 'e' && "ExtendableCookieChangeEvent"@[25] == 'n' && "ExtendableCookieChangeEvent"@[26] == 't');
    assert("InstallEvent"@.len() == 12 && "InstallEvent"@[0] == 'I' && "InstallEvent"@[1] == 'n' && "InstallEvent"@[2] == 's' && "InstallEvent"@[3] == 't' && "InstallEvent"@[4] == 'a' && "InstallEvent"@[5] == 'l' && "InstallEvent"@[6] == 'l' && "InstallEvent"@[7] == 'E' && "InstallEvent"@[8] == 'v' && "InstallEvent"@[9] == 'e' && "InstallEvent"@[10] == 'n' && "InstallEvent"@[11] == 't');
    assert("SyncEvent"@.len() == 9 && "SyncEvent"@[0] == 'S' && "SyncEvent"@[1] == 'y' && "SyncEvent"@[2] == 'n' && "SyncEvent"@[3] == 'c' && "SyncEvent"@[4] == 'E' && "SyncEvent"@[5] == 'v' && "SyncEvent"@[6] == 'e' && "SyncEvent"@[7] == 'n' && "SyncEvent"@[8] == 't');
    assert("PeriodicSyncEvent"@.len() == 17 && "PeriodicSyncEvent"@[0] == 'P' && "PeriodicSyncEvent"@[1] == 'e' && "PeriodicSyncEvent"@[2] == 'r' && "PeriodicSyncEvent"@[3] == 'i' && "PeriodicSyncEvent"@[4] == 'o' && "PeriodicSyncEvent"@[5] == 'd' && "PeriodicSyncEvent"@[6] == 'i' && "PeriodicSyncEvent"@[7] == 'c' && "PeriodicSyncEvent"@[8] == 'S' && "PeriodicSyncEvent"@[9] == 'y' && "PeriodicSyncEvent"@[10] == 'n' && "PeriodicSyncEvent"@[11] == 'c' && "PeriodicSyncEvent"@[12] == 'E' && "PeriodicSyncEvent"@[13] == 'v' && "PeriodicSyncEvent"@[14] == 'e' && "PeriodicSyncEvent"@[15] == 'n' && "PeriodicSyncEvent"@[16] == 't');
    assert("PushEvent"@.len() == 9 && "PushEvent"@[0] == 'P' && "PushEvent"@[1] == 'u' && "PushEvent"@[2] == 's' && "PushEvent"@[3] == 'h' && "PushEvent"@[4] == 'E' && "PushEvent"@[5] == 'v' && "PushEvent"@[6] == 'e' && "PushEvent"@[7] == 'n' && "PushEvent"@[8] == 't');
    assert("PushSubscriptionChangeEvent"@.len() == 27 && "PushSubscriptionChangeEvent"@[0] == 'P' && "PushSubscriptionChangeEvent"@[1] == 'u' && "PushSubscriptionChangeEvent"@[2] == 's' && "PushSubscriptionChangeEvent"@[3] == 'h' && "PushSubscriptionChangeEvent"@[4] == 'S' && "PushSubscriptionChangeEvent"@[5] == 'u' && "PushSubscriptionChangeEvent"@[6] == 'b' && "PushSubscriptionChangeEvent"@[7] == 's' && "PushSubscriptionChangeEvent"@[8] == 'c' && "PushSubscriptionChangeEvent"@[9] == 'r' && "PushSubscriptionChangeEvent"@[10] == 'i' && "PushSubscriptionChangeEvent"@[11] == 'p' && "PushSubscriptionChangeEvent"@[12] == 't' && "PushSubscriptionChangeEvent"@[13] == 'i' && "PushSubscriptionChangeEvent"@[14] == 'o' && "PushSubscriptionChangeEvent"@[15] == 'n' && "PushSubscriptionChangeEvent"@[16] == 'C' && "PushSubscriptionChangeEvent"@[17] == 'h' && "PushSubscriptionChangeEvent"@[18] == 'a' && "PushSubscriptionChangeEvent"@[19] == 'n' && "PushSubscriptionChangeEvent"@[20] == 'g' && "PushSubscriptionChangeEvent"@[21] == 'e' && "PushSubscriptionChangeEvent"@[22] == 'E' && "PushSubscriptionChangeEvent"@[23] == 'v' && "PushSubscriptionChangeEvent"@[24] == 'e' && "PushSubscriptionChangeEvent"@[25] == 'n' && "PushSubscriptionChangeEvent"@[26] == 't');
    assert("NotificationEvent"@.len() == 17 && "NotificationEvent"@[0] == 'N' && "NotificationEvent"@[1] == 'o' && "NotificationEvent"@[2] == 't' && "NotificationEvent"@[3] == 'i' && "NotificationEvent"@[4] == 'f' && "NotificationEvent"@[5] == 'i' && "NotificationEvent"@[6] == 'c' && "NotificationEvent"@[7] == 'a' && "NotificationEvent"@[8] == 't' && "NotificationEvent"@[9] == 'i' && "NotificationEvent"@[10] == 'o' && "NotificationEvent"@[11] == 'n' && "NotificationEvent"@[12] == 'E' && "NotificationEvent"@[13] == 'v' && "NotificationEvent"@[14] == 'e' && "NotificationEvent"@[15] == 'n' && "NotificationEvent"@[16] == 't');
    assert("BackgroundFetchEvent"@.len() == 20 && "BackgroundFetchEvent"@[0] == 'B' && "BackgroundFetchEvent"@[1] == 'a' && "BackgroundFetchEvent"@[2] == 'c' && "BackgroundFetchEvent"@[3] == 'k' && "BackgroundFetchEvent"@[4] == 'g' && "BackgroundFetchEvent"@[5] == 'r' && "BackgroundFetchEvent"@[6] == 'o' && "BackgroundFetchEvent"@[7] == 'u' && "BackgroundFetchEvent"@[8] == 'n' && "BackgroundFetchEvent"@[9] == 'd' && "BackgroundFetchEvent"@[10] == 'F' && "BackgroundFetchEvent"@[11] == 'e' && "BackgroundFetchEvent"@[12] == 't' && "BackgroundFetchEvent"@[13] == 'c' && "BackgroundFetchEvent"@[14] == 'h' && "BackgroundFetchEvent"@[15] == 'E' && "BackgroundFetchEvent"@[16] == 'v' && "BackgroundFetchEvent"@[17] == 'e' && "BackgroundFetchEvent"@[18] == 'n' && "BackgroundFetchEvent"@[19] == 't');
    assert("BackgroundFetchUpdateUIEvent"@.len() == 28 && "BackgroundFetchUpdateUIEvent"@[0] == 'B' && "BackgroundFetchUpdateUIEvent"@[1] == 'a' && "BackgroundFetchUpdateUIEvent"@[2] == 'c' && "BackgroundFetchUpdateUIEvent"@[3] == 'k' && "BackgroundFetchUpdateUIEvent"@[4] == 'g' && "BackgroundFetchUpdateUIEvent"@[5] == 'r' && "BackgroundFetchUpdateUIEvent"@[6] == 'o' && "BackgroundFetchUpdateUIEvent"@[7] == 'u' && "BackgroundFetchUpdateUIEvent"@[8] == 'n' && "BackgroundFetchUpdateUIEvent"@[9] == 'd' && "BackgroundFetchUpdateUIEvent"@[10] == 'F' && "BackgroundFetchUpdateUIEvent"@[11] == 'e' && "BackgroundFetchUpdateUIEvent"@[12] == 't' && "BackgroundFetchUpdateUIEvent"@[13] == 'c' && "BackgroundFetchUpdateUIEvent"@[14] == 'h' && "BackgroundFetchUpdateUIEvent"@[15] == 'U' && "BackgroundFetchUpdateUIEvent"@[16] == 'p' && "BackgroundFetchUpdateUIEvent"@[17] == 'd' && "BackgroundFetchUpdateUIEvent"@[18] == 'a' && "BackgroundFetchUpdateUIEvent"@[19] == 't' && "BackgroundFetchUpdateUIEvent"@[20] == 'e' && "BackgroundFetchUpdateUIEvent"@[21] == 'U' && "BackgroundFetchUpdateUIEvent"@[22] == 'I' && "BackgroundFetchUpdateUIEvent"@[23] == 'E' && "BackgroundFetchUpdateUIEvent"@[24] == 'v' && "BackgroundFetchUpdateUIEvent"@[25] == 'e' && "BackgroundFetchUpdateUIEvent"@[26] == 'n' && "BackgroundFetchUpdateUIEvent"@[27] == 't');
    assert("ContentIndexEvent"@.len() == 17 && "ContentIndexEvent"@[0] == 'C' && "ContentIndexEvent"@[1] == 'o' && "ContentIndexEvent"@[2] == 'n' && "ContentIndexEvent"@[3] == 't' && "ContentIndexEvent"@[4] == 'e' && "ContentIndexEvent"@[5] == 'n' && "ContentIndexEvent"@[6] == 't' && "ContentIndexEvent"@[7] == 'I' && "ContentIndexEvent"@[8] == 'n' && "ContentIndexEvent"@[9] == 'd' && "ContentIndexEvent"@[10] == 'e' && "ContentIndexEvent"@[11] == 'x' && "ContentIndexEvent"@[12] == 'E' && "ContentIndexEvent"@[13] == 'v' && "ContentIndexEvent"@[14] == 'e' && "ContentIndexEvent"@[15] == 'n' && "ContentIndexEvent"@[16] == 't');
    assert("GamepadEvent"@.len() == 12 && "GamepadEvent"@[0] == 'G' && "GamepadEvent"@[1] == 'a' && "GamepadEvent"@[2] == 'm' && "GamepadEvent"@[3] == 'e' && "GamepadEvent"@[4] == 'p' && "GamepadEvent"@[5] == 'a' && "GamepadEvent"@[6] == 'd' && "GamepadEvent"@[7] == 'E' && "GamepadEvent"@[8] == 'v' && "GamepadEvent"@[9] == 'e' && "GamepadEvent"@[10] == 'n' && "GamepadEvent"@[11] == 't');
    assert("MediaStreamTrackEvent"@.len() == 21 && "MediaStreamTrackEvent"@[0] == 'M' && "MediaStreamTrackEvent"@[1] == 'e' && "MediaStreamTrackEvent"@[2] == 'd' && "MediaStreamTrackEvent"@[3] == 'i' && "MediaStreamTrackEvent"@[4] == 'a' && "MediaStreamTrackEvent"@[5] == 'S' && "MediaStreamTrackEvent"@[6] == 't' && "MediaStreamTrackEvent"@[7] == 'r' && "MediaStreamTrackEvent"@[8] == 'e' && "MediaStreamTrackEvent"@[9] == 'a' && "MediaStreamTrackEvent"@[10] == 'm' && "MediaStreamTrackEvent"@[11] == 'T' && "MediaStreamTrackEvent"@[12] == 'r' && "MediaStreamTrackEvent"@[13] == 'a' && "MediaStreamTrackEvent"@[14] == 'c' && "MediaStreamTrackEvent"@[15] == 'k' && "MediaStreamTrackEvent"@[16] == 'E' && "MediaStreamTrackEvent"@[17] == 'v' && "MediaStreamTrackEvent"@[18] == 'e' && "MediaStreamTrackEvent"@[19] == 'n' && "MediaStreamTrackEvent"@[20] == 't');
    assert("MediaEncryptedEvent"@.len() == 19 && "MediaEncryptedEvent"@[0] == 'M' && "MediaEncryptedEvent"@[1] == 'e' && "MediaEncryptedEvent"@[2] == 'd' && "MediaEncryptedEvent"@[3] == 'i' && "MediaEncryptedEvent"@[4] == 'a' && "MediaEncryptedEvent"@[5] == 'E' && "MediaEncryptedEvent"@[6] == 'n' && "MediaEncryptedEvent"@[7] == 'c' && "MediaEncryptedEvent"@[8] == 'r' && "MediaEncryptedEvent"@[9] == 'y' && "MediaEncryptedEvent"@[10] == 'p' && "MediaEncryptedEvent"@[11] == 't' && "MediaEncryptedEvent"@[12] == 'e' && "MediaEncryptedEvent"@[13] == 'd' && "MediaEncryptedEvent"@[14] == 'E' && "MediaEncryptedEvent"@[15] == 'v' && "MediaEncryptedEvent"@[16] == 'e' && "MediaEncryptedEvent"@[17] == 'n' && "MediaEncryptedEvent"@[18] == 't');
    assert("MediaKeyMessageEvent"@.len() == 20 && "MediaKeyMessageEvent"@[0] == 'M' && "MediaKeyMessageEvent"@[1] == 'e' && "MediaKeyMessageEvent"@[2] == 'd' && "MediaKeyMessageEvent"@[3] == 'i' && "MediaKeyMessageEvent"@[4] == 'a' && "MediaKeyMessageEvent"@[5] == 'K' && "MediaKeyMessageEvent"@[6] == 'e' && "MediaKeyMessageEvent"@[7] == 'y' && "MediaKeyMessageEvent"@[8] == 'M' && "MediaKeyMessageEvent"@[9] == 'e' && "MediaKeyMessageEvent"@[10] == 's' && "MediaKeyMessageEvent"@[11] == 's' && "MediaKeyMessageEvent"@[12] == 'a' && "MediaKeyMessageEvent"@[13] == 'g' && "MediaKeyMessageEvent"@[14] == 'e' && "MediaKeyMessageEvent"@[15] == 'E' && "MediaKeyMessageEvent"@[16] == 'v' && "MediaKeyMessageEvent"@[17] == 'e' && "MediaKeyMessageEvent"@[18] == 'n' && "MediaKeyMessageEvent"@[19] == 't');
    assert("MediaQueryListEvent"@.len() == 19 && "MediaQueryListEvent"@[0] == 'M' && "MediaQueryListEvent"@[1] == 'e' && "MediaQueryListEvent"@[2] == 'd' && "MediaQueryListEvent"@[3] == 'i' && "MediaQueryListEvent"@[4] == 'a' && "MediaQueryListEvent"@[5] == 'Q' && "MediaQueryListEvent"@[6] == 'u' && "MediaQueryListEvent"@[7] == 'e' && "MediaQueryListEvent"@[8] == 'r' && "MediaQueryListEvent"@[9] == 'y' && "MediaQueryListEvent"@[10] == 'L' && "MediaQueryListEvent"@[11] == 'i' && "MediaQueryListEvent"@[12] == 's' && "MediaQueryListEvent"@[13] == 't' && "MediaQueryListEvent"@[14] == 'E' && "MediaQueryListEvent"@[15] == 'v' && "MediaQueryListEvent"@[16] == 'e' && "MediaQueryListEvent"@[17] == 'n' && "MediaQueryListEvent"@[18] == 't');
    assert("PictureInPictureEvent"@.len() == 21 && "PictureInPictureEvent"@[0] == 'P' && "PictureInPictureEvent"@[1] == 'i' && "PictureInPictureEvent"@[2] == 'c' && "PictureInPictureEvent"@[3] == 't' && "PictureInPictureEvent"@[4] == 'u' && "PictureInPictureEvent"@[5] == 'r' && "PictureInPictureEvent"@[6] == 'e' && "PictureInPictureEvent"@[7] == 'I' && "PictureInPictureEvent"@[8] == 'n' && "PictureInPictureEvent"@[9] == 'P' && "PictureInPictureEvent"@[10] == 'i' && "PictureInPictureEvent"@[11] == 'c' && "PictureInPictureEvent"@[12] == 't' && "PictureInPictureEvent"@[13] == 'u' && "PictureInPictureEvent"@[14] == 'r' && "PictureInPictureEvent"@[15] == 'e' && "PictureInPictureEvent"@[16] == 'E' && "PictureInPictureEvent"@[17] == 'v' && "PictureInPictureEvent"@[18] == 'e' && "PictureInPictureEvent"@[19] == 'n' && "PictureInPictureEvent"@[20] == 't');
    assert("DocumentPictureInPictureEvent"@.len() == 29 && "DocumentPictureInPictureEvent"@[0] == 'D' && "DocumentPictureInPictureEvent"@[1] == 'o' && "DocumentPictureInPictureEvent"@[2] == 'c' && "DocumentPictureInPictureEvent"@[3] == 'u' && "DocumentPictureInPictureEvent"@[4] == 'm' && "DocumentPictureInPictureEvent"@[5] == 'e' && "DocumentPictureInPictureEvent"@[6] == 'n' && "DocumentPictureInPictureEvent"@[7] == 't' && "DocumentPictureInPictureEvent"@[8] == 'P' && "DocumentPictureInPictureEvent"@[9] == 'i' && "DocumentPictureInPictureEvent"@[10] == 'c' && "DocumentPictureInPictureEvent"@[11] == 't' && "DocumentPictureInPictureEvent"@[12] == 'u' && "DocumentPictureInPictureEvent"@[13] == 'r' && "DocumentPictureInPictureEvent"@[14] == 'e' && "DocumentPictureInPictureEvent"@[15] == 'I' && "DocumentPictureInPictureEvent"@[16] == 'n' && "DocumentPictureInPictureEvent"@[17] == 'P' && "DocumentPictureInPictureEvent"@[18] == 'i' && "DocumentPictureInPictureEvent"@[19] == 'c' && "DocumentPictureInPictureEvent"@[20] == 't' && "DocumentPictureInPictureEvent"@[21] == 'u' && "DocumentPictureInPictureEvent"@[22] == 'r' && "DocumentPictureInPictureEvent"@[23] == 'e' && "DocumentPictureInPictureEvent"@[24] == 'E' && "DocumentPictureInPictureEvent"@[25] == 'v' && "DocumentPictureInPictureEvent"@[26] == 'e' && "DocumentPictureInPictureEvent"@[27] == 'n' && "DocumentPictureInPictureEvent"@[28] == 't');
    assert("PortalActivateEvent"@.len() == 19 && "PortalActivateEvent"@[0] == 'P' && "PortalActivateEvent"@[1] == 'o' && "PortalActivateEvent"@[2] == 'r' && "PortalActivateEvent"@[3] == 't' && "PortalActivateEvent"@[4] == 'a' && "PortalActivateEvent"@[5] == 'l' && "PortalActivateEvent"@[6] == 'A' && "PortalActivateEvent"@[7] == 'c' && "PortalActivateEvent"@[8] == 't' && "PortalActivateEvent"@[9] == 'i' && "PortalActivateEvent"@[10] == 'v' && "PortalActivateEvent"@[11] == 'a' && "PortalActivateEvent"@[12] == 't' && "PortalActivateEvent"@[13] == 'e' && "PortalActivateEvent"@[14] == 'E' && "PortalActivateEvent"@[15] == 'v' && "PortalActivateEvent"@[16] == 'e' && "PortalActivateEvent"@[17] == 'n' && "PortalActivateEvent"@[18] == 't');
    assert("PageTransitionEvent"@.len() == 19 && "PageTransitionEvent"@[0] == 'P' && "PageTransitionEvent"@[1] == 'a' && "PageTransitionEvent"@[2] == 'g' && "PageTransitionEvent"@[3] == 'e' && "PageTransitionEvent"@[4] == 'T' && "PageTransitionEvent"@[5] == 'r' && "PageTransitionEvent"@[6] == 'a' && "PageTransitionEvent"@[7] == 'n' && "PageTransitionEvent"@[8] == 's' && "PageTransitionEvent"@[9] == 'i' && "PageTransitionEvent"@[10] == 't' && "PageTransitionEvent"@[11] == 'i' && "PageTransitionEvent"@[12] == 'o' && "PageTransitionEvent"@[13] == 'n' && "PageTransitionEvent"@[14] == 'E' && "PageTransitionEvent"@[15] == 'v' && "PageTransitionEvent"@[16] == 'e' && "PageTransitionEvent"@[17] == 'n' && "PageTransitionEvent"@[18] == 't');
    assert("PageRevealEvent"@.len() == 15 && "PageRevealEvent"@[0] == 'P' && "PageRevealEvent"@[1] == 'a' && "PageRevealEvent"@[2] == 'g' && "PageRevealEvent"@[3] == 'e' && "PageRevealEvent"@[4] == 'R' && "PageRevealEvent"@[5] == 'e' && "PageRevealEvent"@[6] == 'v' && "PageRevealEvent"@[7] == 'e' && "PageRevealEvent"@[8] == 'a' && "PageRevealEvent"@[9] == 'l' && "PageRevealEvent"@[10] == 'E' && "PageRevealEvent"@[11] == 'v' && "PageRevealEvent"@[12] == 'e' && "PageRevealEvent"@[13] == 'n' && "PageRevealEvent"@[14] == 't');
    assert("PageSwapEvent"@.len() == 13 && "PageSwapEvent"@[0] == 'P' && "PageSwapEvent"@[1] == 'a' && "PageSwapEvent"@[2] == 'g' && "PageSwapEvent"@[3] == 'e' && "PageSwapEvent"@[4] == 'S' && "PageSwapEvent"@[5] == 'w' && "PageSwapEvent"@[6] == 'a' && "PageSwapEvent"@[7] == 'p' && "PageSwapEvent"@[8] == 'E' && "PageSwapEvent"@[9] == 'v' && "PageSwapEvent"@[10] == 'e' && "PageSwapEvent"@[11] == 'n' && "PageSwapEvent"@[12] == 't');
    assert("NavigateEvent"@.len() == 13 && "NavigateEvent"@[0] == 'N' && "NavigateEvent"@[1] == 'a' && "NavigateEvent"@[2] == 'v' && "NavigateEvent"@[3] == 'i' && "NavigateEvent"@[4] == 'g' && "NavigateEvent"@[5] == 'a' && "NavigateEvent"@[6] == 't' && "NavigateEvent"@[7] == 'e' && "NavigateEvent"@[8] == 'E' && "NavigateEvent"@[9] == 'v' && "NavigateEvent"@[10] == 'e' && "NavigateEvent"@[11] == 'n' && "NavigateEvent"@[12] == 't');
    assert("NavigationCurrentEntryChangeEvent"@.len() == 33 && "NavigationCurrentEntryChangeEvent"@[0] == 'N' && "NavigationCurrentEntryChangeEvent"@[1] == 'a' && "NavigationCurrentEntryChangeEvent"@[2] == 'v' && "NavigationCurrentEntryChangeEvent"@[3] == 'i' && "NavigationCurrentEntryChangeEvent"@[4] == 'g' && "NavigationCurrentEntryChangeEvent"@[5] == 'a' && "NavigationCurrentEntryChangeEvent"@[6] == 't' && "NavigationCurrentEntryChangeEvent"@[7] == 'i' && "NavigationCurrentEntryChangeEvent"@[8] == 'o' && "NavigationCurrentEntryChangeEvent"@[9] == 'n' && "NavigationCurrentEntryChangeEvent"@[10] == 'C' && "NavigationCurrentEntryChangeEvent"@[11] == 'u' && "NavigationCurrentEntryChangeEvent"@[12] == 'r' && "NavigationCurrentEntryChangeEvent"@[13] == 'r' && "NavigationCurrentEntryChangeEvent"@[14] == 'e' && "NavigationCurrentEntryChangeEvent"@[15] == 'n' && "NavigationCurrentEntryChangeEvent"@[16] == 't' && "NavigationCurrentEntryChangeEvent"@[17] == 'E' && "NavigationCurrentEntryChangeEvent"@[18] == 'n' && "NavigationCurrentEntryChangeEvent"@[19] == 't' && "NavigationCurrentEntryChangeEvent"@[20] == 'r' && "NavigationCurrentEntryChangeEvent"@[21] == 'y' && "NavigationCurrentEntryChangeEvent"@[22] == 'C' && "NavigationCurrentEntryChangeEvent"@[23] == 'h' && "NavigationCurrentEntryChangeEvent"@[24] == 'a' && "NavigationCurrentEntryChangeEvent"@[25] == 'n' && "NavigationCurrentEntryChangeEvent"@[26] == 'g' && "NavigationCurrentEntryChangeEvent"@[27] == 'e' && "NavigationCurrentEntryChangeEvent"@[28] == 'E' && "NavigationCurrentEntryChangeEvent"@[29] == 'v' && "NavigationCurrentEntryChangeEvent"@[30] == 'e' && "NavigationCurrentEntryChangeEvent"@[31] == 'n' && "NavigationCurrentEntryChangeEvent"@[32] == 't');
    assert("BeforeUnloadEvent"@.len() == 17 && "BeforeUnloadEvent"@[0] == 'B' && "BeforeUnloadEvent"@[1] == 'e' && "BeforeUnloadEvent"@[2] == 'f' && "BeforeUnloadEvent"@[3] == 'o' && "BeforeUnloadEvent"@[4] == 'r' && "BeforeUnloadEvent"@[5] == 'e' && "BeforeUnloadEvent"@[6] == 'U' && "BeforeUnloadEvent"@[7] == 'n' && "BeforeUnloadEvent"@[8] == 'l' && "BeforeUnloadEvent"@[9] == 'o' && "BeforeUnloadEvent"@[10] == 'a' && "BeforeUnloadEvent"@[11] == 'd' && "BeforeUnloadEvent"@[12] == 'E' && "BeforeUnloadEvent"@[13] == 'v' && "BeforeUnloadEvent"@[14] == 'e' && "BeforeUnloadEvent"@[15] == 'n' && "BeforeUnloadEvent"@[16] == 't');
    assert("BeforeInstallPromptEvent"@.len() == 24 && "BeforeInstallPromptEvent"@[0] == 'B' && "BeforeInstallPromptEvent"@[1] == 'e' && "BeforeInstallPromptEvent"@[2] == 'f' && "BeforeInstallPromptEvent"@[3] == 'o' && "BeforeInstallPromptEvent"@[4] == 'r' && "BeforeInstallPromptEvent"@[5] == 'e' && "BeforeInstallPromptEvent"@[6] == 'I' && "BeforeInstallPromptEvent"@[7] == 'n' && "BeforeInstallPromptEvent"@[8] == 's' && "BeforeInstallPromptEvent"@[9] == 't' && "BeforeInstallPromptEvent"@[10] == 'a' && "BeforeInstallPromptEvent"@[11] == 'l' && "BeforeInstallPromptEvent"@[12] == 'l' && "BeforeInstallPromptEvent"@[13] == 'P' && "BeforeInstallPromptEvent"@[14] == 'r' && "BeforeInstallPromptEvent"@[15] == 'o' && "BeforeInstallPromptEvent"@[16] == 'm' && "BeforeInstallPromptEvent"@[17] == 'p' && "BeforeInstallPromptEvent"@[18] == 't' && "BeforeInstallPromptEvent"@[19] == 'E' && "BeforeInstallPromptEvent"@[20] == 'v' && "BeforeInstallPromptEvent"@[21] == 'e' && "BeforeInstallPromptEvent"@[22] == 'n' && "BeforeInstallPromptEvent"@[23] == 't');
    assert("SecurityPolicyViolationEvent"@.len() == 28 && "SecurityPolicyViolationEvent"@[0] == 'S' && "SecurityPolicyViolationEvent"@[1] == 'e' && "SecurityPolicyViolationEvent"@[2] == 'c' && "SecurityPolicyViolationEvent"@[3] == 'u' && "SecurityPolicyViolationEvent"@[4] == 'r' && "SecurityPolicyViolationEvent"@[5] == 'i' && "SecurityPolicyViolationEvent"@[6] == 't' && "SecurityPolicyViolationEvent"@[7] == 'y' && "SecurityPolicyViolationEvent"@[8] == 'P' && "SecurityPolicyViolationEvent"@[9] == 'o' && "SecurityPolicyViolationEvent"@[10] == 'l' && "SecurityPolicyViolationEvent"@[11] == 'i' && "SecurityPolicyViolationEvent"@[12] == 'c' && "SecurityPolicyViolationEvent"@[13] == 'y' && "SecurityPolicyViolationEvent"@[14] == 'V' && "SecurityPolicyViolationEvent"@[15] == 'i' && "SecurityPolicyViolationEvent"@[16] == 'o' && "SecurityPolicyViolationEvent"@[17] == 'l' && "SecurityPolicyViolationEvent"@[18] == 'a' && "SecurityPolicyViolationEvent"@[19] == 't' && "SecurityPolicyViolationEvent"@[20] == 'i' && "SecurityPolicyViolationEvent"@[21] == 'o' && "SecurityPolicyViolationEvent"@[22] == 'n' && "SecurityPolicyViolationEvent"@[23] == 'E' && "SecurityPolicyViolationEvent"@[24] == 'v' && "SecurityPolicyViolationEvent"@[25] == 'e' && "SecurityPolicyViolationEvent"@[26] == 'n' && "SecurityPolicyViolationEvent"@[27] == 't');
    assert("PromiseRejectionEvent"@.len() == 21 && "PromiseRejectionEvent"@[0] == 'P' && "PromiseRejectionEvent"@[1] == 'r' && "PromiseRejectionEvent"@[2] == 'o' && "PromiseRejectionEvent"@[3] == 'm' && "PromiseRejectionEvent"@[4] == 'i' && "PromiseRejectionEvent"@[5] == 's' && "PromiseRejectionEvent"@[6] == 'e' && "PromiseRejectionEvent"@[7] == 'R' && "PromiseRejectionEvent"@[8] == 'e' && "PromiseRejectionEvent"@[9] == 'j' && "PromiseRejectionEvent"@[10] == 'e' && "PromiseRejectionEvent"@[11] == 'c' && "PromiseRejectionEvent"@[12] == 't' && "PromiseRejectionEvent"@[13] == 'i' && "PromiseRejectionEvent"@[14] == 'o' && "PromiseRejectionEvent"@[15] == 'n' && "PromiseRejectionEvent"@[16] == 'E' && "PromiseRejectionEvent"@[17] == 'v' && "PromiseRejectionEvent"@[18] == 'e' && "PromiseRejectionEvent"@[19] == 'n' && "PromiseRejectionEvent"@[20] == 't');
    assert("TaskPriorityChangeEvent"@.len() == 23 && "TaskPriorityChangeEvent"@[0] == 'T' && "TaskPriorityChangeEvent"@[1] == 'a' && "TaskPriorityChangeEvent"@[2] == 's' && "TaskPriorityChangeEvent"@[3] == 'k' && "TaskPriorityChangeEvent"@[4] == 'P' && "TaskPriorityChangeEvent"@[5] == 'r' && "TaskPriorityChangeEvent"@[6] == 'i' && "TaskPriorityChangeEvent"@[7] == 'o' && "TaskPriorityChangeEvent"@[8] == 'r' && "TaskPriorityChangeEvent"@[9] == 'i' && "TaskPriorityChangeEvent"@[10] == 't' && "TaskPriorityChangeEvent"@[11] == 'y' && "TaskPriorityChangeEvent"@[12] == 'C' && "TaskPriorityChangeEvent"@[13] == 'h' && "TaskPriorityChangeEvent"@[14] == 'a' && "TaskPriorityChangeEvent"@[15] == 'n' && "TaskPriorityChangeEvent"@[16] == 'g' && "TaskPriorityChangeEvent"@[17] == 'e' && "TaskPriorityChangeEvent"@[18] == 'E' && "TaskPriorityChangeEvent"@[19] == 'v' && "TaskPriorityChangeEvent"@[20] == 'e' && "TaskPriorityChangeEvent"@[21] == 'n' && "TaskPriorityChangeEvent"@[22] == 't');
    assert("RTCDataChannelEvent"@.len() == 19 && "RTCDataChannelEvent"@[0] == 'R' && "RTCDataChannelEvent"@[1] == 'T' && "RTCDataChannelEvent"@[2] == 'C' && "RTCDataChannelEvent"@[3] == 'D' && "RTCDataChannelEvent"@[4] == 'a' && "RTCDataChannelEvent"@[5] == 't' && "RTCDataChannelEvent"@[6] == 'a' && "RTCDataChannelEvent"@[7] == 'C' && "RTCDataChannelEvent"@[8] == 'h' && "RTCDataChannelEvent"@[9] == 'a' && "RTCDataChannelEvent"@[10] == 'n' && "RTCDataChannelEvent"@[11] == 'n' && "RTCDataChannelEvent"@[12] == 'e' && "RTCDataChannelEvent"@[13] == 'l' && "RTCDataChannelEvent"@[14] == 'E' && "RTCDataChannelEvent"@[15] == 'v' && "RTCDataChannelEvent"@[16] == 'e' && "RTCDataChannelEvent"@[17] == 'n' && "RTCDataChannelEvent"@[18] == 't');
    assert("RTCDTMFToneChangeEvent"@.len() == 22 && "RTCDTMFToneChangeEvent"@[0] == 'R' && "RTCDTMFToneChangeEvent"@[1] == 'T' && "RTCDTMFToneChangeEvent"@[2] == 'C' && "RTCDTMFToneChangeEvent"@[3] == 'D' && "RTCDTMFToneChangeEvent"@[4] == 'T' && "RTCDTMFToneChangeEvent"@[5] == 'M' && "RTCDTMFToneChangeEvent"@[6] == 'F' && "RTCDTMFToneChangeEvent"@[7] == 'T' && "RTCDTMFToneChangeEvent"@[8] == 'o' && "RTCDTMFToneChangeEvent"@[9] == 'n' && "RTCDTMFToneChangeEvent"@[10] == 'e' && "RTCDTMFToneChangeEvent"@[11] == 'C' && "RTCDTMFToneChangeEvent"@[12] == 'h' && "RTCDTMFToneChangeEvent"@[13] == 'a' && "RTCDTMFToneChangeEvent"@[14] == 'n' && "RTCDTMFToneChangeEvent"@[15] == 'g' && "RTCDTMFToneChangeEvent"@[16] == 'e' && "RTCDTMFToneChangeEvent"@[17] == 'E' && "RTCDTMFToneChangeEvent"@[18] == 'v' && "RTCDTMFToneChangeEvent"@[19] == 'e' && "RTCDTMFToneChangeEvent"@[20] == 'n' && "RTCDTMFToneChangeEvent"@[21] == 't');
    assert("RTCErrorEvent"@.len() == 13 && "RTCErrorEvent"@[0] == 'R' && "RTCErrorEvent"@[1] == 'T' && "RTCErrorEvent"@[2] == 'C' && "RTCErrorEvent"@[3] == 'E' && "RTCErrorEvent"@[4] == 'r' && "RTCErrorEvent"@[5] == 'r' && "RTCErrorEvent"@[6] == 'o' && "RTCErrorEvent"@[7] == 'r' && "RTCErrorEvent"@[8] == 'E' && "RTCErrorEvent"@[9] == 'v' && "RTCErrorEvent"@[10] == 'e' && "RTCErrorEvent"@[11] == 'n' && "RTCErrorEvent"@[12] == 't');
    assert("RTCPeerConnectionIceEvent"@.len() == 25 && "RTCPeerConnectionIceEvent"@[0] == 'R' && "RTCPeerConnectionIceEvent"@[1] == 'T' && "RTCPeerConnectionIceEvent"@[2] == 'C' && "RTCPeerConnectionIceEvent"@[3] == 'P' && "RTCPeerConnectionIceEvent"@[4] == 'e' && "RTCPeerConnectionIceEvent"@[5] == 'e' && "RTCPeerConnectionIceEvent"@[6] == 'r' && "RTCPeerConnectionIceEvent"@[7] == 'C' && "RTCPeerConnectionIceEvent"@[8] == 'o' && "RTCPeerConnectionIceEvent"@[9] == 'n' && "RTCPeerConnectionIceEvent"@[10] == 'n' && "RTCPeerConnectionIceEvent"@[11] == 'e' && "RTCPeerConnectionIceEvent"@[12] == 'c' && "RTCPeerConnectionIceEvent"@[13] == 't' && "RTCPeerConnectionIceEvent"@[14] == 'i' && "RTCPeerConnectionIceEvent"@[15] == 'o' && "RTCPeerConnectionIceEvent"@[16] == 'n' && "RTCPeerConnectionIceEvent"@[17] == 'I' && "RTCPeerConnectionIceEvent"@[18] == 'c' && "RTCPeerConnectionIceEvent"@[19] == 'e' && "RTCPeerConnectionIceEvent"@[20] == 'E' && "RTCPeerConnectionIceEvent"@[21] == 'v' && "RTCPeerConnectionIceEvent"@[22] == 'e' && "RTCPeerConnectionIceEvent"@[23] == 'n' && "RTCPeerConnectionIceEvent"@[24] == 't');
    assert("RTCPeerConnectionIceErrorEvent"@.len() == 30 && "RTCPeerConnectionIceErrorEvent"@[0] == 'R' && "RTCPeerConnectionIceErrorEvent"@[1] == 'T' && "RTCPeerConnectionIceErrorEvent"@[2] == 'C' && "RTCPeerConnectionIceErrorEvent"@[3] == 'P' && "RTCPeerConnectionIceErrorEvent"@[4] == 'e' && "RTCPeerConnectionIceErrorEvent"@[5] == 'e' && "RTCPeerConnectionIceErrorEvent"@[6] == 'r' && "RTCPeerConnectionIceErrorEvent"@[7] == 'C' && "RTCPeerConnectionIceErrorEvent"@[8] == 'o' && "RTCPeerConnectionIceErrorEvent"@[9] == 'n' && "RTCPeerConnectionIceErrorEvent"@[10] == 'n' && "RTCPeerConnectionIceErrorEvent"@[11] == 'e' && "RTCPeerConnectionIceErrorEvent"@[12] == 'c' && "RTCPeerConnectionIceErrorEvent"@[13] == 't' && "RTCPeerConnectionIceErrorEvent"@[14] == 'i' && "RTCPeerConnectionIceErrorEvent"@[15] == 'o' && "RTCPeerConnectionIceErrorEvent"@[16] == 'n' && "RTCPeerConnectionIceErrorEvent"@[17] == 'I' && "RTCPeerConnectionIceErrorEvent"@[18] == 'c' && "RTCPeerConnectionIceErrorEvent"@[19] == 'e' && "RTCPeerConnectionIceErrorEvent"@[20] == 'E' && "RTCPeerConnectionIceErrorEvent"@[21] == 'r' && "RTCPeerConnectionIceErrorEvent"@[22] == 'r' && "RTCPeerConnectionIceErrorEvent"@[23] == 'o' && "RTCPeerConnectionIceErrorEvent"@[24] == 'r' && "RTCPeerConnectionIceErrorEvent"@[25] == 'E' && "RTCPeerConnectionIceErrorEvent"@[26] == 'v' && "RTCPeerConnectionIceErrorEvent"@[27] == 'e' && "RTCPeerConnectionIceErrorEvent"@[28] == 'n' && "RTCPeerConnectionIceErrorEvent"@[29] == 't');
    assert("RTCTrackEvent"@.len() == 13 && "RTCTrackEvent"@[0] == 'R' && "RTCTrackEvent"@[1] == 'T' && "RTCTrackEvent"@[2] == 'C' && "RTCTrackEvent"@[3] == 'T' && "RTCTrackEvent"@[4] == 'r' && "RTCTrackEvent"@[5] == 'a' && "RTCTrackEvent"@[6] == 'c' && "RTCTrackEvent"@[7] == 'k' && "RTCTrackEvent"@[8] == 'E' && "RTCTrackEvent"@[9] == 'v' && "RTCTrackEvent"@[10] == 'e' && "RTCTrackEvent"@[11] == 'n' && "RTCTrackEvent"@[12] == 't');
    assert("RTCTransformEvent"@.len() == 17 && "RTCTransformEvent"@[0] == 'R' && "RTCTransformEvent"@[1] == 'T' && "RTCTransformEvent"@[2] == 'C' && "RTCTransformEvent"@[3] == 'T' && "RTCTransformEvent"@[4] == 'r' && "RTCTransformEvent"@[5] == 'a' && "RTCTransformEvent"@[6] == 'n' && "RTCTransformEvent"@[7] == 's' && "RTCTransformEvent"@[8] == 'f' && "RTCTransformEvent"@[9] == 'o' && "RTCTransformEvent"@[10] == 'r' && "RTCTransformEvent"@[11] == 'm' && "RTCTransformEvent"@[12] == 'E' && "RTCTransformEvent"@[13] == 'v' && "RTCTransformEvent"@[14] == 'e' && "RTCTransformEvent"@[15] == 'n' && "RTCTransformEvent"@[16] == 't');
    assert("XRInputSourceEvent"@.len() == 18 && "XRInputSourceEvent"@[0] == 'X' && "XRInputSourceEvent"@[1] == 'R' && "XRInputSourceEvent"@[2] == 'I' && "XRInputSourceEvent"@[3] == 'n' && "XRInputSourceEvent"@[4] == 'p' && "XRInputSourceEvent"@[5] == 'u' && "XRInputSourceEvent"@[6] == 't' && "XRInputSourceEvent"@[7] == 'S' && "XRInputSourceEvent"@[8] == 'o' && "XRInputSourceEvent"@[9] == 'u' && "XRInputSourceEvent"@[10] == 'r' && "XRInputSourceEvent"@[11] == 'c' && "XRInputSourceEvent"@[12] == 'e' && "XRInputSourceEvent"@[13] == 'E' && "XRInputSourceEvent"@[14] == 'v' && "XRInputSourceEvent"@[15] == 'e' && "XRInputSourceEvent"@[16] == 'n' && "XRInputSourceEvent"@[17] == 't');
    assert("XRInputSourcesChangeEvent"@.len() == 25 && "XRInputSourcesChangeEvent"@[0] == 'X' && "XRInputSourcesChangeEvent"@[1] == 'R' && "XRInputSourcesChangeEvent"@[2] == 'I' && "XRInputSourcesChangeEvent"@[3] == 'n' && "XRInputSourcesChangeEvent"@[4] == 'p' && "XRInputSourcesChangeEvent"@[5] == 'u' && "XRInputSourcesChangeEvent"@[6] == 't' && "XRInputSourcesChangeEvent"@[7] == 'S' && "XRInputSourcesChangeEvent"@[8] == 'o' && "XRInputSourcesChangeEvent"@[9] == 'u' && "XRInputSourcesChangeEvent"@[10] == 'r' && "XRInputSourcesChangeEvent"@[11] == 'c' && "XRInputSourcesChangeEvent"@[12] == 'e' && "XRInputSourcesChangeEvent"@[13] == 's' && "XRInputSourcesChangeEvent"@[14] == 'C' && "XRInputSourcesChangeEvent"@[15] == 'h' && "XRInputSourcesChangeEvent"@[16] == 'a' && "XRInputSourcesChangeEvent"@[17] == 'n' && "XRInputSourcesChangeEvent"@[18] == 'g' && "XRInputSourcesChangeEvent"@[19] == 'e' && "XRInputSourcesChangeEvent"@[20] == 'E' && "XRInputSourcesChangeEvent"@[21] == 'v' && "XRInputSourcesChangeEvent"@[22] == 'e' && "XRInputSourcesChangeEvent"@[23] == 'n' && "XRInputSourcesChangeEvent"@[24] == 't');
    assert("XRLayerEvent"@.len() == 12 && "XRLayerEvent"@[0] == 'X' && "XRLayerEvent"@[1] == 'R' && "XRLayerEvent"@[2] == 'L' && "XRLayerEvent"@[3] == 'a' && "XRLayerEvent"@[4] == 'y' && "XRLayerEvent"@[5] == 'e' && "XRLayerEvent"@[6] == 'r' && "XRLayerEvent"@[7] == 'E' && "XRLayerEvent"@[8] == 'v' && "XRLayerEvent"@[9] == 'e' && "XRLayerEvent"@[10] == 'n' && "XRLayerEvent"@[11] == 't');
    assert("XRReferenceSpaceEvent"@.len() == 21 && "XRReferenceSpaceEvent"@[0] == 'X' && "XRReferenceSpaceEvent"@[1] == 'R' && "XRReferenceSpaceEvent"@[2] == 'R' && "XRReferenceSpaceEvent"@[3] == 'e' && "XRReferenceSpaceEvent"@[4] == 'f' && "XRReferenceSpaceEvent"@[5] == 'e' && "XRReferenceSpaceEvent"@[6] == 'r' && "XRReferenceSpaceEvent"@[7] == 'e' && "XRReferenceSpaceEvent"@[8] == 'n' && "XRReferenceSpaceEvent"@[9] == 'c' && "XRReferenceSpaceEvent"@[10] == 'e' && "XRReferenceSpaceEvent"@[11] == 'S' && "XRReferenceSpaceEvent"@[12] == 'p' && "XRReferenceSpaceEvent"@[13] == 'a' && "XRReferenceSpaceEvent"@[14] == 'c' && "XRReferenceSpaceEvent"@[15] == 'e' && "XRReferenceSpaceEvent"@[16] == 'E' && "XRReferenceSpaceEvent"@[17] == 'v' && "XRReferenceSpaceEvent"@[18] == 'e' && "XRReferenceSpaceEvent"@[19] == 'n' && "XRReferenceSpaceEvent"@[20] == 't');
    assert("XRSessionEvent"@.len() == 14 && "XRSessionEvent"@[0] == 'X' && "XRSessionEvent"@[1] == 'R' && "XRSessionEvent"@[2] == 'S' && "XRSessionEvent"@[3] == 'e' && "XRSessionEvent"@[4] == 's' && "XRSessionEvent"@[5] == 's' && "XRSessionEvent"@[6] == 'i' && "XRSessionEvent"@[7] == 'o' && "XRSessionEvent"@[8] == 'n' && "XRSessionEvent"@[9] == 'E' && "XRSessionEvent"@[10] == 'v' && "XRSessionEvent"@[11] == 'e' && "XRSessionEvent"@[12] == 'n' && "XRSessionEvent"@[13] == 't');
    assert("XRVisibilityMaskChangeEvent"@.len() == 27 && "XRVisibilityMaskChangeEvent"@[0] == 'X' && "XRVisibilityMaskChangeEvent"@[1] == 'R' && "XRVisibilityMaskChangeEvent"@[2] == 'V' && "XRVisibilityMaskChangeEvent"@[3] == 'i' && "XRVisibilityMaskChangeEvent"@[4] == 's' && "XRVisibilityMaskChangeEvent"@[5] == 'i' && "XRVisibilityMaskChangeEvent"@[6] == 'b' && "XRVisibilityMaskChangeEvent"@[7] == 'i' && "XRVisibilityMaskChangeEvent"@[8] == 'l' && "XRVisibilityMaskChangeEvent"@[9] == 'i' && "XRVisibilityMaskChangeEvent"@[10] == 't' && "XRVisibilityMaskChangeEvent"@[11] == 'y' && "XRVisibilityMaskChangeEvent"@[12] == 'M' && "XRVisibilityMaskChangeEvent"@[13] == 'a' && "XRVisibilityMaskChangeEvent"@[14] == 's' && "XRVisibilityMaskChangeEvent"@[15] == 'k' && "XRVisibilityMaskChangeEvent"@[16] == 'C' && "XRVisibilityMaskChangeEvent"@[17] == 'h' && "XRVisibilityMaskChangeEvent"@[18] == 'a' && "XRVisibilityMaskChangeEvent"@[19] == 'n' && "XRVisibilityMaskChangeEvent"@[20] == 'g' && "XRVisibilityMaskChangeEvent"@[21] == 'e' && "XRVisibilityMaskChangeEvent"@[22] == 'E' && "XRVisibilityMaskChangeEvent"@[23] == 'v' && "XRVisibilityMaskChangeEvent"@[24] == 'e' && "XRVisibilityMaskChangeEvent"@[25] == 'n' && "XRVisibilityMaskChangeEvent"@[26] == 't');
    assert("SpeechRecognitionEvent"@.len() == 22 && "SpeechRecognitionEvent"@[0] == 'S' && "SpeechRecognitionEvent"@[1] == 'p' && "SpeechRecognitionEvent"@[2] == 'e' && "SpeechRecognitionEvent"@[3] == 'e' && "SpeechRecognitionEvent"@[4] == 'c' && "SpeechRecognitionEvent"@[5] == 'h' && "SpeechRecognitionEvent"@[6] == 'R' && "SpeechRecognitionEvent"@[7] == 'e' && "SpeechRecognitionEvent"@[8] == 'c' && "SpeechRecognitionEvent"@[9] == 'o' && "SpeechRecognitionEvent"@[10] == 'g' && "SpeechRecognitionEvent"@[11] == 'n' && "SpeechRecognitionEvent"@[12] == 'i' && "SpeechRecognitionEvent"@[13] == 't' && "SpeechRecognitionEvent"@[14] == 'i' && "SpeechRecognitionEvent"@[15] == 'o' && "SpeechRecognitionEvent"@[16] == 'n' && "SpeechRecognitionEvent"@[17] == 'E' && "SpeechRecognitionEvent"@[18] == 'v' && "SpeechRecognitionEvent"@[19] == 'e' && "SpeechRecognitionEvent"@[20] == 'n' && "SpeechRecognitionEvent"@[21] == 't');
    assert("SpeechRecognitionErrorEvent"@.len() == 27 && "SpeechRecognitionErrorEvent"@[0] == 'S' && "SpeechRecognitionErrorEvent"@[1] == 'p' && "SpeechRecognitionErrorEvent"@[2] == 'e' && "SpeechRecognitionErrorEvent"@[3] == 'e' && "SpeechRecognitionErrorEvent"@[4] == 'c' && "SpeechRecognitionErrorEvent"@[5] == 'h' && "SpeechRecognitionErrorEvent"@[6] == 'R' && "SpeechRecognitionErrorEvent"@[7] == 'e' && "SpeechRecognitionErrorEvent"@[8] == 'c' && "SpeechRecognitionErrorEvent"@[9] == 'o' && "SpeechRecognitionErrorEvent"@[10] == 'g' && "SpeechRecognitionErrorEvent"@[11] == 'n' && "SpeechRecognitionErrorEvent"@[12] == 'i' && "SpeechRecognitionErrorEvent"@[13] == 't' && "SpeechRecognitionErrorEvent"@[14] == 'i' && "SpeechRecognitionErrorEvent"@[15] == 'o' && "SpeechRecognitionErrorEvent"@[16] == 'n' && "SpeechRecognitionErrorEvent"@[17] == 'E' && "SpeechRecognitionErrorEvent"@[18] == 'r' && "SpeechRecognitionErrorEvent"@[19] == 'r' && "SpeechRecognitionErrorEvent"@[20] == 'o' && "SpeechRecognitionErrorEvent"@[21] == 'r' && "SpeechRecognitionErrorEvent"@[22] == 'E' && "SpeechRecognitionErrorEvent"@[23] == 'v' && "SpeechRecognitionErrorEvent"@[24] == 'e' && "SpeechRecognitionErrorEvent"@[25] == 'n' && "SpeechRecognitionErrorEvent"@[26] == 't');
    assert("SpeechSynthesisEvent"@.len() == 20 && "SpeechSynthesisEvent"@[0] == 'S' && "SpeechSynthesisEvent"@[1] == 'p' && "SpeechSynthesisEvent"@[2] == 'e' && "SpeechSynthesisEvent"@[3] == 'e' && "SpeechSynthesisEvent"@[4] == 'c' && "SpeechSynthesisEvent"@[5] == 'h' && "SpeechSynthesisEvent"@[6] == 'S' && "SpeechSynthesisEvent"@[7] == 'y' && "SpeechSynthesisEvent"@[8] == 'n' && "SpeechSynthesisEvent"@[9] == 't' && "SpeechSynthesisEvent"@[10] == 'h' && "SpeechSynthesisEvent"@[11] == 'e' && "SpeechSynthesisEvent"@[12] == 's' && "SpeechSynthesisEvent"@[13] == 'i' && "SpeechSynthesisEvent"@[14] == 's' && "SpeechSynthesisEvent"@[15] == 'E' && "SpeechSynthesisEvent"@[16] == 'v' && "SpeechSynthesisEvent"@[17] == 'e' && "SpeechSynthesisEvent"@[18] == 'n' && "SpeechSynthesisEvent"@[19] == 't');
    assert("SpeechSynthesisErrorEvent"@.len() == 25 && "SpeechSynthesisErrorEvent"@[0] == 'S' && "SpeechSynthesisErrorEvent"@[1] == 'p' && "SpeechSynthesisErrorEvent"@[2] == 'e' && "SpeechSynthesisErrorEvent"@[3] == 'e' && "SpeechSynthesisErrorEvent"@[4] == 'c' && "SpeechSynthesisErrorEvent"@[5] == 'h' && "SpeechSynthesisErrorEvent"@[6] == 'S' && "SpeechSynthesisErrorEvent"@[7] == 'y' && "SpeechSynthesisErrorEvent"@[8] == 'n' && "SpeechSynthesisErrorEvent"@[9] == 't' && "SpeechSynthesisErrorEvent"@[10] == 'h' && "SpeechSynthesisErrorEvent"@[11] == 'e' && "SpeechSynthesisErrorEvent"@[12] == 's' && "SpeechSynthesisErrorEvent"@[13] == 'i' && "SpeechSynthesisErrorEvent"@[14] == 's' && "SpeechSynthesisErrorEvent"@[15] == 'E' && "SpeechSynthesisErrorEvent"@[16] == 'r' && "SpeechSynthesisErrorEvent"@[17] == 'r' && "SpeechSynthesisErrorEvent"@[18] == 'o' && "SpeechSynthesisErrorEvent"@[19] == 'r' && "SpeechSynthesisErrorEvent"@[20] == 'E' && "SpeechSynthesisErrorEvent"@[21] == 'v' && "SpeechSynthesisErrorEvent"@[22] == 'e' && "SpeechSynthesisErrorEvent"@[23] == 'n' && "SpeechSynthesisErrorEvent"@[24] == 't');
    assert("AudioProcessingEvent"@.len() == 20 && "AudioProcessingEvent"@[0] == 'A' && "AudioProcessingEvent"@[1] == 'u' && "AudioProcessingEvent"@[2] == 'd' && "AudioProcessingEvent"@[3] == 'i' && "AudioProcessingEvent"@[4] == 'o' && "AudioProcessingEvent"@[5] == 'P' && "AudioProcessingEvent"@[6] == 'r' && "AudioProcessingEvent"@[7] == 'o' && "AudioProcessingEvent"@[8] == 'c' && "AudioProcessingEvent"@[9] == 'e' && "AudioProcessingEvent"@[10] == 's' && "AudioProcessingEvent"@[11] == 's' && "AudioProcessingEvent"@[12] == 'i' && "AudioProcessingEvent"@[13] == 'n' && "AudioProcessingEvent"@[14] == 'g' && "AudioProcessingEvent"@[15] == 'E' && "AudioProcessingEvent"@[16] == 'v' && "AudioProcessingEvent"@[17] == 'e' && "AudioProcessingEvent"@[18] == 'n' && "AudioProcessingEvent"@[19] == 't');
    assert("OfflineAudioCompletionEvent"@.len() == 27 && "OfflineAudioCompletionEvent"@[0] == 'O' && "OfflineAudioCompletionEvent"@[1] == 'f' && "OfflineAudioCompletionEvent"@[2] == 'f' && "OfflineAudioCompletionEvent"@[3] == 'l' && "OfflineAudioCompletionEvent"@[4] == 'i' && "OfflineAudioCompletionEvent"@[5] == 'n' && "OfflineAudioCompletionEvent"@[6] == 'e' && "OfflineAudioCompletionEvent"@[7] == 'A' && "OfflineAudioCompletionEvent"@[8] == 'u' && "OfflineAudioCompletionEvent"@[9] == 'd' && "OfflineAudioCompletionEvent"@[10] == 'i' && "OfflineAudioCompletionEvent"@[11] == 'o' && "OfflineAudioCompletionEvent"@[12] == 'C' && "OfflineAudioCompletionEvent"@[13] == 'o' && "OfflineAudioCompletionEvent"@[14] == 'm' && "OfflineAudioCompletionEvent"@[15] == 'p' && "OfflineAudioCompletionEvent"@[16] == 'l' && "OfflineAudioCompletionEvent"@[17] == 'e' && "OfflineAudioCompletionEvent"@[18] == 't' && "OfflineAudioCompletionEvent"@[19] == 'i' && "OfflineAudioCompletionEvent"@[20] == 'o' && "OfflineAudioCompletionEvent"@[21] == 'n' && "OfflineAudioCompletionEvent"@[22] == 'E' && "OfflineAudioCompletionEvent"@[23] == 'v' && "OfflineAudioCompletionEvent"@[24] == 'e' && "OfflineAudioCompletionEvent"@[25] == 'n' && "OfflineAudioCompletionEvent"@[26] == 't');
    assert("MIDIConnectionEvent"@.len() == 19 && "MIDIConnectionEvent"@[0] == 'M' && "MIDIConnectionEvent"@[1] == 'I' && "MIDIConnectionEvent"@[2] == 'D' && "MIDIConnectionEvent"@[3] == 'I' && "MIDIConnectionEvent"@[4] == 'C' && "MIDIConnectionEvent"@[5] == 'o' && "MIDIConnectionEvent"@[6] == 'n' && "MIDIConnectionEvent"@[7] == 'n' && "MIDIConnectionEvent"@[8] == 'e' && "MIDIConnectionEvent"@[9] == 'c' && "MIDIConnectionEvent"@[10] == 't' && "MIDIConnectionEvent"@[11] == 'i' && "MIDIConnectionEvent"@[12] == 'o' && "MIDIConnectionEvent"@[13] == 'n' && "MIDIConnectionEvent"@[14] == 'E' && "MIDIConnectionEvent"@[15] == 'v' && "MIDIConnectionEvent"@[16] == 'e' && "MIDIConnectionEvent"@[17] == 'n' && "MIDIConnectionEvent"@[18] == 't');
    assert("MIDIMessageEvent"@.len() == 16 && "MIDIMessageEvent"@[0] == 'M' && "MIDIMessageEvent"@[1] == 'I' && "MIDIMessageEvent"@[2] == 'D' && "MIDIMessageEvent"@[3] == 'I' && "MIDIMessageEvent"@[4] == 'M' && "MIDIMessageEvent"@[5] == 'e' && "MIDIMessageEvent"@[6] == 's' && "MIDIMessageEvent"@[7] == 's' && "MIDIMessageEvent"@[8] == 'a' && "MIDIMessageEvent"@[9] == 'g' && "MIDIMessageEvent"@[10] == 'e' && "MIDIMessageEvent"@[11] == 'E' && "MIDIMessageEvent"@[12] == 'v' && "MIDIMessageEvent"@[13] == 'e' && "MIDIMessageEvent"@[14] == 'n' && "MIDIMessageEvent"@[15] == 't');
    assert("PaymentRequestEvent"@.len() == 19 && "PaymentRequestEvent"@[0] == 'P' && "PaymentRequestEvent"@[1] == 'a' && "PaymentRequestEvent"@[2] == 'y' && "PaymentRequestEvent"@[3] == 'm' && "PaymentRequestEvent"@[4] == 'e' && "PaymentRequestEvent"@[5] == 'n' && "PaymentRequestEvent"@[6] == 't' && "PaymentRequestEvent"@[7] == 'R' && "PaymentRequestEvent"@[8] == 'e' && "PaymentRequestEvent"@[9] == 'q' && "PaymentRequestEvent"@[10] == 'u' && "PaymentRequestEvent"@[11] == 'e' && "PaymentRequestEvent"@[12] == 's' && "PaymentRequestEvent"@[13] == 't' && "PaymentRequestEvent"@[14] == 'E' && "PaymentRequestEvent"@[15] == 'v' && "PaymentRequestEvent"@[16] == 'e' && "PaymentRequestEvent"@[17] == 'n' && "PaymentRequestEvent"@[18] == 't');
    assert("PaymentRequestUpdateEvent"@.len() == 25 && "PaymentRequestUpdateEvent"@[0] == 'P' && "PaymentRequestUpdateEvent"@[1] == 'a' && "PaymentRequestUpdateEvent"@[2] == 'y' && "PaymentRequestUpdateEvent"@[3] == 'm' && "PaymentRequestUpdateEvent"@[4] == 'e' && "PaymentRequestUpdateEvent"@[5] == 'n' && "PaymentRequestUpdateEvent"@[6] == 't' && "PaymentRequestUpdateEvent"@[7] == 'R' && "PaymentRequestUpdateEvent"@[8] == 'e' && "PaymentRequestUpdateEvent"@[9] == 'q' && "PaymentRequestUpdateEvent"@[10] == 'u' && "PaymentRequestUpdateEvent"@[11] == 'e' && "PaymentRequestUpdateEvent"@[12] == 's' && "PaymentRequestUpdateEvent"@[13] == 't' && "PaymentRequestUpdateEvent"@[14] == 'U' && "PaymentRequestUpdateEvent"@[15] == 'p' && "PaymentRequestUpdateEvent"@[16] == 'd' && "PaymentRequestUpdateEvent"@[17] == 'a' && "PaymentRequestUpdateEvent"@[18] == 't' && "PaymentRequestUpdateEvent"@[19] == 'e' && "PaymentRequestUpdateEvent"@[20] == 'E' && "PaymentRequestUpdateEvent"@[21] == 'v' && "PaymentRequestUpdateEvent"@[22] == 'e' && "PaymentRequestUpdateEvent"@[23] == 'n' && "PaymentRequestUpdateEvent"@[24] == 't');
    assert("PaymentMethodChangeEvent"@.len() == 24 && "PaymentMethodChangeEvent"@[0] == 'P' && "PaymentMethodChangeEvent"@[1] == 'a' && "PaymentMethodChangeEvent"@[2] == 'y' && "PaymentMethodChangeEvent"@[3] == 'm' && "PaymentMethodChangeEvent"@[4] == 'e' && "PaymentMethodChangeEvent"@[5] == 'n' && "PaymentMethodChangeEvent"@[6] == 't' && "PaymentMethodChangeEvent"@[7] == 'M' && "PaymentMethodChangeEvent"@[8] == 'e' && "PaymentMethodChangeEvent"@[9] == 't' && "PaymentMethodChangeEvent"@[10] == 'h' && "PaymentMethodChangeEvent"@[11] == 'o' && "PaymentMethodChangeEvent"@[12] == 'd' && "PaymentMethodChangeEvent"@[13] == 'C' && "PaymentMethodChangeEvent"@[14] == 'h' && "PaymentMethodChangeEvent"@[15] == 'a' && "PaymentMethodChangeEvent"@[16] == 'n' && "PaymentMethodChangeEvent"@[17] == 'g' && "PaymentMethodChangeEvent"@[18] == 'e' && "PaymentMethodChangeEvent"@[19] == 'E' && "PaymentMethodChangeEvent"@[20] == 'v' && "PaymentMethodChangeEvent"@[21] == 'e' && "PaymentMethodChangeEvent"@[22] == 'n' && "PaymentMethodChangeEvent"@[23] == 't');
    assert("CanMakePaymentEvent"@.len() == 19 && "CanMakePaymentEvent"@[0] == 'C' && "CanMakePaymentEvent"@[1] == 'a' && "CanMakePaymentEvent"@[2] == 'n' && "CanMakePaymentEvent"@[3] == 'M' && "CanMakePaymentEvent"@[4] == 'a' && "CanMakePaymentEvent"@[5] == 'k' && "CanMakePaymentEvent"@[6] == 'e' && "CanMakePaymentEvent"@[7] == 'P' && "CanMakePaymentEvent"@[8] == 'a' && "CanMakePaymentEvent"@[9] == 'y' && "CanMakePaymentEvent"@[10] == 'm' && "CanMakePaymentEvent"@[11] == 'e' && "CanMakePaymentEvent"@[12] == 'n' && "CanMakePaymentEvent"@[13] == 't' && "CanMakePaymentEvent"@[14] == 'E' && "CanMakePaymentEvent"@[15] == 'v' && "CanMakePaymentEvent"@[16] == 'e' && "CanMakePaymentEvent"@[17] == 'n' && "CanMakePaymentEvent"@[18] == 't');
    assert("PresentationConnectionAvailableEvent"@.len() == 36 && "PresentationConnectionAvailableEvent"@[0] == 'P' && "PresentationConnectionAvailableEvent"@[1] == 'r' && "PresentationConnectionAvailableEvent"@[2] == 'e' && "PresentationConnectionAvailableEvent"@[3] == 's' && "PresentationConnectionAvailableEvent"@[4] == 'e' && "PresentationConnectionAvailableEvent"@[5] == 'n' && "PresentationConnectionAvailableEvent"@[6] == 't' && "PresentationConnectionAvailableEvent"@[7] == 'a' && "PresentationConnectionAvailableEvent"@[8] == 't' && "PresentationConnectionAvailableEvent"@[9] == 'i' && "PresentationConnectionAvailableEvent"@[10] == 'o' && "PresentationConnectionAvailableEvent"@[11] == 'n' && "PresentationConnectionAvailableEvent"@[12] == 'C' && "PresentationConnectionAvailableEvent"@[13] == 'o' && "PresentationConnectionAvailableEvent"@[14] == 'n' && "PresentationConnectionAvailableEvent"@[15] == 'n' && "PresentationConnectionAvailableEvent"@[16] == 'e' && "PresentationConnectionAvailableEvent"@[17] == 'c' && "PresentationConnectionAvailableEvent"@[18] == 't' && "PresentationConnectionAvailableEvent"@[19] == 'i' && "PresentationConnectionAvailableEvent"@[20] == 'o' && "PresentationConnectionAvailableEvent"@[21] == 'n' && "PresentationConnectionAvailableEvent"@[22] == 'A' && "PresentationConnectionAvailableEvent"@[23] == 'v' && "PresentationConnectionAvailableEvent"@[24] == 'a' && "PresentationConnectionAvailableEvent"@[25] == 'i' && "PresentationConnectionAvailableEvent"@[26] == 'l' && "PresentationConnectionAvailableEvent"@[27] == 'a' && "PresentationConnectionAvailableEvent"@[28] == 'b' && "PresentationConnectionAvailableEvent"@[29] == 'l' && "PresentationConnectionAvailableEvent"@[30] == 'e' && "PresentationConnectionAvailableEvent"@[31] == 'E' && "PresentationConnectionAvailableEvent"@[32] == 'v' && "PresentationConnectionAvailableEvent"@[33] == 'e' && "PresentationConnectionAvailableEvent"@[34] == 'n' && "PresentationConnectionAvailableEvent"@[35] == 't');
    assert("PresentationConnectionCloseEvent"@.len() == 32 && "PresentationConnectionCloseEvent"@[0] == 'P' && "PresentationConnectionCloseEvent"@[1] == 'r' && "PresentationConnectionCloseEvent"@[2] == 'e' && "PresentationConnectionCloseEvent"@[3] == 's' && "PresentationConnectionCloseEvent"@[4] == 'e' && "PresentationConnectionCloseEvent"@[5] == 'n' && "PresentationConnectionCloseEvent"@[6] == 't' && "PresentationConnectionCloseEvent"@[7] == 'a' && "PresentationConnectionCloseEvent"@[8] == 't' && "PresentationConnectionCloseEvent"@[9] == 'i' && "PresentationConnectionCloseEvent"@[10] == 'o' && "PresentationConnectionCloseEvent"@[11] == 'n' && "PresentationConnectionCloseEvent"@[12] == 'C' && "PresentationConnectionCloseEvent"@[13] == 'o' && "PresentationConnectionCloseEvent"@[14] == 'n' && "PresentationConnectionCloseEvent"@[15] == 'n' && "PresentationConnectionCloseEvent"@[16] == 'e' && "PresentationConnectionCloseEvent"@[17] == 'c' && "PresentationConnectionCloseEvent"@[18] == 't' && "PresentationConnectionCloseEvent"@[19] == 'i' && "PresentationConnectionCloseEvent"@[20] == 'o' && "PresentationConnectionCloseEvent"@[21] == 'n' && "PresentationConnectionCloseEvent"@[22] == 'C' && "PresentationConnectionCloseEvent"@[23] == 'l' && "PresentationConnectionCloseEvent"@[24] == 'o' && "PresentationConnectionCloseEvent"@[25] == 's' && "PresentationConnectionCloseEvent"@[26] == 'e' && "PresentationConnectionCloseEvent"@[27] == 'E' && "PresentationConnectionCloseEvent"@[28] == 'v' && "PresentationConnectionCloseEvent"@[29] == 'e' && "PresentationConnectionCloseEvent"@[30] == 'n' && "PresentationConnectionCloseEvent"@[31] == 't');
    assert("BluetoothAdvertisingEvent"@.len() == 25 && "BluetoothAdvertisingEvent"@[0] == 'B' && "BluetoothAdvertisingEvent"@[1] == 'l' && "BluetoothAdvertisingEvent"@[2] == 'u' && "BluetoothAdvertisingEvent"@[3] == 'e' && "BluetoothAdvertisingEvent"@[4] == 't' && "BluetoothAdvertisingEvent"@[5] == 'o' && "BluetoothAdvertisingEvent"@[6] == 'o' && "BluetoothAdvertisingEvent"@[7] == 't' && "BluetoothAdvertisingEvent"@[8] == 'h' && "BluetoothAdvertisingEvent"@[9] == 'A' && "BluetoothAdvertisingEvent"@[10] == 'd' && "BluetoothAdvertisingEvent"@[11] == 'v' && "BluetoothAdvertisingEvent"@[12] == 'e' && "BluetoothAdvertisingEvent"@[13] == 'r' && "BluetoothAdvertisingEvent"@[14] == 't' && "BluetoothAdvertisingEvent"@[15] == 'i' && "BluetoothAdvertisingEvent"@[16] == 's' && "BluetoothAdvertisingEvent"@[17] == 'i' && "BluetoothAdvertisingEvent"@[18] == 'n' && "BluetoothAdvertisingEvent"@[19] == 'g' && "BluetoothAdvertisingEvent"@[20] == 'E' && "BluetoothAdvertisingEvent"@[21] == 'v' && "BluetoothAdvertisingEvent"@[22] == 'e' && "BluetoothAdvertisingEvent"@[23] == 'n' && "BluetoothAdvertisingEvent"@[24] == 't');
    assert("HIDConnectionEvent"@.len() == 18 && "HIDConnectionEvent"@[0] == 'H' && "HIDConnectionEvent"@[1] == 'I' && "HIDConnectionEvent"@[2] == 'D' && "HIDConnectionEvent"@[3] == 'C' && "HIDConnectionEvent"@[4] == 'o' && "HIDConnectionEvent"@[5] == 'n' && "HIDConnectionEvent"@[6] == 'n' && "HIDConnectionEvent"@[7] == 'e' && "HIDConnectionEvent"@[8] == 'c' && "HIDConnectionEvent"@[9] == 't' && "HIDConnectionEvent"@[10] == 'i' && "HIDConnectionEvent"@[11] == 'o' && "HIDConnectionEvent"@[12] == 'n' && "HIDConnectionEvent"@[13] == 'E' && "HIDConnectionEvent"@[14] == 'v' && "HIDConnectionEvent"@[15] == 'e' && "HIDConnectionEvent"@[16] == 'n' && "HIDConnectionEvent"@[17] == 't');
    assert("HIDInputReportEvent"@.len() == 19 && "HIDInputReportEvent"@[0] == 'H' && "HIDInputReportEvent"@[1] == 'I' && "HIDInputReportEvent"@[2] == 'D' && "HIDInputReportEvent"@[3] == 'I' && "HIDInputReportEvent"@[4] == 'n' && "HIDInputReportEvent"@[5] == 'p' && "HIDInputReportEvent"@[6] == 'u' && "HIDInputReportEvent"@[7] == 't' && "HIDInputReportEvent"@[8] == 'R' && "HIDInputReportEvent"@[9] == 'e' && "HIDInputReportEvent"@[10] == 'p' && "HIDInputReportEvent"@[11] == 'o' && "HIDInputReportEvent"@[12] == 'r' && "HIDInputReportEvent"@[13] == 't' && "HIDInputReportEvent"@[14] == 'E' && "HIDInputReportEvent"@[15] == 'v' && "HIDInputReportEvent"@[16] == 'e' && "HIDInputReportEvent"@[17] == 'n' && "HIDInputReportEvent"@[18] == 't');
    assert("USBConnectionEvent"@.len() == 18 && "USBConnectionEvent"@[0] == 'U' && "USBConnectionEvent"@[1] == 'S' && "USBConnectionEvent"@[2] == 'B' && "USBConnectionEvent"@[3] == 'C' && "USBConnectionEvent"@[4] == 'o' && "USBConnectionEvent"@[5] == 'n' && "USBConnectionEvent"@[6] == 'n' && "USBConnectionEvent"@[7] == 'e' && "USBConnectionEvent"@[8] == 'c' && "USBConnectionEvent"@[9] == 't' && "USBConnectionEvent"@[10] == 'i' && "USBConnectionEvent"@[11] == 'o' && "USBConnectionEvent"@[12] == 'n' && "USBConnectionEvent"@[13] == 'E' && "USBConnectionEvent"@[14] == 'v' && "USBConnectionEvent"@[15] == 'e' && "USBConnectionEvent"@[16] == 'n' && "USBConnectionEvent"@[17] == 't');
    assert("NDEFReadingEvent"@.len() == 16 && "NDEFReadingEvent"@[0] == 'N' && "NDEFReadingEvent"@[1] == 'D' && "NDEFReadingEvent"@[2] == 'E' && "NDEFReadingEvent"@[3] == 'F' && "NDEFReadingEvent"@[4] == 'R' && "NDEFReadingEvent"@[5] == 'e' && "NDEFReadingEvent"@[6] == 'a' && "NDEFReadingEvent"@[7] == 'd' && "NDEFReadingEvent"@[8] == 'i' && "NDEFReadingEvent"@[9] == 'n' && "NDEFReadingEvent"@[10] == 'g' && "NDEFReadingEvent"@[11] == 'E' && "NDEFReadingEvent"@[12] == 'v' && "NDEFReadingEvent"@[13] == 'e' && "NDEFReadingEvent"@[14] == 'n' && "NDEFReadingEvent"@[15] == 't');
    assert("WebGLContextEvent"@.len() == 17 && "WebGLContextEvent"@[0] == 'W' && "WebGLContextEvent"@[1] == 'e' && "WebGLContextEvent"@[2] == 'b' && "WebGLContextEvent"@[3] == 'G' && "WebGLContextEvent"@[4] == 'L' && "WebGLContextEvent"@[5] == 'C' && "WebGLContextEvent"@[6] == 'o' && "WebGLContextEvent"@[7] == 'n' && "WebGLContextEvent"@[8] == 't' && "WebGLContextEvent"@[9] == 'e' && "WebGLContextEvent"@[10] == 'x' && "WebGLContextEvent"@[11] == 't' && "WebGLContextEvent"@[12] == 'E' && "WebGLContextEvent"@[13] == 'v' && "WebGLContextEvent"@[14] == 'e' && "WebGLContextEvent"@[15] == 'n' && "WebGLContextEvent"@[16] == 't');
    assert("GPUUncapturedErrorEvent"@.len() == 23 && "GPUUncapturedErrorEvent"@[0] == 'G' && "GPUUncapturedErrorEvent"@[1] == 'P' && "GPUUncapturedErrorEvent"@[2] == 'U' && "GPUUncapturedErrorEvent"@[3] == 'U' && "GPUUncapturedErrorEvent"@[4] == 'n' && "GPUUncapturedErrorEvent"@[5] == 'c' && "GPUUncapturedErrorEvent"@[6] == 'a' && "GPUUncapturedErrorEvent"@[7] == 'p' && "GPUUncapturedErrorEvent"@[8] == 't' && "GPUUncapturedErrorEvent"@[9] == 'u' && "GPUUncapturedErrorEvent"@[10] == 'r' && "GPUUncapturedErrorEvent"@[11] == 'e' && "GPUUncapturedErrorEvent"@[12] == 'd' && "GPUUncapturedErrorEvent"@[13] == 'E' && "GPUUncapturedErrorEvent"@[14] == 'r' && "GPUUncapturedErrorEvent"@[15] == 'r' && "GPUUncapturedErrorEvent"@[16] == 'o' && "GPUUncapturedErrorEvent"@[17] == 'r' && "GPUUncapturedErrorEvent"@[18] == 'E' && "GPUUncapturedErrorEvent"@[19] == 'v' && "GPUUncapturedErrorEvent"@[20] == 'e' && "GPUUncapturedErrorEvent"@[21] == 'n' && "GPUUncapturedErrorEvent"@[22] == 't');
    assert("FontFaceSetLoadEvent"@.len() == 20 && "FontFaceSetLoadEvent"@[0] == 'F' && "FontFaceSetLoadEvent"@[1] == 'o' && "FontFaceSetLoadEvent"@[2] == 'n' && "FontFaceSetLoadEvent"@[3] == 't' && "FontFaceSetLoadEvent"@[4] == 'F' && "FontFaceSetLoadEvent"@[5] == 'a' && "FontFaceSetLoadEvent"@[6] == 'c' && "FontFaceSetLoadEvent"@[7] == 'e' && "FontFaceSetLoadEvent"@[8] == 'S' && "FontFaceSetLoadEvent"@[9] == 'e' && "FontFaceSetLoadEvent"@[10] == 't' && "FontFaceSetLoadEvent"@[11] == 'L' && "FontFaceSetLoadEvent"@[12] == 'o' && "FontFaceSetLoadEvent"@[13] == 'a' && "FontFaceSetLoadEvent"@[14] == 'd' && "FontFaceSetLoadEvent"@[15] == 'E' && "FontFaceSetLoadEvent"@[16] == 'v' && "FontFaceSetLoadEvent"@[17] == 'e' && "FontFaceSetLoadEvent"@[18] == 'n' && "FontFaceSetLoadEvent"@[19] == 't');
    assert("TextEvent"@.len() == 9 && "TextEvent"@[0] == 'T' && "TextEvent"@[1] == 'e' && "TextEvent"@[2] == 'x' && "TextEvent"@[3] == 't' && "TextEvent"@[4] == 'E' && "TextEvent"@[5] == 'v' && "TextEvent"@[6] == 'e' && "TextEvent"@[7] == 'n' && "TextEvent"@[8] == 't');
    assert("TextFormatUpdateEvent"@.len() == 21 && "TextFormatUpdateEvent"@[0] == 'T' && "TextFormatUpdateEvent"@[1] == 'e' && "TextFormatUpdateEvent"@[2] == 'x' && "TextFormatUpdateEvent"@[3] == 't' && "TextFormatUpdateEvent"@[4] == 'F' && "TextFormatUpdateEvent"@[5] == 'o' && "TextFormatUpdateEvent"@[6] == 'r' && "TextFormatUpdateEvent"@[7] == 'm' && "TextFormatUpdateEvent"@[8] == 'a' && "TextFormatUpdateEvent"@[9] == 't' && "TextFormatUpdateEvent"@[10] == 'U' && "TextFormatUpdateEvent"@[11] == 'p' && "TextFormatUpdateEvent"@[12] == 'd' && "TextFormatUpdateEvent"@[13] == 'a' && "TextFormatUpdateEvent"@[14] == 't' && "TextFormatUpdateEvent"@[15] == 'e' && "TextFormatUpdateEvent"@[16] == 'E' && "TextFormatUpdateEvent"@[17] == 'v' && "TextFormatUpdateEvent"@[18] == 'e' && "TextFormatUpdateEvent"@[19] == 'n' && "TextFormatUpdateEvent"@[20] == 't');
    assert("TextUpdateEvent"@.len() == 15 && "TextUpdateEvent"@[0] == 'T' && "TextUpdateEvent"@[1] == 'e' && "TextUpdateEvent"@[2] == 'x' && "TextUpdateEvent"@[3] == 't' && "TextUpdateEvent"@[4] == 'U' && "TextUpdateEvent"@[5] == 'p' && "TextUpdateEvent"@[6] == 'd' && "TextUpdateEvent"@[7] == 'a' && "TextUpdateEvent"@[8] == 't' && "TextUpdateEvent"@[9] == 'e' && "TextUpdateEvent"@[10] == 'E' && "TextUpdateEvent"@[11] == 'v' && "TextUpdateEvent"@[12] == 'e' && "TextUpdateEvent"@[13] == 'n' && "TextUpdateEvent"@[14] == 't');
    assert("SFrameTransformErrorEvent"@.len() == 25 && "SFrameTransformErrorEvent"@[0] == 'S' && "SFrameTransformErrorEvent"@[1] == 'F' && "SFrameTransformErrorEvent"@[2] == 'r' && "SFrameTransformErrorEvent"@[3] == 'a' && "SFrameTransformErrorEvent"@[4] == 'm' && "SFrameTransformErrorEvent"@[5] == 'e' && "SFrameTransformErrorEvent"@[6] == 'T' && "SFrameTransformErrorEvent"@[7] == 'r' && "SFrameTransformErrorEvent"@[8] == 'a' && "SFrameTransformErrorEvent"@[9] == 'n' && "SFrameTransformErrorEvent"@[10] == 's' && "SFrameTransformErrorEvent"@[11] == 'f' && "SFrameTransformErrorEvent"@[12] == 'o' && "SFrameTransformErrorEvent"@[13] == 'r' && "SFrameTransformErrorEvent"@[14] == 'm' && "SFrameTransformErrorEvent"@[15] == 'E' && "SFrameTransformErrorEvent"@[16] == 'r' && "SFrameTransformErrorEvent"@[17] == 'r' && "SFrameTransformErrorEvent"@[18] == 'o' && "SFrameTransformErrorEvent"@[19] == 'r' && "SFrameTransformErrorEvent"@[20] == 'E' && "SFrameTransformErrorEvent"@[21] == 'v' && "SFrameTransformErrorEvent"@[22] == 'e' && "SFrameTransformErrorEvent"@[23] == 'n' && "SFrameTransformErrorEvent"@[24] == 't');
    assert("CharacterBoundsUpdateEvent"@.len() == 26 && "CharacterBoundsUpdateEvent"@[0] == 'C' && "CharacterBoundsUpdateEvent"@[1] == 'h' && "CharacterBoundsUpdateEvent"@[2] == 'a' && "CharacterBoundsUpdateEvent"@[3] == 'r' && "CharacterBoundsUpdateEvent"@[4] == 'a' && "CharacterBoundsUpdateEvent"@[5] == 'c' && "CharacterBoundsUpdateEvent"@[6] == 't' && "CharacterBoundsUpdateEvent"@[7] == 'e' && "CharacterBoundsUpdateEvent"@[8] == 'r' && "CharacterBoundsUpdateEvent"@[9] == 'B' && "CharacterBoundsUpdateEvent"@[10] == 'o' && "CharacterBoundsUpdateEvent"@[11] == 'u' && "CharacterBoundsUpdateEvent"@[12] == 'n' && "CharacterBoundsUpdateEvent"@[13] == 'd' && "CharacterBoundsUpdateEvent"@[14] == 's' && "CharacterBoundsUpdateEvent"@[15] == 'U' && "CharacterBoundsUpdateEvent"@[16] == 'p' && "CharacterBoundsUpdateEvent"@[17] == 'd' && "CharacterBoundsUpdateEvent"@[18] == 'a' && "CharacterBoundsUpdateEvent"@[19] == 't' && "CharacterBoundsUpdateEvent"@[20] == 'e' && "CharacterBoundsUpdateEvent"@[21] == 'E' && "CharacterBoundsUpdateEvent"@[22] == 'v' && "CharacterBoundsUpdateEvent"@[23] == 'e' && "CharacterBoundsUpdateEvent"@[24] == 'n' && "CharacterBoundsUpdateEvent"@[25] == 't');
    assert("KeyFrameRequestEvent"@.len() == 20 && "KeyFrameRequestEvent"@[0] == 'K' && "KeyFrameRequestEvent"@[1] == 'e' && "KeyFrameRequestEvent"@[2] == 'y' && "KeyFrameRequestEvent"@[3] == 'F' && "KeyFrameRequestEvent"@[4] == 'r' && "KeyFrameRequestEvent"@[5] == 'a' && "KeyFrameRequestEvent"@[6] == 'm' && "KeyFrameRequestEvent"@[7] == 'e' && "KeyFrameRequestEvent"@[8] == 'R' && "KeyFrameRequestEvent"@[9] == 'e' && "KeyFrameRequestEvent"@[10] == 'q' && "KeyFrameRequestEvent"@[11] == 'u' && "KeyFrameRequestEvent"@[12] == 'e' && "KeyFrameRequestEvent"@[13] == 's' && "KeyFrameRequestEvent"@[14] == 't' && "KeyFrameRequestEvent"@[15] == 'E' && "KeyFrameRequestEvent"@[16] == 'v' && "KeyFrameRequestEvent"@[17] == 'e' && "KeyFrameRequestEvent"@[18] == 'n' && "KeyFrameRequestEvent"@[19] == 't');
    assert("WindowControlsOverlayGeometryChangeEvent"@.len() == 40 && "WindowControlsOverlayGeometryChangeEvent"@[0] == 'W' && "WindowControlsOverlayGeometryChangeEvent"@[1] == 'i' && "WindowControlsOverlayGeometryChangeEvent"@[2] == 'n' && "WindowControlsOverlayGeometryChangeEvent"@[3] == 'd' && "WindowControlsOverlayGeometryChangeEvent"@[4] == 'o' && "WindowControlsOverlayGeometryChangeEvent"@[5] == 'w' && "WindowControlsOverlayGeometryChangeEvent"@[6] == 'C' && "WindowControlsOverlayGeometryChangeEvent"@[7] == 'o' && "WindowControlsOverlayGeometryChangeEvent"@[8] == 'n' && "WindowControlsOverlayGeometryChangeEvent"@[9] == 't' && "WindowControlsOverlayGeometryChangeEvent"@[10] == 'r' && "WindowControlsOverlayGeometryChangeEvent"@[11] == 'o' && "WindowControlsOverlayGeometryChangeEvent"@[12] == 'l' && "WindowControlsOverlayGeometryChangeEvent"@[13] == 's' && "WindowControlsOverlayGeometryChangeEvent"@[14] == 'O' && "WindowControlsOverlayGeometryChangeEvent"@[15] == 'v' && "WindowControlsOverlayGeometryChangeEvent"@[16] == 'e' && "WindowControlsOverlayGeometryChangeEvent"@[17] == 'r' && "WindowControlsOverlayGeometryChangeEvent"@[18] == 'l' && "WindowControlsOverlayGeometryChangeEvent"@[19] == 'a' && "WindowControlsOverlayGeometryChangeEvent"@[20] == 'y' && "WindowControlsOverlayGeometryChangeEvent"@[21] == 'G' && "WindowControlsOverlayGeometryChangeEvent"@[22] == 'e' && "WindowControlsOverlayGeometryChangeEvent"@[23] == 'o' && "WindowControlsOverlayGeometryChangeEvent"@[24] == 'm' && "WindowControlsOverlayGeometryChangeEvent"@[25] == 'e' && "WindowControlsOverlayGeometryChangeEvent"@[26] == 't' && "WindowControlsOverlayGeometryChangeEvent"@[27] == 'r' && "WindowControlsOverlayGeometryChangeEvent"@[28] == 'y' && "WindowControlsOverlayGeometryChangeEvent"@[29] == 'C' && "WindowControlsOverlayGeometryChangeEvent"@[30] == 'h' && "WindowControlsOverlayGeometryChangeEvent"@[31] == 'a' && "WindowControlsOverlayGeometryChangeEvent"@[32] == 'n' && "WindowControlsOverlayGeometryChangeEvent"@[33] == 'g' && "WindowControlsOverlayGeometryChangeEvent"@[34] == 'e' && "WindowControlsOverlayGeometryChangeEvent"@[35] == 'E' && "WindowControlsOverlayGeometryChangeEvent"@[36] == 'v' && "WindowControlsOverlayGeometryChangeEvent"@[37] == 'e' && "WindowControlsOverlayGeometryChangeEvent"@[38] == 'n' && "WindowControlsOverlayGeometryChangeEvent"@[39] == 't');
    assert("AutofillEvent"@.len() == 13 && "AutofillEvent"@[0] == 'A' && "AutofillEvent"@[1] == 'u' && "AutofillEvent"@[2] == 't' && "AutofillEvent"@[3] == 'o' && "AutofillEvent"@[4] == 'f' && "AutofillEvent"@[5] == 'i' && "AutofillEvent"@[6] == 'l' && "AutofillEvent"@[7] == 'l' && "AutofillEvent"@[8] == 'E' && "AutofillEvent"@[9] == 'v' && "AutofillEvent"@[10] == 'e' && "AutofillEvent"@[11] == 'n' && "AutofillEvent"@[12] == 't');
    assert("BlobEvent"@.len() == 9 && "BlobEvent"@[0] == 'B' && "BlobEvent"@[1] == 'l' && "BlobEvent"@[2] == 'o' && "BlobEvent"@[3] == 'b' && "BlobEvent"@[4] == 'E' && "BlobEvent"@[5] == 'v' && "BlobEvent"@[6] == 'e' && "BlobEvent"@[7] == 'n' && "BlobEvent"@[8] == 't');
    assert("BufferedChangeEvent"@.len() == 19 && "BufferedChangeEvent"@[0] == 'B' && "BufferedChangeEvent"@[1] == 'u' && "BufferedChangeEvent"@[2] == 'f' && "BufferedChangeEvent"@[3] == 'f' && "BufferedChangeEvent"@[4] == 'e' && "BufferedChangeEvent"@[5] == 'r' && "BufferedChangeEvent"@[6] == 'e' && "BufferedChangeEvent"@[7] == 'd' && "BufferedChangeEvent"@[8] == 'C' && "BufferedChangeEvent"@[9] == 'h' && "BufferedChangeEvent"@[10] == 'a' && "BufferedChangeEvent"@[11] == 'n' && "BufferedChangeEvent"@[12] == 'g' && "BufferedChangeEvent"@[13] == 'e' && "BufferedChangeEvent"@[14] == 'E' && "BufferedChangeEvent"@[15] == 'v' && "BufferedChangeEvent"@[16] == 'e' && "BufferedChangeEvent"@[17] == 'n' && "BufferedChangeEvent"@[18] == 't');
    assert("CaptureActionEvent"@.len() == 18 && "CaptureActionEvent"@[0] == 'C' && "CaptureActionEvent"@[1] == 'a' && "CaptureActionEvent"@[2] == 'p' && "CaptureActionEvent"@[3] == 't' && "CaptureActionEvent"@[4] == 'u' && "CaptureActionEvent"@[5] == 'r' && "CaptureActionEvent"@[6] == 'e' && "CaptureActionEvent"@[7] == 'A' && "CaptureActionEvent"@[8] == 'c' && "CaptureActionEvent"@[9] == 't' && "CaptureActionEvent"@[10] == 'i' && "CaptureActionEvent"@[11] == 'o' && "CaptureActionEvent"@[12] == 'n' && "CaptureActionEvent"@[13] == 'E' && "CaptureActionEvent"@[14] == 'v' && "CaptureActionEvent"@[15] == 'e' && "CaptureActionEvent"@[16] == 'n' && "CaptureActionEvent"@[17] == 't');
    assert("CapturedMouseEvent"@.len() == 18 && "CapturedMouseEvent"@[0] == 'C' && "CapturedMouseEvent"@[1] == 'a' && "CapturedMouseEvent"@[2] == 'p' && "CapturedMouseEvent"@[3] == 't' && "CapturedMouseEvent"@[4] == 'u' && "CapturedMouseEvent"@[5] == 'r' && "CapturedMouseEvent"@[6] == 'e' && "CapturedMouseEvent"@[7] == 'd' && "CapturedMouseEvent"@[8] == 'M' && "CapturedMouseEvent"@[9] == 'o' && "CapturedMouseEvent"@[10] == 'u' && "CapturedMouseEvent"@[11] == 's' && "CapturedMouseEvent"@[12] == 'e' && "CapturedMouseEvent"@[13] == 'E' && "CapturedMouseEvent"@[14] == 'v' && "CapturedMouseEvent"@[15] == 'e' && "CapturedMouseEvent"@[16] == 'n' && "CapturedMouseEvent"@[17] == 't');
    assert("ClipboardChangeEvent"@.len() == 20 && "ClipboardChangeEvent"@[0] == 'C' && "ClipboardChangeEvent"@[1] == 'l' && "ClipboardChangeEvent"@[2] == 'i' && "ClipboardChangeEvent"@[3] == 'p' && "ClipboardChangeEvent"@[4] == 'b' && "ClipboardChangeEvent"@[5] == 'o' && "ClipboardChangeEvent"@[6] == 'a' && "ClipboardChangeEvent"@[7] == 'r' && "ClipboardChangeEvent"@[8] == 'd' && "ClipboardChangeEvent"@[9] == 'C' && "ClipboardChangeEvent"@[10] == 'h' && "ClipboardChangeEvent"@[11] == 'a' && "ClipboardChangeEvent"@[12] == 'n' && "ClipboardChangeEvent"@[13] == 'g' && "ClipboardChangeEvent"@[14] == 'e' && "ClipboardChangeEvent"@[15] == 'E' && "ClipboardChangeEvent"@[16] == 'v' && "ClipboardChangeEvent"@[17] == 'e' && "ClipboardChangeEvent"@[18] == 'n' && "ClipboardChangeEvent"@[19] == 't');
    assert("ContentVisibilityAutoStateChangeEvent"@.len() == 37 && "ContentVisibilityAutoStateChangeEvent"@[0] == 'C' && "ContentVisibilityAutoStateChangeEvent"@[1] == 'o' && "ContentVisibilityAutoStateChangeEvent"@[2] == 'n' && "ContentVisibilityAutoStateChangeEvent"@[3] == 't' && "ContentVisibilityAutoStateChangeEvent"@[4] == 'e' && "ContentVisibilityAutoStateChangeEvent"@[5] == 'n' && "ContentVisibilityAutoStateChangeEvent"@[6] == 't' && "ContentVisibilityAutoStateChangeEvent"@[7] == 'V' && "ContentVisibilityAutoStateChangeEvent"@[8] == 'i' && "ContentVisibilityAutoStateChangeEvent"@[9] == 's' && "ContentVisibilityAutoStateChangeEvent"@[10] == 'i' && "ContentVisibilityAutoStateChangeEvent"@[11] == 'b' && "ContentVisibilityAutoStateChangeEvent"@[12] == 'i' && "ContentVisibilityAutoStateChangeEvent"@[13] == 'l' && "ContentVisibilityAutoStateChangeEvent"@[14] == 'i' && "ContentVisibilityAutoStateChangeEvent"@[15] == 't' && "ContentVisibilityAutoStateChangeEvent"@[16] == 'y' && "ContentVisibilityAutoStateChangeEvent"@[17] == 'A' && "ContentVisibilityAutoStateChangeEvent"@[18] == 'u' && "ContentVisibilityAutoStateChangeEvent"@[19] == 't' && "ContentVisibilityAutoStateChangeEvent"@[20] == 'o' && "ContentVisibilityAutoStateChangeEvent"@[21] == 'S' && "ContentVisibilityAutoStateChangeEvent"@[22] == 't' && "ContentVisibilityAutoStateChangeEvent"@[23] == 'a' && "ContentVisibilityAutoStateChangeEvent"@[24] == 't' && "ContentVisibilityAutoStateChangeEvent"@[25] == 'e' && "ContentVisibilityAutoStateChangeEvent"@[26] == 'C' && "ContentVisibilityAutoStateChangeEvent"@[27] == 'h' && "ContentVisibilityAutoStateChangeEvent"@[28] == 'a' && "ContentVisibilityAutoStateChangeEvent"@[29] == 'n' && "ContentVisibilityAutoStateChangeEvent"@[30] == 'g' && "ContentVisibilityAutoStateChangeEvent"@[31] == 'e' && "ContentVisibilityAutoStateChangeEvent"@[32] == 'E' && "ContentVisibilityAutoStateChangeEvent"@[33] == 'v' && "ContentVisibilityAutoStateChangeEvent"@[34] == 'e' && "ContentVisibilityAutoStateChangeEvent"@[35] == 'n' && "ContentVisibilityAutoStateChangeEvent"@[36] == 't');
    assert("CookieChangeEvent"@.len() == 17 && "CookieChangeEvent"@[0] == 'C' && "CookieChangeEvent"@[1] == 'o' && "CookieChangeEvent"@[2] == 'o' && "CookieChangeEvent"@[3] == 'k' && "CookieChangeEvent"@[4] == 'i' && "CookieChangeEvent"@[5] == 'e' && "CookieChangeEvent"@[6] == 'C' && "CookieChangeEvent"@[7] == 'h' && "CookieChangeEvent"@[8] == 'a' && "CookieChangeEvent"@[9] == 'n' && "CookieChangeEvent"@[10] == 'g' && "CookieChangeEvent"@[11] == 'e' && "CookieChangeEvent"@[12] == 'E' && "CookieChangeEvent"@[13] == 'v' && "CookieChangeEvent"@[14] == 'e' && "CookieChangeEvent"@[15] == 'n' && "CookieChangeEvent"@[16] == 't');
    assert("SensorErrorEvent"@.len() == 16 && "SensorErrorEvent"@[0] == 'S' && "SensorErrorEvent"@[1] == 'e' && "SensorErrorEvent"@[2] == 'n' && "SensorErrorEvent"@[3] == 's' && "SensorErrorEvent"@[4] == 'o' && "SensorErrorEvent"@[5] == 'r' && "SensorErrorEvent"@[6] == 'E' && "SensorErrorEvent"@[7] == 'r' && "SensorErrorEvent"@[8] == 'r' && "SensorErrorEvent"@[9] == 'o' && "SensorErrorEvent"@[10] == 'r' && "SensorErrorEvent"@[11] == 'E' && "SensorErrorEvent"@[12] == 'v' && "SensorErrorEvent"@[13] == 'e' && "SensorErrorEvent"@[14] == 'n' && "SensorErrorEvent"@[15] == 't');
    assert("ValueEvent"@.len() == 10 && "ValueEvent"@[0] == 'V' && "ValueEvent"@[1] == 'a' && "ValueEvent"@[2] == 'l' && "ValueEvent"@[3] == 'u' && "ValueEvent"@[4] == 'e' && "ValueEvent"@[5] == 'E' && "ValueEvent"@[6] == 'v' && "ValueEvent"@[7] == 'e' && "ValueEvent"@[8] == 'n' && "ValueEvent"@[9] == 't');
}

} // verus!
