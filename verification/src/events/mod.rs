//! Initial values of the DOM event interfaces.
pub mod audio_speech;
pub mod base;
pub mod clipboard;
pub mod composition;
pub mod custom;
pub mod dom_events;
pub mod error;
pub mod focus;
pub mod hash_change;
pub mod input;
pub mod interface;
pub mod keyboard;
pub mod media_events;
pub mod message;
pub mod misc;
pub mod pop_state;
pub mod progress;
pub mod ui;
pub mod webrtc;
pub mod webxr;
pub mod worker;

pub use audio_speech::{SpeechRecognitionEventInit, SpeechRecognitionErrorEventInit, OfflineAudioCompletionEventInit, MIDIConnectionEventInit, MIDIMessageEventInit};
pub use base::{EventInit};
pub use clipboard::{ClipboardEventInit};
pub use composition::{CompositionEventInit};
pub use custom::{CustomEventInit};
pub use dom_events::{StorageEventInit, SubmitEventInit, FormDataEventInit, ToggleEventInit, CommandEventInit};
pub use error::{ErrorEventInit};
pub use focus::{FocusEventInit};
pub use hash_change::{HashChangeEventInit};
pub use input::{InputEventInit};
pub use keyboard::{KeyboardEventInit};
pub use media_events::{GamepadEventInit, MediaStreamTrackEventInit, MediaEncryptedEventInit, MediaKeyMessageEventInit, MediaQueryListEventInit, PictureInPictureEventInit, DocumentPictureInPictureEventInit, PortalActivateEventInit, PageTransitionEventInit, PageRevealEventInit, PageSwapEventInit, NavigateEventInit, NavigationCurrentEntryChangeEventInit, BeforeUnloadEventInit, BeforeInstallPromptEventInit, SecurityPolicyViolationEventInit, PromiseRejectionEventInit, TaskPriorityChangeEventInit};
pub use message::{MessageEventInit};
pub use misc::{PaymentRequestEventInit, PaymentRequestUpdateEventInit, PaymentMethodChangeEventInit, CanMakePaymentEventInit, PresentationConnectionAvailableEventInit, PresentationConnectionCloseEventInit, BluetoothAdvertisingEventInit, HIDConnectionEventInit, HIDInputReportEventInit, USBConnectionEventInit, NDEFReadingEventInit, WebGLContextEventInit, GPUUncapturedErrorEventInit, FontFaceSetLoadEventInit, TextEventInit, TextFormatUpdateEventInit, TextUpdateEventInit, SFrameTransformErrorEventInit, CharacterBoundsUpdateEventInit, KeyFrameRequestEventInit, WindowControlsOverlayGeometryChangeEventInit, AutofillEventInit, BufferedChangeEventInit, CaptureActionEventInit, ClipboardChangeEventInit, ContentVisibilityAutoStateChangeEventInit, CookieChangeEventInit, SensorErrorEventInit, ValueEventInit};
pub use pop_state::{PopStateEventInit};
pub use progress::{ProgressEventInit};
pub use ui::{UiEventInit};
pub use webrtc::{RTCDataChannelEventInit, RTCDTMFToneChangeEventInit, RTCErrorEventInit, RTCPeerConnectionIceEventInit, RTCPeerConnectionIceErrorEventInit, RTCTrackEventInit, RTCTransformEventInit};
pub use webxr::{XRInputSourceEventInit, XRInputSourcesChangeEventInit, XRLayerEventInit, XRReferenceSpaceEventInit, XRSessionEventInit, XRVisibilityMaskChangeEventInit};
pub use worker::{CloseEventInit, FetchEventInit, ExtendableEventInit, ExtendableMessageEventInit, ExtendableCookieChangeEventInit, InstallEventInit, SyncEventInit, PeriodicSyncEventInit, PushEventInit, PushSubscriptionChangeEventInit, NotificationEventInit, BackgroundFetchEventInit, BackgroundFetchUpdateUIEventInit, ContentIndexEventInit};
pub use interface::EventInterface;
