use vstd::prelude::*;
use super::base::EventInit;
use super::worker::ExtendableEventInit;

verus! {

/// The initial values of an event of the `PaymentRequestEvent` interface.
#[derive(Debug, Clone)]
pub struct PaymentRequestEventInit {
    pub base: ExtendableEventInit,
    pub top_origin: String,
    pub payment_request_origin: String,
    pub payment_request_id: String,
    pub method_data: Vec<String>,
    pub total: Option<String>,
    pub modifiers: Vec<String>,
}

impl PaymentRequestEventInit {
    /// Every field holds its default: empty text and lists, no value, `false`, zero.
    pub open spec fn is_default(&self) -> bool {
        &&& self.base.is_default()
        &&& self.top_origin@ == Seq::<char>::empty()
        &&& self.payment_request_origin@ == Seq::<char>::empty()
        &&& self.payment_request_id@ == Seq::<char>::empty()
        &&& self.method_data@.len() == 0
        &&& self.total is None
        &&& self.modifiers@.len() == 0
    }
}

impl Default for PaymentRequestEventInit {
    fn default() -> (r: Self)
        ensures
            r.is_default(),
    {
        PaymentRequestEventInit {
            base: ExtendableEventInit::default(),
            top_origin: String::new(),
            payment_request_origin: String::new(),
            payment_request_id: String::new(),
            method_data: Vec::new(),
            total: None,
            modifiers: Vec::new(),
        }
    }
}

/// The initial values of an event of the `PaymentRequestUpdateEvent` interface.
#[derive(Debug, Clone)]
pub struct PaymentRequestUpdateEventInit {
    pub base: EventInit,
}

impl PaymentRequestUpdateEventInit {
    /// Every field holds its default: empty text and lists, no value, `false`, zero.
    pub open spec fn is_default(&self) -> bool {
        &&& self.base.is_default()
    }
}

impl Default for PaymentRequestUpdateEventInit {
    fn default() -> (r: Self)
        ensures
            r.is_default(),
    {
        PaymentRequestUpdateEventInit {
            base: EventInit::default(),
        }
    }
}

/// The initial values of an event of the `PaymentMethodChangeEvent` interface.
#[derive(Debug, Clone)]
pub struct PaymentMethodChangeEventInit {
    pub base: EventInit,
    pub method_name: String,
    pub method_details: Option<String>,
}

impl PaymentMethodChangeEventInit {
    /// Every field holds its default: empty text and lists, no value, `false`, zero.
    pub open spec fn is_default(&self) -> bool {
        &&& self.base.is_default()
        &&& self.method_name@ == Seq::<char>::empty()
        &&& self.method_details is None
    }
}

impl Default for PaymentMethodChangeEventInit {
    fn default() -> (r: Self)
        ensures
            r.is_default(),
    {
        PaymentMethodChangeEventInit {
            base: EventInit::default(),
            method_name: String::new(),
            method_details: None,
        }
    }
}

/// The initial values of an event of the `CanMakePaymentEvent` interface.
#[derive(Debug, Clone)]
pub struct CanMakePaymentEventInit {
    pub base: ExtendableEventInit,
    pub top_origin: String,
    pub payment_request_origin: String,
    pub payment_request_id: String,
    pub method_data: Vec<String>,
}

impl CanMakePaymentEventInit {
    /// Every field holds its default: empty text and lists, no value, `false`, zero.
    pub open spec fn is_default(&self) -> bool {
        &&& self.base.is_default()
        &&& self.top_origin@ == Seq::<char>::empty()
        &&& self.payment_request_origin@ == Seq::<char>::empty()
        &&& self.payment_request_id@ == Seq::<char>::empty()
        &&& self.method_data@.len() == 0
    }
}

impl Default for CanMakePaymentEventInit {
    fn default() -> (r: Self)
        ensures
            r.is_default(),
    {
        CanMakePaymentEventInit {
            base: ExtendableEventInit::default(),
            top_origin: String::new(),
            payment_request_origin: String::new(),
            payment_request_id: String::new(),
            method_data: Vec::new(),
        }
    }
}

/// The initial values of an event of the `PresentationConnectionAvailableEvent` interface.
#[derive(Debug, Clone)]
pub struct PresentationConnectionAvailableEventInit {
    pub base: EventInit,
    pub connection: Option<String>,
}

impl PresentationConnectionAvailableEventInit {
    /// Every field holds its default: empty text and lists, no value, `false`, zero.
    pub open spec fn is_default(&self) -> bool {
        &&& self.base.is_default()
        &&& self.connection is None
    }
}

impl Default for PresentationConnectionAvailableEventInit {
    fn default() -> (r: Self)
        ensures
            r.is_default(),
    {
        PresentationConnectionAvailableEventInit {
            base: EventInit::default(),
            connection: None,
        }
    }
}

/// The initial values of an event of the `PresentationConnectionCloseEvent` interface.
#[derive(Debug, Clone)]
pub struct PresentationConnectionCloseEventInit {
    pub base: EventInit,
    pub reason: String,
    pub message: String,
}

impl PresentationConnectionCloseEventInit {
    /// Every field holds its default: empty text and lists, no value, `false`, zero.
    pub open spec fn is_default(&self) -> bool {
        &&& self.base.is_default()
        &&& self.reason@ == Seq::<char>::empty()
        &&& self.message@ == Seq::<char>::empty()
    }
}

impl Default for PresentationConnectionCloseEventInit {
    fn default() -> (r: Self)
        ensures
            r.is_default(),
    {
        PresentationConnectionCloseEventInit {
            base: EventInit::default(),
            reason: String::new(),
            message: String::new(),
        }
    }
}

/// The initial values of an event of the `BluetoothAdvertisingEvent` interface.
#[derive(Debug, Clone)]
pub struct BluetoothAdvertisingEventInit {
    pub base: EventInit,
    pub device: Option<String>,
    pub uuids: Vec<String>,
    pub name: Option<String>,
    pub appearance: Option<u16>,
    pub tx_power: Option<i8>,
    pub rssi: Option<i8>,
    pub manufacturer_data: Option<String>,
    pub service_data: Option<String>,
}

impl BluetoothAdvertisingEventInit {
    /// Every field holds its default: empty text and lists, no value, `false`, zero.
    pub open spec fn is_default(&self) -> bool {
        &&& self.base.is_default()
        &&& self.device is None
        &&& self.uuids@.len() == 0
        &&& self.name is None
        &&& self.appearance is None
        &&& self.tx_power is None
        &&& self.rssi is None
        &&& self.manufacturer_data is None
        &&& self.service_data is None
    }
}

impl Default for BluetoothAdvertisingEventInit {
    fn default() -> (r: Self)
        ensures
            r.is_default(),
    {
        BluetoothAdvertisingEventInit {
            base: EventInit::default(),
            device: None,
            uuids: Vec::new(),
            name: None,
            appearance: None,
            tx_power: None,
            rssi: None,
            manufacturer_data: None,
            service_data: None,
        }
    }
}

/// The initial values of an event of the `HIDConnectionEvent` interface.
#[derive(Debug, Clone)]
pub struct HIDConnectionEventInit {
    pub base: EventInit,
    pub device: Option<String>,
}

impl HIDConnectionEventInit {
    /// Every field holds its default: empty text and lists, no value, `false`, zero.
    pub open spec fn is_default(&self) -> bool {
        &&& self.base.is_default()
        &&& self.device is None
    }
}

impl Default for HIDConnectionEventInit {
    fn default() -> (r: Self)
        ensures
            r.is_default(),
    {
        HIDConnectionEventInit {
            base: EventInit::default(),
            device: None,
        }
    }
}

/// The initial values of an event of the `HIDInputReportEvent` interface.
#[derive(Debug, Clone)]
pub struct HIDInputReportEventInit {
    pub base: EventInit,
    pub device: Option<String>,
    pub report_id: u8,
    pub data: Option<String>,
}

impl HIDInputReportEventInit {
    /// Every field holds its default: empty text and lists, no value, `false`, zero.
    pub open spec fn is_default(&self) -> bool {
        &&& self.base.is_default()
        &&& self.device is None
        &&& self.report_id == 0
        &&& self.data is None
    }
}

impl Default for HIDInputReportEventInit {
    fn default() -> (r: Self)
        ensures
            r.is_default(),
    {
        HIDInputReportEventInit {
            base: EventInit::default(),
            device: None,
            report_id: 0,
            data: None,
        }
    }
}

/// The initial values of an event of the `USBConnectionEvent` interface.
#[derive(Debug, Clone)]
pub struct USBConnectionEventInit {
    pub base: EventInit,
    pub device: Option<String>,
}

impl USBConnectionEventInit {
    /// Every field holds its default: empty text and lists, no value, `false`, zero.
    pub open spec fn is_default(&self) -> bool {
        &&& self.base.is_default()
        &&& self.device is None
    }
}

impl Default for USBConnectionEventInit {
    fn default() -> (r: Self)
        ensures
            r.is_default(),
    {
        USBConnectionEventInit {
            base: EventInit::default(),
            device: None,
        }
    }
}

/// The initial values of an event of the `NDEFReadingEvent` interface.
#[derive(Debug, Clone)]
pub struct NDEFReadingEventInit {
    pub base: EventInit,
    pub serial_number: String,
    pub message: Option<String>,
}

impl NDEFReadingEventInit {
    /// Every field holds its default: empty text and lists, no value, `false`, zero.
    pub open spec fn is_default(&self) -> bool {
        &&& self.base.is_default()
        &&& self.serial_number@ == Seq::<char>::empty()
        &&& self.message is None
    }
}

impl Default for NDEFReadingEventInit {
    fn default() -> (r: Self)
        ensures
            r.is_default(),
    {
        NDEFReadingEventInit {
            base: EventInit::default(),
            serial_number: String::new(),
            message: None,
        }
    }
}

/// The initial values of an event of the `WebGLContextEvent` interface.
#[derive(Debug, Clone)]
pub struct WebGLContextEventInit {
    pub base: EventInit,
    pub status_message: String,
}

impl WebGLContextEventInit {
    /// Every field holds its default: empty text and lists, no value, `false`, zero.
    pub open spec fn is_default(&self) -> bool {
        &&& self.base.is_default()
        &&& self.status_message@ == Seq::<char>::empty()
    }
}

impl Default for WebGLContextEventInit {
    fn default() -> (r: Self)
        ensures
            r.is_default(),
    {
        WebGLContextEventInit {
            base: EventInit::default(),
            status_message: String::new(),
        }
    }
}

/// The initial values of an event of the `GPUUncapturedErrorEvent` interface.
#[derive(Debug, Clone)]
pub struct GPUUncapturedErrorEventInit {
    pub base: EventInit,
    pub error: Option<String>,
}

impl GPUUncapturedErrorEventInit {
    /// Every field holds its default: empty text and lists, no value, `false`, zero.
    pub open spec fn is_default(&self) -> bool {
        &&& self.base.is_default()
        &&& self.error is None
    }
}

impl Default for GPUUncapturedErrorEventInit {
    fn default() -> (r: Self)
        ensures
            r.is_default(),
    {
        GPUUncapturedErrorEventInit {
            base: EventInit::default(),
            error: None,
        }
    }
}

/// The initial values of an event of the `FontFaceSetLoadEvent` interface.
#[derive(Debug, Clone)]
pub struct FontFaceSetLoadEventInit {
    pub base: EventInit,
    pub fontfaces: Vec<String>,
}

impl FontFaceSetLoadEventInit {
    /// Every field holds its default: empty text and lists, no value, `false`, zero.
    pub open spec fn is_default(&self) -> bool {
        &&& self.base.is_default()
        &&& self.fontfaces@.len() == 0
    }
}

impl Default for FontFaceSetLoadEventInit {
    fn default() -> (r: Self)
        ensures
            r.is_default(),
    {
        FontFaceSetLoadEventInit {
            base: EventInit::default(),
            fontfaces: Vec::new(),
        }
    }
}

/// The initial values of an event of the `TextEvent` interface.
#[derive(Debug, Clone)]
pub struct TextEventInit {
    pub base: EventInit,
    pub data: String,
}

impl TextEventInit {
    /// Every field holds its default: empty text and lists, no value, `false`, zero.
    pub open spec fn is_default(&self) -> bool {
        &&& self.base.is_default()
        &&& self.data@ == Seq::<char>::empty()
    }
}

impl Default for TextEventInit {
    fn default() -> (r: Self)
        ensures
            r.is_default(),
    {
        TextEventInit {
            base: EventInit::default(),
            data: String::new(),
        }
    }
}

/// The initial values of an event of the `TextFormatUpdateEvent` interface.
#[derive(Debug, Clone)]
pub struct TextFormatUpdateEventInit {
    pub base: EventInit,
    pub text_formats: Vec<String>,
}

impl TextFormatUpdateEventInit {
    /// Every field holds its default: empty text and lists, no value, `false`, zero.
    pub open spec fn is_default(&self) -> bool {
        &&& self.base.is_default()
        &&& self.text_formats@.len() == 0
    }
}

impl Default for TextFormatUpdateEventInit {
    fn default() -> (r: Self)
        ensures
            r.is_default(),
    {
        TextFormatUpdateEventInit {
            base: EventInit::default(),
            text_formats: Vec::new(),
        }
    }
}

/// The initial values of an event of the `TextUpdateEvent` interface.
#[derive(Debug, Clone)]
pub struct TextUpdateEventInit {
    pub base: EventInit,
    pub update_range_start: u32,
    pub update_range_end: u32,
    pub text: String,
    pub selection_start: u32,
    pub selection_end: u32,
    pub composition_start: u32,
    pub composition_end: u32,
}

impl TextUpdateEventInit {
    /// Every field holds its default: empty text and lists, no value, `false`, zero.
    pub open spec fn is_default(&self) -> bool {
        &&& self.base.is_default()
        &&& self.update_range_start == 0
        &&& self.update_range_end == 0
        &&& self.text@ == Seq::<char>::empty()
        &&& self.selection_start == 0
        &&& self.selection_end == 0
        &&& self.composition_start == 0
        &&& self.composition_end == 0
    }
}

impl Default for TextUpdateEventInit {
    fn default() -> (r: Self)
        ensures
            r.is_default(),
    {
        TextUpdateEventInit {
            base: EventInit::default(),
            update_range_start: 0,
            update_range_end: 0,
            text: String::new(),
            selection_start: 0,
            selection_end: 0,
            composition_start: 0,
            composition_end: 0,
        }
    }
}

/// The initial values of an event of the `SFrameTransformErrorEvent` interface.
#[derive(Debug, Clone)]
pub struct SFrameTransformErrorEventInit {
    pub base: EventInit,
    pub error_type: String,
    pub frame: Option<String>,
    pub key_id: Option<String>,
}

impl SFrameTransformErrorEventInit {
    /// Every field holds its default: empty text and lists, no value, `false`, zero.
    pub open spec fn is_default(&self) -> bool {
        &&& self.base.is_default()
        &&& self.error_type@ == Seq::<char>::empty()
        &&& self.frame is None
        &&& self.key_id is None
    }
}

impl Default for SFrameTransformErrorEventInit {
    fn default() -> (r: Self)
        ensures
            r.is_default(),
    {
        SFrameTransformErrorEventInit {
            base: EventInit::default(),
            error_type: String::new(),
            frame: None,
            key_id: None,
        }
    }
}

/// The initial values of an event of the `CharacterBoundsUpdateEvent` interface.
#[derive(Debug, Clone)]
pub struct CharacterBoundsUpdateEventInit {
    pub base: EventInit,
    pub bounds: Vec<String>,
}

impl CharacterBoundsUpdateEventInit {
    /// Every field holds its default: empty text and lists, no value, `false`, zero.
    pub open spec fn is_default(&self) -> bool {
        &&& self.base.is_default()
        &&& self.bounds@.len() == 0
    }
}

impl Default for CharacterBoundsUpdateEventInit {
    fn default() -> (r: Self)
        ensures
            r.is_default(),
    {
        CharacterBoundsUpdateEventInit {
            base: EventInit::default(),
            bounds: Vec::new(),
        }
    }
}

/// The initial values of an event of the `KeyFrameRequestEvent` interface.
#[derive(Debug, Clone)]
pub struct KeyFrameRequestEventInit {
    pub base: EventInit,
}

impl KeyFrameRequestEventInit {
    /// Every field holds its default: empty text and lists, no value, `false`, zero.
    pub open spec fn is_default(&self) -> bool {
        &&& self.base.is_default()
    }
}

impl Default for KeyFrameRequestEventInit {
    fn default() -> (r: Self)
        ensures
            r.is_default(),
    {
        KeyFrameRequestEventInit {
            base: EventInit::default(),
        }
    }
}

/// The initial values of an event of the `WindowControlsOverlayGeometryChangeEvent` interface.
#[derive(Debug, Clone)]
pub struct WindowControlsOverlayGeometryChangeEventInit {
    pub base: EventInit,
    pub visible: bool,
    pub bounding_rect: Option<String>,
}

impl WindowControlsOverlayGeometryChangeEventInit {
    /// Every field holds its default: empty text and lists, no value, `false`, zero.
    pub open spec fn is_default(&self) -> bool {
        &&& self.base.is_default()
        &&& !self.visible
        &&& self.bounding_rect is None
    }
}

impl Default for WindowControlsOverlayGeometryChangeEventInit {
    fn default() -> (r: Self)
        ensures
            r.is_default(),
    {
        WindowControlsOverlayGeometryChangeEventInit {
            base: EventInit::default(),
            visible: false,
            bounding_rect: None,
        }
    }
}

/// The initial values of an event of the `AutofillEvent` interface.
#[derive(Debug, Clone)]
pub struct AutofillEventInit {
    pub base: EventInit,
}

impl AutofillEventInit {
    /// Every field holds its default: empty text and lists, no value, `false`, zero.
    pub open spec fn is_default(&self) -> bool {
        &&& self.base.is_default()
    }
}

impl Default for AutofillEventInit {
    fn default() -> (r: Self)
        ensures
            r.is_default(),
    {
        AutofillEventInit {
            base: EventInit::default(),
        }
    }
}

/// The initial values of an event of the `BufferedChangeEvent` interface.
#[derive(Debug, Clone)]
pub struct BufferedChangeEventInit {
    pub base: EventInit,
    pub added_ranges: Vec<String>,
    pub removed_ranges: Vec<String>,
}

impl BufferedChangeEventInit {
    /// Every field holds its default: empty text and lists, no value, `false`, zero.
    pub open spec fn is_default(&self) -> bool {
        &&& self.base.is_default()
        &&& self.added_ranges@.len() == 0
        &&& self.removed_ranges@.len() == 0
    }
}

impl Default for BufferedChangeEventInit {
    fn default() -> (r: Self)
        ensures
            r.is_default(),
    {
        BufferedChangeEventInit {
            base: EventInit::default(),
            added_ranges: Vec::new(),
            removed_ranges: Vec::new(),
        }
    }
}

/// The initial values of an event of the `CaptureActionEvent` interface.
#[derive(Debug, Clone)]
pub struct CaptureActionEventInit {
    pub base: EventInit,
    pub action: String,
}

impl CaptureActionEventInit {
    /// Every field holds its default: empty text and lists, no value, `false`, zero.
    pub open spec fn is_default(&self) -> bool {
        &&& self.base.is_default()
        &&& self.action@ == Seq::<char>::empty()
    }
}

impl Default for CaptureActionEventInit {
    fn default() -> (r: Self)
        ensures
            r.is_default(),
    {
        CaptureActionEventInit {
            base: EventInit::default(),
            action: String::new(),
        }
    }
}

/// The initial values of an event of the `ClipboardChangeEvent` interface.
#[derive(Debug, Clone)]
pub struct ClipboardChangeEventInit {
    pub base: EventInit,
}

impl ClipboardChangeEventInit {
    /// Every field holds its default: empty text and lists, no value, `false`, zero.
    pub open spec fn is_default(&self) -> bool {
        &&& self.base.is_default()
    }
}

impl Default for ClipboardChangeEventInit {
    fn default() -> (r: Self)
        ensures
            r.is_default(),
    {
        ClipboardChangeEventInit {
            base: EventInit::default(),
        }
    }
}

/// The initial values of an event of the `ContentVisibilityAutoStateChangeEvent` interface.
#[derive(Debug, Clone)]
pub struct ContentVisibilityAutoStateChangeEventInit {
    pub base: EventInit,
    pub skipped: bool,
}

impl ContentVisibilityAutoStateChangeEventInit {
    /// Every field holds its default: empty text and lists, no value, `false`, zero.
    pub open spec fn is_default(&self) -> bool {
        &&& self.base.is_default()
        &&& !self.skipped
    }
}

impl Default for ContentVisibilityAutoStateChangeEventInit {
    fn default() -> (r: Self)
        ensures
            r.is_default(),
    {
        ContentVisibilityAutoStateChangeEventInit {
            base: EventInit::default(),
            skipped: false,
        }
    }
}

/// The initial values of an event of the `CookieChangeEvent` interface.
#[derive(Debug, Clone)]
pub struct CookieChangeEventInit {
    pub base: EventInit,
    pub changed: Vec<String>,
    pub deleted: Vec<String>,
}

impl CookieChangeEventInit {
    /// Every field holds its default: empty text and lists, no value, `false`, zero.
    pub open spec fn is_default(&self) -> bool {
        &&& self.base.is_default()
        &&& self.changed@.len() == 0
        &&& self.deleted@.len() == 0
    }
}

impl Default for CookieChangeEventInit {
    fn default() -> (r: Self)
        ensures
            r.is_default(),
    {
        CookieChangeEventInit {
            base: EventInit::default(),
            changed: Vec::new(),
            deleted: Vec::new(),
        }
    }
}

/// The initial values of an event of the `SensorErrorEvent` interface.
#[derive(Debug, Clone)]
pub struct SensorErrorEventInit {
    pub base: EventInit,
    pub error: Option<String>,
}

impl SensorErrorEventInit {
    /// Every field holds its default: empty text and lists, no value, `false`, zero.
    pub open spec fn is_default(&self) -> bool {
        &&& self.base.is_default()
        &&& self.error is None
    }
}

impl Default for SensorErrorEventInit {
    fn default() -> (r: Self)
        ensures
            r.is_default(),
    {
        SensorErrorEventInit {
            base: EventInit::default(),
            error: None,
        }
    }
}

/// The initial values of an event of the `ValueEvent` interface.
#[derive(Debug, Clone)]
pub struct ValueEventInit {
    pub base: EventInit,
    pub value: Option<String>,
}

impl ValueEventInit {
    /// Every field holds its default: empty text and lists, no value, `false`, zero.
    pub open spec fn is_default(&self) -> bool {
        &&& self.base.is_default()
        &&& self.value is None
    }
}

impl Default for ValueEventInit {
    fn default() -> (r: Self)
        ensures
            r.is_default(),
    {
        ValueEventInit {
            base: EventInit::default(),
            value: None,
        }
    }
}

} // verus!
