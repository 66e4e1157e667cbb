//! Pad input as the kernel delivers it, and the head ToF sensor's depth stream.
use vstd::prelude::*;

verus! {

/// The pad's input device, as the kernel describes it.
#[derive(Debug, Clone, PartialEq, Eq)]
pub struct PadInputDevice {
    /// As the pad calls itself: "Xbox Wireless Controller".
    pub name: String,
    /// The event node being read, `/dev/input/event5`.
    pub node: String,
    /// The pad's address, as the kernel has it.
    pub unique: Option<String>,
    /// `0x0005` for Bluetooth, `0x0003` for USB — [`Self::over_bluetooth`].
    pub bus: u16,
    pub vendor: u16,
    pub product: u16,
    /// Every absolute axis the device declares, with the range its values live in.
    pub axes: Vec<PadAxis>,
    /// Every button it declares.
    pub buttons: Vec<PadKey>,
}

impl PadInputDevice {
    /// Bus id of a Bluetooth device, from `linux/input.h`.
    pub const BUS_BLUETOOTH: u16 = 0x0005;
    /// Bus id of a USB device.
    pub const BUS_USB: u16 = 0x0003;

    /// Is this pad on the radio at all? A pad on a cable has no link to measure.
    pub fn over_bluetooth(&self) -> (r: bool)
        ensures
            r == (self.bus == Self::BUS_BLUETOOTH),
    {
        self.bus == Self::BUS_BLUETOOTH
    }
}

/// One absolute axis, with the range and the noise floor the driver claims for it.
#[derive(Debug, Clone, PartialEq, Eq)]
pub struct PadAxis {
    /// The evdev code: `ABS_X` is 0.
    pub code: u16,
    /// `ABS_X`, as `linux/input-event-codes.h` spells it.
    pub name: String,
    pub min: i32,
    pub max: i32,
    /// The driver's own dead zone for this axis, in axis units.
    pub flat: i32,
    /// Changes smaller than this the driver considers noise.
    pub fuzz: i32,
    /// Where the axis was when the device was described.
    pub value: i32,
}

/// One button, and whether it was held when the device was described.
#[derive(Debug, Clone, PartialEq, Eq)]
pub struct PadKey {
    /// The evdev code: `BTN_SOUTH` is 0x130.
    pub code: u16,
    pub name: String,
    pub pressed: bool,
}

/// What arrives on a `pad.input` subscription.
#[derive(Debug, Clone, PartialEq, Eq)]
pub enum PadReport {
    /// A pad's event node is open and reports are coming.
    Attached { device: Box<PadInputDevice> },
    /// One report, as the kernel framed it.
    Frame(PadFrame),
    /// The node closed.
    Detached {
        /// Why, in `padd`'s words.
        why: String,
    },
}

/// One report from the pad: everything the kernel delivered between two `SYN_REPORT`s.
#[derive(Debug, Clone, PartialEq, Eq)]
pub struct PadFrame {
    /// Reports since this device attached, counted by `padd`.
    pub seq: u64,
    /// The kernel's timestamp on the report, microseconds since the epoch.
    pub at_us: u64,
    /// Microseconds since the previous report; signed, because the realtime clock can step.
    pub since_us: Option<i64>,
    /// Every event in the report, in the order the kernel delivered them.
    pub events: Vec<PadEvent>,
    /// `SYN_DROPPED` preceded this report: this reader fell behind.
    pub after_drop: bool,
    /// Reports this subscriber missed because its own socket was behind.
    pub socket_dropped: u64,
}

/// One evdev event, as it came off the device.
#[derive(Debug, Clone, PartialEq, Eq)]
pub struct PadEvent {
    /// The evdev type, numerically: `EV_SYN` 0, `EV_KEY` 1, `EV_ABS` 3.
    pub kind: u16,
    pub code: u16,
    pub value: i32,
    /// The name `linux/input-event-codes.h` gives this type/code pair.
    pub name: String,
}

impl PadEvent {
    /// `EV_SYN` — bookkeeping: the report boundary, and the dropped marker.
    pub const SYNCHRONIZATION: u16 = 0x00;
    /// `EV_KEY` — a button changed state.
    pub const KEY: u16 = 0x01;
    /// `EV_ABS` — an absolute axis moved.
    pub const ABSOLUTE: u16 = 0x03;

    /// Did an axis move?
    pub fn is_axis(&self) -> (r: bool)
        ensures
            r == (self.kind == Self::ABSOLUTE),
    {
        self.kind == Self::ABSOLUTE
    }

    /// Did a button change?
    pub fn is_button(&self) -> (r: bool)
        ensures
            r == (self.kind == Self::KEY),
    {
        self.kind == Self::KEY
    }
}

/// Answer to `pad.input`. `accepted` is not "a pad is connected".
#[derive(Debug, Clone, PartialEq, Eq)]
pub struct PadInputResult {
    pub accepted: bool,
    /// Why not, when it was refused.
    pub reason: Option<String>,
}

/// Answer to `tof.stream`: describes the sensor rather than merely accepting.
#[derive(Debug, Clone, Default, PartialEq, Eq)]
pub struct TofStreamResult {
    pub accepted: bool,
    /// The sensor generation that answered, e.g. `VL53L8CX`.
    pub sensor: Option<String>,
    /// Why there is no sensor.
    pub unavailable: Option<String>,
    pub rows: u8,
    pub cols: u8,
    /// Ranging rate the sensor was started at, Hz.
    pub hz: u8,
}

/// One 8×8 depth frame: millimetres and the sensor's raw status, parallel and row-major.
#[derive(Debug, Clone, Default, PartialEq, Eq)]
pub struct TofFrame {
    /// Frames since this `tofd` started.
    pub seq: u64,
    /// Microseconds since `tofd` started.
    pub at_us: u64,
    pub rows: u8,
    pub cols: u8,
    pub distance_mm: Vec<i16>,
    pub status: Vec<u8>,
}

/// Whether a flag that is false by default is unset — what the wire leaves out.
pub fn not(b: &bool) -> (r: bool)
    ensures
        r == !*b,
{
    !*b
}

/// Whether a counter that is zero on every healthy frame is zero — what the wire leaves out.
pub fn is_zero(n: &u64) -> (r: bool)
    ensures
        r == (*n == 0),
{
    *n == 0
}

} // verus!
