use duck_robot::pad::{is_zero, not};
use duck_robot::{PadEvent, PadInputDevice};

#[test]
fn a_usb_pad_is_not_on_the_radio() {
    let usb = PadInputDevice {
        name: "Xbox Wireless Controller".into(),
        node: "/dev/input/event5".into(),
        unique: None,
        bus: PadInputDevice::BUS_USB,
        vendor: 0,
        product: 0,
        axes: vec![],
        buttons: vec![],
    };
    assert!(!usb.over_bluetooth());
    assert!(
        PadInputDevice {
            bus: PadInputDevice::BUS_BLUETOOTH,
            ..usb
        }
        .over_bluetooth()
    );
}

#[test]
fn events_are_told_apart_by_their_type() {
    let axis = PadEvent { kind: PadEvent::ABSOLUTE, code: 0, value: 1583, name: "ABS_X".into() };
    let button = PadEvent { kind: PadEvent::KEY, code: 0x130, value: 1, name: "BTN_SOUTH".into() };
    let sync = PadEvent {
        kind: PadEvent::SYNCHRONIZATION,
        code: 0,
        value: 0,
        name: "SYN_REPORT".into(),
    };
    assert!(axis.is_axis() && !axis.is_button());
    assert!(button.is_button() && !button.is_axis());
    assert!(!sync.is_axis() && !sync.is_button());
}

#[test]
fn quiet_fields_are_the_ones_left_out() {
    assert!(not(&false));
    assert!(!not(&true));
    assert!(is_zero(&0));
    assert!(!is_zero(&3));
}
