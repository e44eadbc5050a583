//! Tests for the scroll-axis device model and the registry.

use winloop::device::{
    Device, DeviceClass, DeviceInfoData, DeviceUse, ScrollAxis, ScrollOrientation,
};
use winloop::event::LineDelta;
use winloop::registry::{Registry, WindowData};

fn pointer_info() -> DeviceInfoData {
    DeviceInfoData {
        deviceid: 2,
        attachment: 3,
        device_use: DeviceUse::SlavePointer,
        name: "trackpad".to_string(),
        classes: vec![
            DeviceClass::Scroll {
                number: 3,
                orientation: ScrollOrientation::Vertical,
                increment: 10,
            },
            DeviceClass::Scroll {
                number: 4,
                orientation: ScrollOrientation::Horizontal,
                increment: 10,
            },
            DeviceClass::Valuator { number: 3, value: 50 },
            DeviceClass::Valuator { number: 4, value: -20 },
            DeviceClass::OtherClass,
        ],
    }
}

#[test]
fn device_initializes_axes_from_current_valuator_values() {
    let dev = Device::new(&pointer_info());
    assert_eq!(dev.attachment, 3);
    assert_eq!(
        dev.scroll_axes,
        vec![
            (
                3,
                ScrollAxis {
                    increment: 10,
                    orientation: ScrollOrientation::Vertical,
                    position: 50,
                },
            ),
            (
                4,
                ScrollAxis {
                    increment: 10,
                    orientation: ScrollOrientation::Horizontal,
                    position: -20,
                },
            ),
        ]
    );
}

#[test]
fn master_devices_declare_no_scroll_axes() {
    let mut info = pointer_info();
    info.device_use = DeviceUse::MasterPointer;
    let dev = Device::new(&info);
    assert_eq!(dev.scroll_axes, vec![]);
}

#[test]
fn vertical_deltas_are_negated_and_horizontal_ones_are_not() {
    let mut dev = Device::new(&pointer_info());
    // Vertical: moving down by one increment scrolls one line down.
    let delta = dev.scroll_delta(3, 60).unwrap();
    assert_eq!(delta, LineDelta { x_num: 0, y_num: -10, den: 10 });
    // Horizontal: the movement keeps its sign.
    let delta = dev.scroll_delta(4, -10).unwrap();
    assert_eq!(delta, LineDelta { x_num: 10, y_num: 0, den: 10 });
    // An unknown axis is no scroll axis.
    assert_eq!(dev.scroll_delta(9, 1), None);
}

#[test]
fn session_deltas_telescope_to_the_whole_movement() {
    let mut dev = Device::new(&pointer_info());
    // The accumulator starts at 50; a session of reports follows.
    let values = [70, 60, 110, 30];
    let mut sum: i64 = 0;
    for v in values {
        let delta = dev.scroll_delta(3, v).unwrap();
        assert_eq!(delta.den, 10);
        sum += delta.y_num;
    }
    // The numerators sum to minus (final - initial): the vertical flip.
    assert_eq!(sum, -(30 - 50));
}

#[test]
fn reentering_resets_the_accumulator_without_a_delta() {
    let mut dev = Device::new(&pointer_info());
    dev.scroll_delta(3, 60).unwrap();
    // The device re-enters at a far position: no wheel delta is derived
    // from the jump.
    let mut info = pointer_info();
    info.classes = vec![DeviceClass::Valuator { number: 3, value: 500 }];
    dev.reset_scroll_position(&info);
    let delta = dev.scroll_delta(3, 510).unwrap();
    assert_eq!(delta, LineDelta { x_num: 0, y_num: -10, den: 10 });
}

#[test]
fn registry_windows_insert_lookup_remove() {
    let mut reg = Registry::new();
    reg.insert_window(7, WindowData::new(true));
    let data = reg.lookup_window(7).unwrap();
    assert!(data.multitouch);
    assert!(reg.lookup_window(8).is_none());
    assert!(reg.remove_window(7));
    assert!(!reg.remove_window(7));
    assert!(reg.lookup_window(7).is_none());
}

#[test]
fn registry_devices_insert_and_remove() {
    let mut reg = Registry::new();
    reg.insert_device(2, Device::new(&pointer_info()));
    assert!(reg.remove_device(2));
    assert!(!reg.remove_device(2));
}
