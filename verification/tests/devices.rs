use toggle_touchpad::touchpad::error::TouchpadError;
use toggle_touchpad::touchpad::{
    join_path, names_event_node, InputDevice, TouchPad, SUBSYSTEM, TOUCHPAD_PROPERTY,
};

fn device(syspath: &str, touchpad: Option<&str>) -> InputDevice {
    InputDevice { syspath: Some(String::from(syspath)), touchpad: touchpad.map(String::from) }
}

#[test]
fn devices_are_asked_for_by_name() {
    assert_eq!(SUBSYSTEM, "input");
    assert_eq!(TOUCHPAD_PROPERTY, "ID_INPUT_TOUCHPAD");
}

#[test]
fn join_path_puts_one_separator() {
    assert_eq!(join_path("/sys/class/input/event5", "device/inhibited"), "/sys/class/input/event5/device/inhibited");
    assert_eq!(join_path("/sys/class/input/event5/", "device/inhibited"), "/sys/class/input/event5/device/inhibited");
    assert_eq!(join_path("", "device"), "device");
    assert_eq!(join_path("/", "sys"), "/sys");
    assert_eq!(join_path("/sys", ""), "/sys/");
}

#[test]
fn join_path_lets_an_absolute_segment_win() {
    assert_eq!(join_path("/sys", "/sys/devices/virtual/input/event9"), "/sys/devices/virtual/input/event9");
    assert_eq!(join_path("/sys", "devices/virtual/input/event9"), "/sys/devices/virtual/input/event9");
    assert_eq!(join_path("", "/abs"), "/abs");
}

#[test]
fn event_nodes_are_told_by_their_last_component() {
    assert!(names_event_node("/sys/devices/platform/i8042/serio1/input/input7/event5"));
    assert!(names_event_node("event0"));
    assert!(names_event_node("/event"));
    assert!(!names_event_node("/sys/devices/platform/i8042/serio1/input/input7"));
    assert!(!names_event_node("/sys/devices/platform/i8042/serio1/input/input7/mouse0"));
    assert!(!names_event_node("/sys/event5/input7"));
    assert!(!names_event_node("/sys/devices/event5/"));
    assert!(!names_event_node(""));
    assert!(!names_event_node("/sys/devices/even"));
}

#[test]
fn the_first_touchpad_is_found() {
    let devices = vec![
        device("/sys/devices/a/input/input3", Some("1")),
        device("/sys/devices/a/input/input3/mouse0", Some("1")),
        device("/sys/devices/a/input/input3/event3", None),
        device("/sys/devices/b/input/input4/event4", Some("0")),
        device("/sys/devices/c/input/input7/event7", Some("1")),
        device("/sys/devices/d/input/input8/event8", Some("1")),
    ];
    assert_eq!(
        TouchPad::find_touchpad_sysfs(&devices),
        Some(String::from("/sys/devices/c/input/input7/event7"))
    );
    let tpd = TouchPad::new(1000, 100, &devices).unwrap();
    assert_eq!(tpd.path(), "/sys/devices/c/input/input7/event7/device/inhibited");
    assert_eq!(tpd.uid(), 1000);
    assert_eq!(tpd.gid(), 100);
}

#[test]
fn a_path_outside_the_mount_point_is_put_below_it() {
    let devices = vec![device("devices/c/input/input7/event7", Some("1"))];
    assert_eq!(
        TouchPad::find_touchpad_sysfs(&devices),
        Some(String::from("/sys/devices/c/input/input7/event7"))
    );
}

#[test]
fn no_touchpad_is_found_where_none_declares_itself() {
    let not_found = Err(TouchpadError::Sysfs("未找到触摸板"));
    assert_eq!(TouchPad::find_touchpad_sysfs(&vec![]), None);
    assert_eq!(TouchPad::new(0, 0, &vec![]), not_found);
    let devices = vec![
        device("/sys/devices/a/input/input3/event3", None),
        device("/sys/devices/b/input/input4/event4", Some("0")),
        device("/sys/devices/b/input/input5/event5", Some("")),
        device("/sys/devices/b/input/input6/event6", Some("11")),
        device("/sys/devices/b/input/input6/event7", Some(" 1")),
        device("/sys/devices/c/input/input7", Some("1")),
    ];
    assert_eq!(TouchPad::find_touchpad_sysfs(&devices), None);
    assert_eq!(TouchPad::new(1000, 1000, &devices), not_found);
}

#[test]
fn a_device_without_a_path_ends_the_search() {
    let devices = vec![
        device("/sys/devices/a/input/input3/event3", None),
        InputDevice { syspath: None, touchpad: Some(String::from("1")) },
        device("/sys/devices/c/input/input7/event7", Some("1")),
    ];
    assert_eq!(TouchPad::find_touchpad_sysfs(&devices), None);
    let devices = vec![
        device("/sys/devices/c/input/input7/event7", Some("1")),
        InputDevice { syspath: None, touchpad: None },
    ];
    assert_eq!(
        TouchPad::find_touchpad_sysfs(&devices),
        Some(String::from("/sys/devices/c/input/input7/event7"))
    );
}
