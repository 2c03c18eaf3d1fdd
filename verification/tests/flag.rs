use toggle_touchpad::touchpad::error::TouchpadError;
use toggle_touchpad::touchpad::notify::SessionEnv;
use toggle_touchpad::touchpad::{message_for, read_flag, InputDevice, TouchPad, NOTIFY_MS};

fn touchpad() -> TouchPad {
    let devices = vec![InputDevice {
        syspath: Some(String::from("/sys/devices/platform/i8042/serio1/input/input7/event5")),
        touchpad: Some(String::from("1")),
    }];
    TouchPad::new(1000, 1000, &devices).unwrap()
}

fn malformed() -> TouchpadError {
    TouchpadError::Sysfs("读取标志位错误")
}

#[test]
fn toggle_round_trip() {
    let tpd = touchpad();
    let first = tpd.toggle("0\n").unwrap();
    assert_eq!(first, "1\n");
    assert_eq!(tpd.status(first), Ok(true));
    let second = tpd.toggle(first).unwrap();
    assert_eq!(second, "0\n");
    assert_eq!(tpd.status(second), Ok(false));
}

#[test]
fn toggle_writes_the_opposite() {
    let tpd = touchpad();
    assert_eq!(tpd.toggle("1\n"), Ok("0\n"));
    assert_eq!(tpd.toggle("1"), Ok("0\n"));
    assert_eq!(tpd.toggle("  0  "), Ok("1\n"));
}

#[test]
fn decode_is_strict() {
    assert_eq!(read_flag("2\n"), Err(malformed()));
    assert_eq!(read_flag("\n"), Err(malformed()));
    assert_eq!(read_flag("yes\n"), Err(malformed()));
}

#[test]
fn decode_takes_only_the_two_digits() {
    assert_eq!(read_flag("0\n"), Ok(false));
    assert_eq!(read_flag("1\n"), Ok(true));
    assert_eq!(read_flag("0"), Ok(false));
    assert_eq!(read_flag(" 1\t\r\n"), Ok(true));
    assert_eq!(read_flag("\u{a0}0\u{3000}"), Ok(false));
    assert_eq!(read_flag(""), Err(malformed()));
    assert_eq!(read_flag("   "), Err(malformed()));
    assert_eq!(read_flag("01"), Err(malformed()));
    assert_eq!(read_flag("+1"), Err(malformed()));
    assert_eq!(read_flag("10"), Err(malformed()));
    assert_eq!(read_flag("0 1"), Err(malformed()));
    assert_eq!(read_flag("-0"), Err(malformed()));
    assert_eq!(read_flag("１"), Err(malformed()));
    assert_eq!(read_flag("true"), Err(malformed()));
}

#[test]
fn status_and_toggle_refuse_what_is_no_flag() {
    let tpd = touchpad();
    assert_eq!(tpd.status("2\n"), Err(malformed()));
    assert_eq!(tpd.toggle("yes\n"), Err(malformed()));
    assert_eq!(tpd.toggle(""), Err(malformed()));
}

#[test]
fn messages_name_the_state() {
    assert_eq!(message_for(true), "触摸板已关闭");
    assert_eq!(message_for(false), "触摸板已开启");
    assert_eq!(NOTIFY_MS, 3000);
}

#[test]
fn send_notify_announces_what_the_file_holds() {
    let tpd = touchpad();
    let env = SessionEnv {
        sudo_user: Some(String::from("bob")),
        sudo_uid: Some(String::from("1000")),
        display: Some(String::from(":1")),
    };
    let command = tpd.send_notify("1\n", &env).unwrap();
    assert_eq!(command.program, "sudo");
    assert_eq!(
        command.args,
        vec![
            "-u",
            "bob",
            "env",
            "DISPLAY=:1",
            "DBUS_SESSION_BUS_ADDRESS=unix:path=/run/user/1000/bus",
            "notify-send",
            "-a",
            "TouchPad",
            "触摸板已关闭",
            "-t",
            "3000",
        ]
    );
    let command = tpd.send_notify("0\n", &env).unwrap();
    assert_eq!(command.args[8], "触摸板已开启");
    assert_eq!(tpd.send_notify("?", &env), Err(malformed()));
}

#[test]
fn notify_status_announces_what_the_file_holds() {
    let tpd = touchpad();
    let command = tpd.notify_status("0\n").unwrap();
    assert_eq!(command.program, "notify-send");
    assert_eq!(command.args, vec!["-a", "TouchPad", "触摸板已开启", "-t", "3000"]);
    let command = tpd.notify_status(" 1 ").unwrap();
    assert_eq!(command.args, vec!["-a", "TouchPad", "触摸板已关闭", "-t", "3000"]);
    assert_eq!(tpd.notify_status("3"), Err(malformed()));
}
