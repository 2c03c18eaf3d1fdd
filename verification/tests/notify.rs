use toggle_touchpad::touchpad::error::TouchpadError;
use toggle_touchpad::touchpad::notify::{
    delivery, pkexec_send, sudo_send, Completion, SessionEnv, BUS_VARIABLE, DISPLAY_VARIABLE,
    SUDO_UID_VARIABLE, SUDO_USER_VARIABLE,
};

#[test]
fn sudo_send_addresses_the_calling_user() {
    let env = SessionEnv {
        sudo_user: Some(String::from("alice")),
        sudo_uid: Some(String::from("1001")),
        display: Some(String::from(":7")),
    };
    let command = sudo_send("hello", 1500, &env);
    assert_eq!(command.program, "sudo");
    assert_eq!(
        command.args,
        vec![
            "-u",
            "alice",
            "env",
            "DISPLAY=:7",
            "DBUS_SESSION_BUS_ADDRESS=unix:path=/run/user/1001/bus",
            "notify-send",
            "-a",
            "TouchPad",
            "hello",
            "-t",
            "1500",
        ]
    );
}

#[test]
fn sudo_send_falls_back_where_the_environment_is_silent() {
    let env = SessionEnv { sudo_user: None, sudo_uid: None, display: None };
    let command = sudo_send("触摸板已开启", 3000, &env);
    assert_eq!(command.program, "sudo");
    assert_eq!(
        command.args,
        vec![
            "-u",
            "root",
            "env",
            "DISPLAY=:0",
            "DBUS_SESSION_BUS_ADDRESS=unix:path=/run/user/1000/bus",
            "notify-send",
            "-a",
            "TouchPad",
            "触摸板已开启",
            "-t",
            "3000",
        ]
    );
}

#[test]
fn the_session_is_read_from_its_variables() {
    assert_eq!(SUDO_USER_VARIABLE, "SUDO_USER");
    assert_eq!(SUDO_UID_VARIABLE, "SUDO_UID");
    assert_eq!(DISPLAY_VARIABLE, "DISPLAY");
    assert_eq!(BUS_VARIABLE, "DBUS_SESSION_BUS_ADDRESS");
}

#[test]
fn pkexec_send_calls_the_notifier_directly() {
    let command = pkexec_send("触摸板已关闭", 3000);
    assert_eq!(command.program, "notify-send");
    assert_eq!(command.args, vec!["-a", "TouchPad", "触摸板已关闭", "-t", "3000"]);
    let command = pkexec_send("", 0);
    assert_eq!(command.args, vec!["-a", "TouchPad", "", "-t", "0"]);
}

#[test]
fn delivery_takes_only_exit_code_zero_for_success() {
    assert_eq!(delivery(Completion::Finished { code: Some(0) }), Ok(()));
    assert_eq!(
        delivery(Completion::Finished { code: Some(1) }),
        Err(TouchpadError::Notify("notify-send 返回非零"))
    );
    assert_eq!(
        delivery(Completion::Finished { code: Some(-1) }),
        Err(TouchpadError::Notify("notify-send 返回非零"))
    );
    assert_eq!(
        delivery(Completion::Finished { code: None }),
        Err(TouchpadError::Notify("notify-send 返回非零"))
    );
    assert_eq!(
        delivery(Completion::NotStarted),
        Err(TouchpadError::Notify("启动 notify-send 失败"))
    );
}

#[test]
fn errors_are_reported_by_kind() {
    assert_eq!(TouchpadError::Io(String::from("permission denied")).message(), "IO 错误: permission denied");
    assert_eq!(TouchpadError::Sysfs("未找到触摸板").message(), "sysfs 错误: 未找到触摸板");
    assert_eq!(TouchpadError::Notify("notify-send 返回非零").message(), "通知错误: notify-send 返回非零");
    assert_eq!(TouchpadError::PrivDrop("x").message(), "权限切换错误: x");
}
