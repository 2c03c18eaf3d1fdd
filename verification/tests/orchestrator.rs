use toggle_touchpad::orchestrator::plan::{Action, Event, Phase, Plan, Step};
use toggle_touchpad::orchestrator::Orchestrator;
use toggle_touchpad::parse::Permissions;
use toggle_touchpad::perm_guard::{Restoration, Switch};
use toggle_touchpad::touchpad::error::TouchpadError;
use toggle_touchpad::touchpad::notify::{Command, Completion, SessionEnv};
use toggle_touchpad::touchpad::InputDevice;
use toggle_touchpad::user::Identity;

const BOB: Identity = Identity { uid: 1000, gid: 1000 };
const FLAG: &str = "/sys/devices/platform/i8042/serio1/input/input7/event5/device/inhibited";

fn session() -> SessionEnv {
    SessionEnv {
        sudo_user: Some(String::from("bob")),
        sudo_uid: Some(String::from("1000")),
        display: Some(String::from(":0")),
    }
}

fn plan(mode: Permissions) -> Plan {
    Plan::new(mode, String::from("/usr/bin/toggle_touchpad"), session())
}

fn one_touchpad() -> Vec<InputDevice> {
    vec![
        InputDevice {
            syspath: Some(String::from("/sys/devices/platform/i8042/serio0/input/input3/event3")),
            touchpad: None,
        },
        InputDevice {
            syspath: Some(String::from("/sys/devices/platform/i8042/serio1/input/input7/event5")),
            touchpad: Some(String::from("1")),
        },
    ]
}

fn no_touchpad() -> Vec<InputDevice> {
    vec![
        InputDevice {
            syspath: Some(String::from("/sys/devices/platform/i8042/serio0/input/input3/event3")),
            touchpad: None,
        },
        InputDevice {
            syspath: Some(String::from("/sys/devices/platform/i8042/serio1/input/input7/event5")),
            touchpad: Some(String::from("0")),
        },
    ]
}

fn strings(list: &[&str]) -> Vec<String> {
    list.iter().map(|s| String::from(*s)).collect()
}

fn quiet(action: Action) -> Step {
    Step { action, diagnostic: None }
}

fn read_flag() -> Action {
    Action::ReadFlag { path: String::from(FLAG) }
}

fn plain_notifier(message: &str) -> Action {
    Action::Notify {
        command: Command {
            program: String::from("notify-send"),
            args: strings(&["-a", "TouchPad", message, "-t", "3000"]),
        },
    }
}

fn sudo_notifier(message: &str) -> Action {
    Action::Notify {
        command: Command {
            program: String::from("sudo"),
            args: strings(&[
                "-u",
                "bob",
                "env",
                "DISPLAY=:0",
                "DBUS_SESSION_BUS_ADDRESS=unix:path=/run/user/1000/bus",
                "notify-send",
                "-a",
                "TouchPad",
                message,
                "-t",
                "3000",
            ]),
        },
    }
}

fn content(text: &str) -> Event {
    Event::FlagRead(Ok(String::from(text)))
}

const DONE: Completion = Completion::Finished { code: Some(0) };

#[test]
fn end_to_end_through_the_helper() {
    // The parent: bob, without privileges and without arguments.
    let mut parent = plan(Permissions::NeedsEscalation { target: BOB });
    assert_eq!(parent.phase(), Phase::Start);
    assert_eq!(
        parent.step(Event::Begin),
        quiet(Action::Escalate {
            command: Command {
                program: String::from("pkexec"),
                args: strings(&[
                    "env",
                    "TPD_UID=1000",
                    "env",
                    "TPD_GID=1000",
                    "/usr/bin/toggle_touchpad",
                    "-e",
                ]),
            },
        })
    );

    // The child that the helper starts: privileged, with bob from the channel.
    let mut child = plan(Permissions::ReEnteredPrivileged { target: BOB });
    assert_eq!(child.step(Event::Begin), quiet(Action::Enumerate));
    assert_eq!(child.step(Event::Devices(Some(one_touchpad()))), quiet(read_flag()));
    assert_eq!(
        child.step(content("0\n")),
        quiet(Action::WriteFlag { path: String::from(FLAG), content: String::from("1\n") })
    );
    assert_eq!(child.step(Event::FlagWritten(Ok(()))), quiet(read_flag()));
    assert_eq!(child.step(content("1\n")), quiet(Action::Become { target: BOB }));
    assert_eq!(child.step(Event::Switched(Switch::Granted)), quiet(plain_notifier("触摸板已关闭")));
    assert_eq!(child.step(Event::Notified(DONE)), quiet(Action::Exit { code: 0 }));
    assert_eq!(child.phase(), Phase::Done);

    // The parent again, once the child has ended with status 0.
    assert_eq!(parent.step(Event::Escalated(DONE)), quiet(Action::Enumerate));
    assert_eq!(parent.step(Event::Devices(Some(one_touchpad()))), quiet(read_flag()));
    assert_eq!(parent.step(content("1\n")), quiet(plain_notifier("触摸板已关闭")));
    assert_eq!(parent.step(Event::Notified(DONE)), quiet(Action::Exit { code: 0 }));
    assert_eq!(parent.status(), 0);
}

#[test]
fn a_privileged_run_borrows_the_identity_for_the_notifier() {
    let mut run = plan(Permissions::AlreadyPrivileged { target: BOB });
    assert_eq!(run.mode(), Permissions::AlreadyPrivileged { target: BOB });
    assert_eq!(run.step(Event::Begin), quiet(Action::Enumerate));
    assert_eq!(run.phase(), Phase::Locating);
    assert_eq!(run.step(Event::Devices(Some(one_touchpad()))), quiet(read_flag()));
    assert_eq!(run.phase(), Phase::Reading);
    assert_eq!(
        run.step(content("1\n")),
        quiet(Action::WriteFlag { path: String::from(FLAG), content: String::from("0\n") })
    );
    assert_eq!(run.phase(), Phase::Writing);
    assert_eq!(run.step(Event::FlagWritten(Ok(()))), quiet(read_flag()));
    assert_eq!(run.phase(), Phase::Checking);
    assert_eq!(run.step(content("0\n")), quiet(Action::DropTo { target: BOB }));
    assert_eq!(run.phase(), Phase::Switching { inhibited: false });
    assert_eq!(run.step(Event::Switched(Switch::Granted)), quiet(sudo_notifier("触摸板已开启")));
    assert_eq!(run.phase(), Phase::Notifying { guarded: true });
    assert_eq!(run.step(Event::Notified(DONE)), quiet(Action::Restore));
    assert_eq!(run.phase(), Phase::Restoring);
    assert_eq!(
        run.step(Event::Restored(Restoration { group: true, user: true })),
        quiet(Action::Exit { code: 0 })
    );
    assert_eq!(run.phase(), Phase::Done);
}

#[test]
fn what_is_announced_is_what_the_second_reading_found() {
    let mut run = plan(Permissions::AlreadyPrivileged { target: BOB });
    run.step(Event::Begin);
    run.step(Event::Devices(Some(one_touchpad())));
    run.step(content("0\n"));
    run.step(Event::FlagWritten(Ok(())));
    // Someone else has switched it back in the meantime.
    assert_eq!(run.step(content("0\n")), quiet(Action::DropTo { target: BOB }));
    assert_eq!(run.step(Event::Switched(Switch::Granted)), quiet(sudo_notifier("触摸板已开启")));
}

#[test]
fn without_a_touchpad_the_run_ends_with_status_one_and_writes_nothing() {
    let not_found = Step {
        action: Action::Exit { code: 1 },
        diagnostic: Some(TouchpadError::Sysfs("未找到触摸板")),
    };
    for mode in [
        Permissions::AlreadyPrivileged { target: BOB },
        Permissions::ReEnteredPrivileged { target: BOB },
    ] {
        for listing in [Some(no_touchpad()), Some(vec![]), None] {
            let mut run = plan(mode);
            assert_eq!(run.step(Event::Begin), quiet(Action::Enumerate));
            assert_eq!(run.step(Event::Devices(listing)), not_found);
            assert_eq!(run.phase(), Phase::Done);
            assert_eq!(run.status(), 1);
            // Whatever is reported after that, the run stays over.
            assert_eq!(run.step(content("0\n")), quiet(Action::Exit { code: 1 }));
            assert_eq!(run.step(Event::FlagWritten(Ok(()))), quiet(Action::Exit { code: 1 }));
            assert_eq!(run.step(Event::Begin), quiet(Action::Exit { code: 1 }));
        }
    }
    let mut parent = plan(Permissions::NeedsEscalation { target: BOB });
    parent.step(Event::Begin);
    assert_eq!(parent.step(Event::Escalated(DONE)), quiet(Action::Enumerate));
    assert_eq!(parent.step(Event::Devices(Some(no_touchpad()))), not_found);
    assert_eq!(parent.status(), 1);
}

#[test]
fn a_flag_file_that_fails_ends_the_run_with_status_one() {
    let malformed = Step {
        action: Action::Exit { code: 1 },
        diagnostic: Some(TouchpadError::Sysfs("读取标志位错误")),
    };
    let unreadable = Step {
        action: Action::Exit { code: 1 },
        diagnostic: Some(TouchpadError::Io(String::from("Permission denied (os error 13)"))),
    };
    let denied = || String::from("Permission denied (os error 13)");

    let mut run = plan(Permissions::AlreadyPrivileged { target: BOB });
    run.step(Event::Begin);
    run.step(Event::Devices(Some(one_touchpad())));
    assert_eq!(run.step(content("2\n")), malformed);

    let mut run = plan(Permissions::AlreadyPrivileged { target: BOB });
    run.step(Event::Begin);
    run.step(Event::Devices(Some(one_touchpad())));
    assert_eq!(run.step(Event::FlagRead(Err(denied()))), unreadable);

    let mut run = plan(Permissions::ReEnteredPrivileged { target: BOB });
    run.step(Event::Begin);
    run.step(Event::Devices(Some(one_touchpad())));
    run.step(content("0\n"));
    assert_eq!(run.step(Event::FlagWritten(Err(denied()))), unreadable);
    assert_eq!(run.status(), 1);

    let mut run = plan(Permissions::ReEnteredPrivileged { target: BOB });
    run.step(Event::Begin);
    run.step(Event::Devices(Some(one_touchpad())));
    run.step(content("0\n"));
    run.step(Event::FlagWritten(Ok(())));
    assert_eq!(run.step(content("yes\n")), malformed);

    let mut parent = plan(Permissions::NeedsEscalation { target: BOB });
    parent.step(Event::Begin);
    parent.step(Event::Escalated(DONE));
    parent.step(Event::Devices(Some(one_touchpad())));
    assert_eq!(parent.step(content("\n")), malformed);
}

#[test]
fn the_helper_s_exit_code_is_handed_on() {
    for (ended, code) in [
        (Completion::Finished { code: Some(0) }, 0),
        (Completion::Finished { code: Some(126) }, 126),
        (Completion::Finished { code: Some(127) }, 127),
        (Completion::Finished { code: None }, 1),
    ] {
        let mut parent = plan(Permissions::NeedsEscalation { target: BOB });
        parent.step(Event::Begin);
        assert_eq!(parent.step(Event::Escalated(ended)), quiet(Action::Enumerate));
        assert_eq!(parent.status(), code);
        assert_eq!(parent.step(Event::Devices(Some(one_touchpad()))), quiet(read_flag()));
        assert_eq!(parent.step(content("0\n")), quiet(plain_notifier("触摸板已开启")));
        assert_eq!(
            parent.step(Event::Notified(Completion::Finished { code: Some(3) })),
            Step {
                action: Action::Exit { code },
                diagnostic: Some(TouchpadError::Notify("notify-send 返回非零")),
            }
        );
    }
}

#[test]
fn a_helper_that_does_not_start_ends_the_run() {
    let mut parent = plan(Permissions::NeedsEscalation { target: BOB });
    parent.step(Event::Begin);
    assert_eq!(
        parent.step(Event::Escalated(Completion::NotStarted)),
        Step {
            action: Action::Exit { code: 1 },
            diagnostic: Some(TouchpadError::PrivDrop("pkexec 执行失败")),
        }
    );
}

#[test]
fn the_notifier_cannot_change_the_exit_status() {
    for ended in [
        Completion::NotStarted,
        Completion::Finished { code: Some(1) },
        Completion::Finished { code: None },
        DONE,
    ] {
        let report = match ended {
            Completion::NotStarted => Some(TouchpadError::Notify("启动 notify-send 失败")),
            Completion::Finished { code: Some(0) } => None,
            Completion::Finished { .. } => Some(TouchpadError::Notify("notify-send 返回非零")),
        };
        let mut run = plan(Permissions::AlreadyPrivileged { target: BOB });
        run.step(Event::Begin);
        run.step(Event::Devices(Some(one_touchpad())));
        run.step(content("0\n"));
        run.step(Event::FlagWritten(Ok(())));
        run.step(content("1\n"));
        run.step(Event::Switched(Switch::Granted));
        assert_eq!(run.step(Event::Notified(ended)), Step { action: Action::Restore, diagnostic: report });
        assert_eq!(
            run.step(Event::Restored(Restoration { group: true, user: true })),
            quiet(Action::Exit { code: 0 })
        );
    }
}

#[test]
fn a_refused_identity_means_no_announcement() {
    for refusal in [Switch::GroupRefused, Switch::UserRefused] {
        for mode in [
            Permissions::AlreadyPrivileged { target: BOB },
            Permissions::ReEnteredPrivileged { target: BOB },
        ] {
            let mut run = plan(mode);
            run.step(Event::Begin);
            run.step(Event::Devices(Some(one_touchpad())));
            run.step(content("0\n"));
            run.step(Event::FlagWritten(Ok(())));
            run.step(content("1\n"));
            assert_eq!(
                run.step(Event::Switched(refusal)),
                Step {
                    action: Action::Exit { code: 0 },
                    diagnostic: Some(TouchpadError::PrivDrop("无法切换到目标用户")),
                }
            );
        }
    }
}

#[test]
fn an_identity_that_does_not_come_back_is_reported_and_no_more() {
    let mut run = plan(Permissions::AlreadyPrivileged { target: BOB });
    run.step(Event::Begin);
    run.step(Event::Devices(Some(one_touchpad())));
    run.step(content("0\n"));
    run.step(Event::FlagWritten(Ok(())));
    run.step(content("1\n"));
    run.step(Event::Switched(Switch::Granted));
    run.step(Event::Notified(DONE));
    assert_eq!(
        run.step(Event::Restored(Restoration { group: true, user: false })),
        Step {
            action: Action::Exit { code: 0 },
            diagnostic: Some(TouchpadError::PrivDrop("无法恢复原用户身份")),
        }
    );
}

#[test]
fn an_event_out_of_turn_ends_the_run() {
    let mut run = plan(Permissions::AlreadyPrivileged { target: BOB });
    assert_eq!(run.step(Event::FlagWritten(Ok(()))), quiet(Action::Exit { code: 1 }));

    let mut run = plan(Permissions::AlreadyPrivileged { target: BOB });
    run.step(Event::Begin);
    assert_eq!(run.step(content("0\n")), quiet(Action::Exit { code: 1 }));

    // Under a borrowed identity the run first gives it back.
    let mut run = plan(Permissions::AlreadyPrivileged { target: BOB });
    run.step(Event::Begin);
    run.step(Event::Devices(Some(one_touchpad())));
    run.step(content("0\n"));
    run.step(Event::FlagWritten(Ok(())));
    run.step(content("1\n"));
    run.step(Event::Switched(Switch::Granted));
    assert_eq!(run.step(Event::Begin), quiet(Action::Restore));
    assert_eq!(
        run.step(Event::Restored(Restoration { group: true, user: true })),
        quiet(Action::Exit { code: 1 })
    );
}

#[test]
fn the_orchestrator_goes_the_way_through_the_helper() {
    let mut run = Orchestrator::new(
        Permissions::NeedsEscalation { target: BOB },
        String::from("/usr/bin/toggle_touchpad"),
        session(),
    );
    let before = run.identity();
    assert!(run.ready());
    let first = run.advance(Event::Begin);
    assert!(run.ready());
    assert!(first.diagnostics.is_empty());
    match first.action {
        Action::Escalate { command } => {
            assert_eq!(command.program, "pkexec");
            assert_eq!(command.args[1], "TPD_UID=1000");
            assert_eq!(command.args[3], "TPD_GID=1000");
            assert_eq!(command.args[5], "-e");
        }
        other => panic!("{:?}", other),
    }
    assert_eq!(run.advance(Event::Escalated(Completion::Finished { code: Some(4) })).action, Action::Enumerate);
    assert_eq!(run.advance(Event::Devices(Some(one_touchpad()))).action, read_flag());
    assert_eq!(run.advance(content("1\n")).action, plain_notifier("触摸板已关闭"));
    let last = run.advance(Event::Notified(Completion::NotStarted));
    assert_eq!(last.action, Action::Exit { code: 4 });
    assert_eq!(last.diagnostics, vec![TouchpadError::Notify("启动 notify-send 失败")]);
    assert_eq!(run.identity(), before);
    assert!(run.ready());
    assert_eq!(run.advance(Event::Begin).action, Action::Exit { code: 4 });
}
