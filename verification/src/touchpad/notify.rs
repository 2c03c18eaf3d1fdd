//! The command lines that announce the touchpad's state on the desktop, and the reading of
//! how such a command ended.

use super::error::{TouchpadError, TouchpadErrorView};
use crate::text::{assign, assignment, decimal, format_u32};
use vstd::prelude::*;

verus! {

/// A program and the arguments to start it with.
#[derive(Debug, PartialEq, Eq)]
pub struct Command {
    pub program: String,
    pub args: Vec<String>,
}

/// A `Command` as sequences of characters.
pub struct CommandView {
    pub program: Seq<char>,
    pub args: Seq<Seq<char>>,
}

impl View for Command {
    type V = CommandView;

    open spec fn view(&self) -> CommandView {
        CommandView { program: self.program@, args: self.args.deep_view() }
    }
}

/// The environment variable that names the user who called `sudo`.
pub const SUDO_USER_VARIABLE: &'static str = "SUDO_USER";

/// The environment variable that holds the id of the user who called `sudo`.
pub const SUDO_UID_VARIABLE: &'static str = "SUDO_UID";

/// The environment variable that names the display.
pub const DISPLAY_VARIABLE: &'static str = "DISPLAY";

/// The environment variable that tells where the session bus is.
pub const BUS_VARIABLE: &'static str = "DBUS_SESSION_BUS_ADDRESS";

/// What the environment says of the desktop session of the user who called `sudo`: the
/// values of `SUDO_USER_VARIABLE`, `SUDO_UID_VARIABLE` and `DISPLAY_VARIABLE`, each `None`
/// where it is not set.
#[derive(Debug, PartialEq, Eq)]
pub struct SessionEnv {
    pub sudo_user: Option<String>,
    pub sudo_uid: Option<String>,
    pub display: Option<String>,
}

/// A `SessionEnv` as sequences of characters.
pub struct SessionEnvView {
    pub sudo_user: Option<Seq<char>>,
    pub sudo_uid: Option<Seq<char>>,
    pub display: Option<Seq<char>>,
}

impl View for SessionEnv {
    type V = SessionEnvView;

    open spec fn view(&self) -> SessionEnvView {
        SessionEnvView {
            sudo_user: self.sudo_user.deep_view(),
            sudo_uid: self.sudo_uid.deep_view(),
            display: self.display.deep_view(),
        }
    }
}

/// How a command ended: it could not be started, or it ran and left an exit code (`None`
/// where a signal ended it).
#[derive(Clone, Copy, Debug, PartialEq, Eq, Structural)]
pub enum Completion {
    NotStarted,
    Finished { code: Option<i32> },
}

impl Completion {
    /// Whether the command ran and reported success.
    pub open spec fn succeeded(self) -> bool {
        self == (Completion::Finished { code: Some(0i32) })
    }
}

/// `value`, or `fallback` where there is none.
pub open spec fn or_text(value: Option<Seq<char>>, fallback: Seq<char>) -> Seq<char> {
    match value {
        Some(v) => v,
        None => fallback,
    }
}

/// The notifier's arguments: the application's name, the message, and for how many
/// milliseconds to show it.
pub open spec fn notifier_args(msg: Seq<char>, ms: u32) -> Seq<Seq<char>> {
    seq!["-a"@, "TouchPad"@, msg, "-t"@, decimal(ms as nat)]
}

/// The command that shows `msg` in the session of the user this process runs as.
pub open spec fn pkexec_send_spec(msg: Seq<char>, ms: u32) -> CommandView {
    CommandView { program: "notify-send"@, args: notifier_args(msg, ms) }
}

/// The address of the session bus of the user with the id `uid`.
pub open spec fn bus_address(uid: Seq<char>) -> Seq<char> {
    "unix:path=/run/user/"@ + uid + "/bus"@
}

/// The command that shows `msg` in the session of the user who called `sudo`: the notifier
/// is started as that user (`root` where the environment does not name one), with the
/// display (`:0` where the environment names none) and the session bus of that user's id
/// (`1000` where the environment holds none).
pub open spec fn sudo_send_spec(msg: Seq<char>, ms: u32, env: SessionEnvView) -> CommandView {
    let user = or_text(env.sudo_user, "root"@);
    let uid = or_text(env.sudo_uid, "1000"@);
    let display = or_text(env.display, ":0"@);
    CommandView {
        program: "sudo"@,
        args: seq![
            "-u"@,
            user,
            "env"@,
            assignment(DISPLAY_VARIABLE@, display),
            assignment(BUS_VARIABLE@, bus_address(uid)),
            "notify-send"@,
        ] + notifier_args(msg, ms),
    }
}

/// What the end of a notifier run means: success only where it ran and left exit code 0.
pub open spec fn delivery_spec(done: Completion) -> Result<(), TouchpadErrorView> {
    match done {
        Completion::NotStarted => Err(TouchpadErrorView::Notify("启动 notify-send 失败"@)),
        Completion::Finished { code } => if code == Some(0i32) {
            Ok(())
        } else {
            Err(TouchpadErrorView::Notify("notify-send 返回非零"@))
        },
    }
}

/// The text of `value`, or `fallback` where there is none.
fn text_or(value: &Option<String>, fallback: &str) -> (r: String)
    ensures
        r@ == or_text(value.deep_view(), fallback@),
{
    match value {
        Some(v) => v.clone(),
        None => String::from_str(fallback),
    }
}

/// Appends the notifier's own arguments to `args`.
fn push_notifier_args(args: &mut Vec<String>, msg: &str, ms: u32)
    ensures
        final(args).deep_view() == old(args).deep_view() + notifier_args(msg@, ms),
{
    args.push(String::from_str("-a"));
    args.push(String::from_str("TouchPad"));
    args.push(String::from_str(msg));
    args.push(String::from_str("-t"));
    args.push(format_u32(ms));
    assert(args.deep_view() =~= old(args).deep_view() + notifier_args(msg@, ms));
}

/// Builds the command that shows `msg` for `ms` milliseconds in the session of the user who
/// called `sudo`.
pub fn sudo_send(msg: &str, ms: u32, env: &SessionEnv) -> (r: Command)
    ensures
        r@ == sudo_send_spec(msg@, ms, env@),
{
    let user = text_or(&env.sudo_user, "root");
    let uid = text_or(&env.sudo_uid, "1000");
    let display = text_or(&env.display, ":0");
    let bus = String::from_str("unix:path=/run/user/").concat(uid.as_str()).concat("/bus");
    let mut args: Vec<String> = Vec::new();
    args.push(String::from_str("-u"));
    args.push(user);
    args.push(String::from_str("env"));
    args.push(assign(DISPLAY_VARIABLE, display.as_str()));
    args.push(assign(BUS_VARIABLE, bus.as_str()));
    args.push(String::from_str("notify-send"));
    assert(args.deep_view() =~= sudo_send_spec(msg@, ms, env@).args.subrange(0, 6));
    push_notifier_args(&mut args, msg, ms);
    assert(args.deep_view() =~= sudo_send_spec(msg@, ms, env@).args);
    Command { program: String::from_str("sudo"), args }
}

/// Builds the command that shows `msg` for `ms` milliseconds in the session of the user
/// this process runs as.
pub fn pkexec_send(msg: &str, ms: u32) -> (r: Command)
    ensures
        r@ == pkexec_send_spec(msg@, ms),
{
    let mut args: Vec<String> = Vec::new();
    assert(args.deep_view() =~= Seq::<Seq<char>>::empty());
    push_notifier_args(&mut args, msg, ms);
    assert(args.deep_view() =~= notifier_args(msg@, ms));
    Command { program: String::from_str("notify-send"), args }
}

/// Reads how a notifier run ended.
pub fn delivery(done: Completion) -> (r: Result<(), TouchpadError>)
    ensures
        match r {
            Ok(_) => delivery_spec(done) is Ok,
            Err(e) => delivery_spec(done) == Err::<(), TouchpadErrorView>(e@),
        },
{
    match done {
        Completion::NotStarted => Err(TouchpadError::Notify("启动 notify-send 失败")),
        Completion::Finished { code } => {
            match code {
                Some(0) => Ok(()),
                _ => Err(TouchpadError::Notify("notify-send 返回非零")),
            }
        },
    }
}

} // verus!
