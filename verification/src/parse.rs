//! From the command line and the identity of the process to the way the touchpad is to be
//! switched: directly, through the escalation helper, or as the helper's child.

use crate::text::{
    assign, assignment, decimal, format_u32, lemma_parse_decimal, parse_u32, parse_u32_spec, str_eq,
};
use crate::touchpad::notify::{Command, CommandView};
use crate::user::{get_current_guid, is_root, lookup, Identity};
use vstd::prelude::*;

verus! {

/// The three ways to run. In each, `target` is the unprivileged user for whom the touchpad
/// is switched and to whom the result is announced.
#[derive(Clone, Copy, Debug, PartialEq, Eq, Structural)]
pub enum Permissions {
    /// The process is privileged already and was told the user.
    AlreadyPrivileged { target: Identity },
    /// The process is not privileged and has to start itself again through the helper.
    NeedsEscalation { target: Identity },
    /// The process was started by the helper and got the user from the re-entry channel.
    ReEnteredPrivileged { target: Identity },
}

impl Permissions {
    /// The user for whom the touchpad is switched.
    pub open spec fn target_of(self) -> Identity {
        match self {
            Permissions::AlreadyPrivileged { target } => target,
            Permissions::NeedsEscalation { target } => target,
            Permissions::ReEnteredPrivileged { target } => target,
        }
    }

    /// The user for whom the touchpad is switched.
    pub fn target(&self) -> (r: Identity)
        ensures
            r == self.target_of(),
    {
        match self {
            Permissions::AlreadyPrivileged { target } => *target,
            Permissions::NeedsEscalation { target } => *target,
            Permissions::ReEnteredPrivileged { target } => *target,
        }
    }
}

/// Why a command line is not acted on. Each ends the program with status 2.
#[derive(Clone, Copy, Debug, PartialEq, Eq, Structural)]
pub enum UsageError {
    /// The usage text was asked for.
    HelpRequested,
    /// Something follows the user name.
    ExtraArguments,
    /// The user database holds no user of that name.
    UnknownUser,
    /// The process is privileged and was given no user name.
    MissingUsername,
    /// The re-entry channel lacks an id, or holds one that is no number.
    BadChannel,
}

impl UsageError {
    /// The exit status for a command line that is not acted on.
    pub fn exit_status(&self) -> (r: i32)
        ensures
            r == 2,
    {
        2
    }

    /// The line that reports this error; none for a request for help, which is answered
    /// with the usage text.
    pub open spec fn message_of(self) -> Option<Seq<char>> {
        match self {
            UsageError::HelpRequested => None,
            UsageError::ExtraArguments => Some("ERROR: 多余的参数"@),
            UsageError::UnknownUser => Some("ERROR: 用户没有找到，请确认用户是否存在"@),
            UsageError::MissingUsername => Some(
                "ERROR: 参数不合法,如果要使用root权限运行的话,请提供普通用户名"@,
            ),
            UsageError::BadChannel => Some("ERROR: 环境变量 TPD_UID 或 TPD_GID 无效"@),
        }
    }

    /// The line that reports this error.
    pub fn message(&self) -> (r: Option<&'static str>)
        ensures
            r.deep_view() == self.message_of(),
    {
        match self {
            UsageError::HelpRequested => None,
            UsageError::ExtraArguments => Some("ERROR: 多余的参数"),
            UsageError::UnknownUser => Some("ERROR: 用户没有找到，请确认用户是否存在"),
            UsageError::MissingUsername => Some(
                "ERROR: 参数不合法,如果要使用root权限运行的话,请提供普通用户名",
            ),
            UsageError::BadChannel => Some("ERROR: 环境变量 TPD_UID 或 TPD_GID 无效"),
        }
    }
}

/// The environment variable that carries the user id through the helper.
pub const UID_VARIABLE: &'static str = "TPD_UID";

/// The environment variable that carries the group id through the helper.
pub const GID_VARIABLE: &'static str = "TPD_GID";

/// The channel through which a process started by the helper learns for whom it works: the
/// values of the environment variables `UID_VARIABLE` and `GID_VARIABLE`, each `None` where
/// it is not set.
#[derive(Debug, PartialEq, Eq)]
pub struct ReentryChannel {
    pub uid: Option<String>,
    pub gid: Option<String>,
}

/// A `ReentryChannel` as sequences of characters.
pub struct ReentryChannelView {
    pub uid: Option<Seq<char>>,
    pub gid: Option<Seq<char>>,
}

impl View for ReentryChannel {
    type V = ReentryChannelView;

    open spec fn view(&self) -> ReentryChannelView {
        ReentryChannelView { uid: self.uid.deep_view(), gid: self.gid.deep_view() }
    }
}

/// The number that a channel variable holds, where it is set and holds one.
pub open spec fn channel_id(value: Option<Seq<char>>) -> Option<u32> {
    match value {
        Some(text) => parse_u32_spec(text),
        None => None,
    }
}

/// The identity that `channel` carries: both variables are set and each holds a number.
pub open spec fn decode_channel(channel: ReentryChannelView) -> Option<Identity> {
    match (channel_id(channel.uid), channel_id(channel.gid)) {
        (Some(uid), Some(gid)) => Some(Identity { uid, gid }),
        _ => None,
    }
}

/// The channel that carries `target`.
pub open spec fn encode_channel(target: Identity) -> ReentryChannelView {
    ReentryChannelView {
        uid: Some(decimal(target.uid as nat)),
        gid: Some(decimal(target.gid as nat)),
    }
}

/// The command that starts `program` again through the escalation helper, with the channel
/// that carries `target` in its environment and the re-entry flag as its argument.
pub open spec fn escalation_spec(target: Identity, program: Seq<char>) -> CommandView {
    CommandView {
        program: "pkexec"@,
        args: seq![
            "env"@,
            assignment(UID_VARIABLE@, encode_channel(target).uid->0),
            "env"@,
            assignment(GID_VARIABLE@, encode_channel(target).gid->0),
            program,
            "-e"@,
        ],
    }
}

/// The number that a channel variable holds.
fn read_channel_id(value: &Option<String>) -> (r: Option<u32>)
    ensures
        r == channel_id(value.deep_view()),
{
    match value {
        Some(text) => parse_u32(text.as_str()),
        None => None,
    }
}

impl ReentryChannel {
    /// The identity that the channel carries.
    pub fn decode(&self) -> (r: Option<Identity>)
        ensures
            r == decode_channel(self@),
    {
        match (read_channel_id(&self.uid), read_channel_id(&self.gid)) {
            (Some(uid), Some(gid)) => Some(Identity { uid, gid }),
            _ => None,
        }
    }

    /// The channel that carries `target`.
    pub fn encode(target: Identity) -> (r: ReentryChannel)
        ensures
            r@ == encode_channel(target),
    {
        ReentryChannel { uid: Some(format_u32(target.uid)), gid: Some(format_u32(target.gid)) }
    }
}

/// Builds the command that starts `program` again through the escalation helper on behalf
/// of `target`.
pub fn escalation_command(target: Identity, program: &str) -> (r: Command)
    ensures
        r@ == escalation_spec(target, program@),
{
    let channel = ReentryChannel::encode(target);
    let uid = match channel.uid {
        Some(text) => text,
        None => String::new(),
    };
    let gid = match channel.gid {
        Some(text) => text,
        None => String::new(),
    };
    let mut args: Vec<String> = Vec::new();
    args.push(String::from_str("env"));
    args.push(assign(UID_VARIABLE, uid.as_str()));
    args.push(String::from_str("env"));
    args.push(assign(GID_VARIABLE, gid.as_str()));
    args.push(String::from_str(program));
    args.push(String::from_str("-e"));
    assert(args.deep_view() =~= escalation_spec(target, program@).args);
    Command { program: String::from_str("pkexec"), args }
}

/// The channel that carries an identity gives that identity back.
pub proof fn lemma_channel_round_trip(target: Identity)
    ensures
        decode_channel(encode_channel(target)) == Some(target),
{
    lemma_parse_decimal(target.uid);
    lemma_parse_decimal(target.gid);
}

/// What the process has found out about itself and the user database before it decides.
#[derive(Clone, Copy, Debug, PartialEq, Eq, Structural)]
pub struct Observed {
    /// Whether the process runs with the superuser's rights.
    pub is_root: bool,
    /// The identity of the user who started the process.
    pub current: Identity,
    /// What the user database holds for the name on the command line; `None` where it
    /// holds nothing, or where no name was looked up.
    pub named: Option<Identity>,
}

/// Whether `arg` asks for the usage text.
pub open spec fn is_help_flag(arg: Seq<char>) -> bool {
    arg == "--help"@ || arg == "-h"@
}

/// Whether `arg` marks a process that the escalation helper started.
pub open spec fn is_reentry_flag(arg: Seq<char>) -> bool {
    arg == "-e"@ || arg == "--get-env"@
}

/// Whether the command line `args`, which begins with the program's name, gives a user
/// name: it has a first argument, and that is none of the flags.
pub open spec fn names_user(args: Seq<Seq<char>>) -> bool {
    args.len() >= 2 && !is_help_flag(args[1]) && !is_reentry_flag(args[1])
}

/// The way to run for the command line `args`, which begins with the program's name, the
/// re-entry `channel`, and what the process has `seen` of itself.
///
/// The first argument decides. A help flag gives the usage text, whatever follows it. A
/// re-entry flag gives the identity from the channel. A user name, which nothing may
/// follow, gives that user's identity: to a privileged process for direct use, to any other
/// for the helper. Without arguments a privileged process lacks its user, and any other
/// asks the helper on behalf of the user who started it.
pub open spec fn negotiation(
    args: Seq<Seq<char>>,
    channel: ReentryChannelView,
    seen: Observed,
) -> Result<Permissions, UsageError> {
    if args.len() < 2 {
        if seen.is_root {
            Err(UsageError::MissingUsername)
        } else {
            Ok(Permissions::NeedsEscalation { target: seen.current })
        }
    } else if is_help_flag(args[1]) {
        Err(UsageError::HelpRequested)
    } else if is_reentry_flag(args[1]) {
        match decode_channel(channel) {
            Some(target) => Ok(Permissions::ReEnteredPrivileged { target }),
            None => Err(UsageError::BadChannel),
        }
    } else if args.len() >= 3 {
        Err(UsageError::ExtraArguments)
    } else {
        match seen.named {
            None => Err(UsageError::UnknownUser),
            Some(target) => if seen.is_root {
                Ok(Permissions::AlreadyPrivileged { target })
            } else {
                Ok(Permissions::NeedsEscalation { target })
            },
        }
    }
}

/// Tests whether `arg` asks for the usage text.
fn asks_help(arg: &str) -> (r: bool)
    ensures
        r == is_help_flag(arg@),
{
    str_eq(arg, "--help") || str_eq(arg, "-h")
}

/// Tests whether `arg` marks a process that the escalation helper started.
fn marks_reentry(arg: &str) -> (r: bool)
    ensures
        r == is_reentry_flag(arg@),
{
    str_eq(arg, "-e") || str_eq(arg, "--get-env")
}

/// Decides the way to run from the command line `args`, which begins with the program's
/// name, the re-entry `channel`, and what the process has `seen` of itself.
pub fn negotiate(args: &Vec<String>, channel: &ReentryChannel, seen: &Observed) -> (r: Result<
    Permissions,
    UsageError,
>)
    ensures
        r == negotiation(args.deep_view(), channel@, *seen),
{
    if args.len() < 2 {
        return if seen.is_root {
            Err(UsageError::MissingUsername)
        } else {
            Ok(Permissions::NeedsEscalation { target: seen.current })
        };
    }
    let first = args[1].as_str();
    assert(first@ == args.deep_view()[1]);
    if asks_help(first) {
        Err(UsageError::HelpRequested)
    } else if marks_reentry(first) {
        match channel.decode() {
            Some(target) => Ok(Permissions::ReEnteredPrivileged { target }),
            None => Err(UsageError::BadChannel),
        }
    } else if args.len() >= 3 {
        Err(UsageError::ExtraArguments)
    } else {
        match seen.named {
            None => Err(UsageError::UnknownUser),
            Some(target) => if seen.is_root {
                Ok(Permissions::AlreadyPrivileged { target })
            } else {
                Ok(Permissions::NeedsEscalation { target })
            },
        }
    }
}

/// Whether the command line alone decides: it begins with a flag, or holds more than one
/// argument.
pub open spec fn decided_by_input(args: Seq<Seq<char>>) -> bool {
    args.len() >= 3 || (args.len() == 2 && !names_user(args))
}

/// Decides the way to run from the command line `args`, which begins with the program's
/// name, and the re-entry `channel`. Whether the process is privileged, who started it and
/// whom a user name stands for is asked of the system; the decision is `negotiation` on
/// what the system answered, and so does not depend on the answers where the command line
/// alone decides.
pub fn parse_args(args: &Vec<String>, channel: &ReentryChannel) -> (r: Result<
    Permissions,
    UsageError,
>)
    ensures
        exists|seen: Observed| r == #[trigger] negotiation(args.deep_view(), channel@, seen),
        decided_by_input(args.deep_view()) ==> forall|seen: Observed|
            r == #[trigger] negotiation(args.deep_view(), channel@, seen),
{
    let named = if args.len() == 2 {
        let first = args[1].as_str();
        if asks_help(first) || marks_reentry(first) {
            None
        } else {
            lookup(first)
        }
    } else {
        None
    };
    let (uid, gid) = get_current_guid();
    let seen = Observed { is_root: is_root(), current: Identity { uid, gid }, named };
    negotiate(args, channel, &seen)
}

/// The usage text for a program called `name`.
pub open spec fn help_spec(name: Seq<char>) -> Seq<char> {
    name + " - 切换触摸板状态\n\nUSAGE:\n    "@ + name
        + " [OPTIONS] [USERNAME]\n\nOPTIONS:\n    -h, --help       显示帮助信息\n    -e, --get-env    从环境变量获取用户ID（内部使用）\n\nARGS:\n    USERNAME         指定要降权的普通用户名（root权限运行时）\n\n说明:\n    当以普通用户运行时，程序会尝试使用 pkexec 获取root权限。\n    当以root用户运行时，必须提供要降权的普通用户名。\n\n"@
}

/// Writes the usage text for a program called `name`.
pub fn print_help(name: &str) -> (r: String)
    ensures
        r@ == help_spec(name@),
{
    String::from_str(name).concat(" - 切换触摸板状态\n\nUSAGE:\n    ").concat(name).concat(
        " [OPTIONS] [USERNAME]\n\nOPTIONS:\n    -h, --help       显示帮助信息\n    -e, --get-env    从环境变量获取用户ID（内部使用）\n\nARGS:\n    USERNAME         指定要降权的普通用户名（root权限运行时）\n\n说明:\n    当以普通用户运行时，程序会尝试使用 pkexec 获取root权限。\n    当以root用户运行时，必须提供要降权的普通用户名。\n\n",
    )
}

/// The decision, case by case. `args` begins with the program's name.
///
/// A help flag in the first place is an error, whoever asks. A re-entry flag gives the
/// identity that the channel carries. One user name gives that user's identity, to a
/// privileged process as `AlreadyPrivileged`, to any other as `NeedsEscalation`; an unknown
/// name, or anything behind the name, is an error. No argument is an error for a privileged
/// process, and gives any other `NeedsEscalation` for the user who started it. So a mode
/// that acts directly is only ever given to a privileged process, and the helper is only
/// asked for by one that is not.
pub proof fn lemma_negotiation_cases(
    args: Seq<Seq<char>>,
    channel: ReentryChannelView,
    seen: Observed,
)
    ensures
        ({
            let decision = negotiation(args, channel, seen);
            &&& args.len() >= 2 && is_help_flag(args[1]) ==> decision == Err::<
                Permissions,
                UsageError,
            >(UsageError::HelpRequested)
            &&& args.len() >= 2 && is_reentry_flag(args[1]) ==> decision == match decode_channel(
                channel,
            ) {
                Some(target) => Ok(Permissions::ReEnteredPrivileged { target }),
                None => Err(UsageError::BadChannel),
            }
            &&& names_user(args) && args.len() > 2 ==> decision == Err::<Permissions, UsageError>(
                UsageError::ExtraArguments,
            )
            &&& names_user(args) && args.len() == 2 ==> decision == match seen.named {
                Some(target) => Ok(
                    if seen.is_root {
                        Permissions::AlreadyPrivileged { target }
                    } else {
                        Permissions::NeedsEscalation { target }
                    },
                ),
                None => Err(UsageError::UnknownUser),
            }
            &&& args.len() < 2 ==> decision == if seen.is_root {
                Err(UsageError::MissingUsername)
            } else {
                Ok(Permissions::NeedsEscalation { target: seen.current })
            }
            &&& decision matches Ok(Permissions::AlreadyPrivileged { .. }) ==> seen.is_root
            &&& decision matches Ok(Permissions::NeedsEscalation { .. }) ==> !seen.is_root
        }),
{
    if args.len() >= 2 {
        lemma_flags_differ(args[1]);
    }
}

/// No argument is a help flag and a re-entry flag at once.
pub proof fn lemma_flags_differ(arg: Seq<char>)
    ensures
        !(is_help_flag(arg) && is_reentry_flag(arg)),
{
    reveal_strlit("--help");
    reveal_strlit("-h");
    reveal_strlit("-e");
    reveal_strlit("--get-env");
    assert("--help"@.len() == 6 && "-h"@.len() == 2);
    assert("-e"@.len() == 2 && "--get-env"@.len() == 9);
    assert("-h"@[1] == 'h' && "-e"@[1] == 'e');
}

/// The user survives the way through the helper: a process that is started with the
/// re-entry flag and the channel that carries `target` decides for `target`, whatever it
/// sees of itself.
pub proof fn lemma_reentry_keeps_target(args: Seq<Seq<char>>, target: Identity, seen: Observed)
    requires
        args.len() >= 2,
        is_reentry_flag(args[1]),
    ensures
        negotiation(args, encode_channel(target), seen) == Ok::<Permissions, UsageError>(
            Permissions::ReEnteredPrivileged { target },
        ),
{
    lemma_flags_differ(args[1]);
    lemma_channel_round_trip(target);
}

} // verus!
