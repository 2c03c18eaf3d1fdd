//! The touchpad's inhibit flag: where it lies, what it holds, and what to write to switch it.

pub mod error;
pub mod notify;

use crate::text::{is_space, starts_with, str_eq, trim, trim_bounds};
use crate::touchpad::error::{TouchpadError, TouchpadErrorView};
use crate::touchpad::notify::{
    pkexec_send, pkexec_send_spec, sudo_send, sudo_send_spec, Command, SessionEnv,
};
use vstd::prelude::*;

verus! {

/// The subsystem whose devices are listed.
pub const SUBSYSTEM: &'static str = "input";

/// The property by which a device declares itself a touchpad.
pub const TOUCHPAD_PROPERTY: &'static str = "ID_INPUT_TOUCHPAD";

/// What device enumeration tells of one device of `SUBSYSTEM`: its path below the sys
/// mount point, where it has one that is text, and the value of its `TOUCHPAD_PROPERTY`,
/// where it has that property.
#[derive(Debug, PartialEq, Eq)]
pub struct InputDevice {
    pub syspath: Option<String>,
    pub touchpad: Option<String>,
}

/// An `InputDevice` as sequences of characters.
pub struct InputDeviceView {
    pub syspath: Option<Seq<char>>,
    pub touchpad: Option<Seq<char>>,
}

impl DeepView for InputDevice {
    type V = InputDeviceView;

    open spec fn deep_view(&self) -> InputDeviceView {
        InputDeviceView { syspath: self.syspath.deep_view(), touchpad: self.touchpad.deep_view() }
    }
}

/// Where the last component of `path` begins: behind its last `/`, or at 0 where it has
/// none.
pub open spec fn name_start(path: Seq<char>) -> int
    decreases path.len(),
{
    if path.len() == 0 {
        0
    } else if path.last() == '/' {
        path.len() as int
    } else {
        name_start(path.drop_last())
    }
}

/// The last component of `path`: what follows its last `/`.
pub open spec fn basename(path: Seq<char>) -> Seq<char> {
    path.subrange(name_start(path), path.len() as int)
}

/// Whether `path` names an event node: its last component begins with `event`.
pub open spec fn is_event_node(path: Seq<char>) -> bool {
    "event"@.is_prefix_of(basename(path))
}

/// `segment` appended to the path `base`. An absolute `segment` replaces `base`; otherwise
/// one `/` comes between the two unless `base` is empty or already ends in one.
pub open spec fn path_join(base: Seq<char>, segment: Seq<char>) -> Seq<char> {
    if segment.len() > 0 && segment[0] == '/' {
        segment
    } else if base.len() > 0 && base.last() != '/' {
        base.push('/') + segment
    } else {
        base + segment
    }
}

/// Whether `device` is an event node that declares itself a touchpad. A device without the
/// property counts as one that holds `0`.
pub open spec fn is_touchpad(device: InputDeviceView) -> bool {
    &&& device.syspath matches Some(path)
    &&& is_event_node(path)
    &&& device.touchpad == Some("1"@)
}

/// The path of the first touchpad among `devices`, or `None` where there is none. A device
/// without a path ends the search: none of the devices behind it is looked at.
pub open spec fn find_touchpad(devices: Seq<InputDeviceView>) -> Option<Seq<char>>
    decreases devices.len(),
{
    if devices.len() == 0 {
        None
    } else {
        match devices[0].syspath {
            None => None,
            Some(path) => if is_touchpad(devices[0]) {
                Some(path_join("/sys"@, path))
            } else {
                find_touchpad(devices.drop_first())
            },
        }
    }
}

/// The file that holds the inhibit flag of the device at `device_path`.
pub open spec fn flag_path(device_path: Seq<char>) -> Seq<char> {
    path_join(device_path, "device/inhibited"@)
}

/// The state that the flag file's `content` stands for: `0` for a touchpad in use, `1` for
/// an inhibited one, with any white space around it. Any other content stands for nothing.
pub open spec fn decode_flag(content: Seq<char>) -> Option<bool> {
    let t = trim(content);
    if t == seq!['0'] {
        Some(false)
    } else if t == seq!['1'] {
        Some(true)
    } else {
        None
    }
}

/// What is written to the flag file for `inhibited`: the digit and a line feed.
pub open spec fn encode_flag(inhibited: bool) -> Seq<char> {
    seq![if inhibited { '1' } else { '0' }, '\n']
}

/// The message that announces the state `inhibited`.
pub open spec fn status_message(inhibited: bool) -> Seq<char> {
    if inhibited {
        "触摸板已关闭"@
    } else {
        "触摸板已开启"@
    }
}

/// For how many milliseconds an announcement is shown.
pub const NOTIFY_MS: u32 = 3000;

/// Appends `segment` to the path `base`.
pub fn join_path(base: &str, segment: &str) -> (r: String)
    ensures
        r@ == path_join(base@, segment@),
{
    proof {
        reveal_strlit("/");
    }
    let n = base.unicode_len();
    if segment.unicode_len() > 0 && segment.get_char(0) == '/' {
        String::from_str(segment)
    } else if n > 0 && base.get_char(n - 1) != '/' {
        let r = String::from_str(base).concat("/").concat(segment);
        assert(r@ =~= base@.push('/') + segment@);
        r
    } else {
        String::from_str(base).concat(segment)
    }
}

/// Tests whether the last component of `path` begins with `event`.
pub fn names_event_node(path: &str) -> (r: bool)
    ensures
        r == is_event_node(path@),
{
    let n = path.unicode_len();
    let mut start: usize = n;
    assert(path@.subrange(0, n as int) =~= path@);
    while start > 0 && path.get_char(start - 1) != '/'
        invariant
            start <= n == path@.len(),
            name_start(path@) == name_start(path@.subrange(0, start as int)),
        decreases start,
    {
        proof {
            let head = path@.subrange(0, start as int);
            assert(head.last() == path@[start - 1]);
            assert(head.drop_last() =~= path@.subrange(0, start - 1));
        }
        start -= 1;
    }
    proof {
        let head = path@.subrange(0, start as int);
        if start > 0 {
            assert(head.last() == path@[start - 1]);
        }
        assert(name_start(path@) == start);
    }
    let name = path.substring_char(start, n);
    starts_with(name, "event")
}

/// The touchpad of this machine, and the user on whose behalf it is switched.
#[derive(Debug, PartialEq, Eq)]
pub struct TouchPad {
    uid: u32,
    gid: u32,
    path: String,
}

/// A `TouchPad` with its path as a sequence of characters.
pub struct TouchPadView {
    pub uid: u32,
    pub gid: u32,
    pub path: Seq<char>,
}

impl View for TouchPad {
    type V = TouchPadView;

    closed spec fn view(&self) -> TouchPadView {
        TouchPadView { uid: self.uid, gid: self.gid, path: self.path@ }
    }
}

/// The error for a machine on which no touchpad was found.
pub open spec fn not_found() -> TouchpadErrorView {
    TouchpadErrorView::Sysfs("未找到触摸板"@)
}

/// The error for a flag file that holds neither `0` nor `1`.
pub open spec fn malformed() -> TouchpadErrorView {
    TouchpadErrorView::Sysfs("读取标志位错误"@)
}

impl TouchPad {
    /// Picks the touchpad out of the input devices that enumeration found, and gives the
    /// path of its directory.
    pub fn find_touchpad_sysfs(devices: &Vec<InputDevice>) -> (r: Option<String>)
        ensures
            r.deep_view() == find_touchpad(devices.deep_view()),
    {
        let ghost all = devices.deep_view();
        let n = devices.len();
        let mut i: usize = 0;
        assert(all.subrange(0, n as int) =~= all);
        while i < n
            invariant
                i <= n == devices.len(),
                all == devices.deep_view(),
                find_touchpad(all) == find_touchpad(all.subrange(i as int, n as int)),
            decreases n - i,
        {
            let device = &devices[i];
            proof {
                let rest = all.subrange(i as int, n as int);
                assert(rest[0] == device.deep_view());
                assert(rest.drop_first() =~= all.subrange(i + 1, n as int));
            }
            match &device.syspath {
                None => {
                    return None;
                },
                Some(path) => {
                    let declared = match &device.touchpad {
                        Some(value) => str_eq(value.as_str(), "1"),
                        None => false,
                    };
                    if declared && names_event_node(path.as_str()) {
                        return Some(join_path("/sys", path.as_str()));
                    }
                },
            }
            i += 1;
        }
        None
    }

    /// The touchpad among `devices`, to be switched on behalf of the user `uid` of group
    /// `gid`; an error where `devices` holds none.
    pub fn new(uid: u32, gid: u32, devices: &Vec<InputDevice>) -> (r: Result<
        TouchPad,
        TouchpadError,
    >)
        ensures
            match find_touchpad(devices.deep_view()) {
                Some(dir) => r matches Ok(t) && t@ == (TouchPadView {
                    uid,
                    gid,
                    path: flag_path(dir),
                }),
                None => r matches Err(e) && e@ == not_found(),
            },
    {
        match TouchPad::find_touchpad_sysfs(devices) {
            Some(dir) => Ok(
                TouchPad { uid, gid, path: join_path(dir.as_str(), "device/inhibited") },
            ),
            None => Err(TouchpadError::Sysfs("未找到触摸板")),
        }
    }

    /// The user on whose behalf the touchpad is switched.
    pub fn uid(&self) -> (r: u32)
        ensures
            r == self@.uid,
    {
        self.uid
    }

    /// The group of that user.
    pub fn gid(&self) -> (r: u32)
        ensures
            r == self@.gid,
    {
        self.gid
    }

    /// The file that holds the inhibit flag.
    pub fn path(&self) -> (r: &str)
        ensures
            r@ == self@.path,
    {
        self.path.as_str()
    }

    /// Whether the touchpad is inhibited, going by the `content` of its flag file.
    pub fn status(&self, content: &str) -> (r: Result<bool, TouchpadError>)
        ensures
            match decode_flag(content@) {
                Some(inhibited) => r == Ok::<bool, TouchpadError>(inhibited),
                None => r matches Err(e) && e@ == malformed(),
            },
    {
        read_flag(content)
    }

    /// What to write to the flag file to switch the touchpad, going by the `content` that
    /// the file holds now.
    pub fn toggle(&self, content: &str) -> (r: Result<&'static str, TouchpadError>)
        ensures
            match decode_flag(content@) {
                Some(inhibited) => r matches Ok(written) && written@ == encode_flag(!inhibited),
                None => r matches Err(e) && e@ == malformed(),
            },
    {
        proof {
            reveal_strlit("0\n");
            reveal_strlit("1\n");
        }
        match self.status(content) {
            Ok(inhibited) => {
                let written = if inhibited {
                    "0\n"
                } else {
                    "1\n"
                };
                assert(written@ =~= encode_flag(!inhibited));
                Ok(written)
            },
            Err(e) => Err(e),
        }
    }

    /// The command that announces the touchpad's state, read from the `content` of its
    /// flag file, in the session of the user who called `sudo`.
    pub fn send_notify(&self, content: &str, env: &SessionEnv) -> (r: Result<
        Command,
        TouchpadError,
    >)
        ensures
            match decode_flag(content@) {
                Some(inhibited) => r matches Ok(command) && command@ == sudo_send_spec(
                    status_message(inhibited),
                    NOTIFY_MS,
                    env@,
                ),
                None => r matches Err(e) && e@ == malformed(),
            },
    {
        match self.status(content) {
            Ok(inhibited) => Ok(sudo_send(message_for(inhibited), NOTIFY_MS, env)),
            Err(e) => Err(e),
        }
    }

    /// The command that announces the touchpad's state, read from the `content` of its
    /// flag file, in the session of the user this process runs as.
    pub fn notify_status(&self, content: &str) -> (r: Result<Command, TouchpadError>)
        ensures
            match decode_flag(content@) {
                Some(inhibited) => r matches Ok(command) && command@ == pkexec_send_spec(
                    status_message(inhibited),
                    NOTIFY_MS,
                ),
                None => r matches Err(e) && e@ == malformed(),
            },
    {
        match self.status(content) {
            Ok(inhibited) => Ok(pkexec_send(message_for(inhibited), NOTIFY_MS)),
            Err(e) => Err(e),
        }
    }
}

/// The state that the flag file's `content` stands for.
pub fn read_flag(content: &str) -> (r: Result<bool, TouchpadError>)
    ensures
        match decode_flag(content@) {
            Some(inhibited) => r == Ok::<bool, TouchpadError>(inhibited),
            None => r matches Err(e) && e@ == malformed(),
        },
{
    let (lo, hi) = trim_bounds(content);
    if hi - lo == 1 {
        let c = content.get_char(lo);
        assert(trim(content@) =~= seq![c]);
        if c == '0' {
            return Ok(false);
        }
        assert(seq!['0'][0] == '0' && seq!['1'][0] == '1');
        if c == '1' {
            return Ok(true);
        }
    } else {
        assert(trim(content@).len() != 1);
    }
    Err(TouchpadError::Sysfs("读取标志位错误"))
}

/// The message that announces the state `inhibited`.
pub fn message_for(inhibited: bool) -> (r: &'static str)
    ensures
        r@ == status_message(inhibited),
{
    if inhibited {
        "触摸板已关闭"
    } else {
        "触摸板已开启"
    }
}

/// Nothing but the two digits stands for a state: a content is read as a state exactly
/// where, without the white space around it, it is the one character `0` or the one
/// character `1`, and then as the state of that digit.
pub proof fn lemma_decode_strict(content: Seq<char>)
    ensures
        decode_flag(content) == Some(false) <==> trim(content) == seq!['0'],
        decode_flag(content) == Some(true) <==> trim(content) == seq!['1'],
        decode_flag(content) is None <==> trim(content) != seq!['0'] && trim(content) != seq!['1'],
{
    assert(seq!['0'][0] != seq!['1'][0]);
}

/// What is written for a state is read back as that state.
pub proof fn lemma_decode_encode(inhibited: bool)
    ensures
        decode_flag(encode_flag(inhibited)) == Some(inhibited),
{
    let s = encode_flag(inhibited);
    assert(!is_space(s[0]));
    assert(crate::text::trim_start(s) == s);
    assert(is_space(s.last()));
    assert(s.drop_last() =~= seq![s[0]]);
    assert(!is_space(s.drop_last().last()));
    assert(crate::text::trim_end(s.drop_last()) == s.drop_last());
    assert(trim(s) == s.drop_last());
}

/// Switching twice gives the flag file the state it began with: where `content` stands for
/// a state, what is written for its opposite stands for that opposite, and what is written
/// next stands for the first state again.
pub proof fn lemma_toggle_round_trip(content: Seq<char>)
    requires
        decode_flag(content) is Some,
    ensures
        ({
            let first = decode_flag(content)->0;
            let once = encode_flag(!first);
            let twice = encode_flag(!(decode_flag(once)->0));
            &&& decode_flag(once) == Some(!first)
            &&& decode_flag(twice) == Some(first)
            &&& twice == encode_flag(first)
        }),
{
    let first = decode_flag(content)->0;
    lemma_decode_encode(!first);
    lemma_decode_encode(first);
}

/// Where no device declares itself a touchpad, none is found.
pub proof fn lemma_undeclared_not_found(devices: Seq<InputDeviceView>)
    requires
        forall|i: int| 0 <= i < devices.len() ==> (#[trigger] devices[i]).touchpad != Some("1"@),
    ensures
        find_touchpad(devices) is None,
    decreases devices.len(),
{
    if devices.len() > 0 {
        assert(!is_touchpad(devices[0]));
        let rest = devices.drop_first();
        assert forall|i: int| 0 <= i < rest.len() implies (#[trigger] rest[i]).touchpad != Some(
            "1"@,
        ) by {
            assert(rest[i] == devices[i + 1]);
        }
        lemma_undeclared_not_found(rest);
    }
}

/// The touchpad that is found is the first device that is an event node and declares
/// itself a touchpad, and every device before it has a path.
pub proof fn lemma_first_touchpad(devices: Seq<InputDeviceView>)
    requires
        find_touchpad(devices) is Some,
    ensures
        exists|i: int|
            {
                &&& 0 <= i < devices.len()
                &&& is_touchpad(#[trigger] devices[i])
                &&& find_touchpad(devices) == Some(path_join("/sys"@, devices[i].syspath->0))
                &&& forall|j: int|
                    0 <= j < i ==> !is_touchpad(#[trigger] devices[j]) && devices[j].syspath is Some
            },
    decreases devices.len(),
{
    if is_touchpad(devices[0]) {
        assert(find_touchpad(devices) == Some(path_join("/sys"@, devices[0].syspath->0)));
    } else {
        let rest = devices.drop_first();
        lemma_first_touchpad(rest);
        let k = choose|k: int|
            {
                &&& 0 <= k < rest.len()
                &&& is_touchpad(#[trigger] rest[k])
                &&& find_touchpad(rest) == Some(path_join("/sys"@, rest[k].syspath->0))
                &&& forall|j: int|
                    0 <= j < k ==> !is_touchpad(#[trigger] rest[j]) && rest[j].syspath is Some
            };
        assert(rest[k] == devices[k + 1]);
        assert forall|j: int| 0 <= j < k + 1 implies !is_touchpad(#[trigger] devices[j])
            && devices[j].syspath is Some by {
            if j > 0 {
                assert(rest[j - 1] == devices[j]);
            }
        }
        assert(is_touchpad(devices[k + 1]));
    }
}

} // verus!
