//! What holds of every run.

use super::plan::{announce, end, step, ActionView, EventView, Phase, PlanView, StepView};
use super::identity_after;
use crate::parse::Permissions;
use crate::perm_guard::{after_restore, Restoration, Switch};
use crate::touchpad::notify::{pkexec_send_spec, Completion};
use crate::touchpad::{
    decode_flag, encode_flag, find_touchpad, flag_path, lemma_undeclared_not_found, not_found,
    status_message, InputDeviceView, NOTIFY_MS,
};
use crate::user::Identity;
use vstd::prelude::*;

verus! {

/// Where the changes of identity stand in a run. Only a privileged process that was told
/// its user takes an identity for a while, and only the helper's child takes one for good;
/// both happen behind the second reading, and the notifier runs under a borrowed identity
/// only once that was granted. An identity is given back only behind such a notifier.
pub proof fn lemma_switches(plan: PlanView, event: EventView)
    ensures
        ({
            let next = step(plan, event);
            &&& next.plan.mode == plan.mode
            &&& next.action matches ActionView::DropTo { target } ==> {
                &&& plan.mode == Permissions::AlreadyPrivileged { target }
                &&& plan.phase == Phase::Checking
                &&& next.plan.phase is Switching
            }
            &&& next.action matches ActionView::Become { target } ==> {
                &&& plan.mode == Permissions::ReEnteredPrivileged { target }
                &&& plan.phase == Phase::Checking
                &&& next.plan.phase is Switching
            }
            &&& next.action is Restore ==> {
                &&& plan.phase == Phase::Notifying { guarded: true }
                &&& next.plan.phase == Phase::Restoring
            }
            &&& next.plan.phase is Switching ==> next.action is DropTo || next.action is Become
            &&& next.plan.phase == Phase::Restoring ==> next.action is Restore
            &&& next.plan.phase == Phase::Notifying { guarded: true } ==> {
                &&& plan.phase is Switching
                &&& plan.mode is AlreadyPrivileged
                &&& event == EventView::Switched(Switch::Granted)
                &&& next.action is Notify
            }
        }),
{
}

/// An identity that is borrowed comes back. Taking `target` for a while, when granted,
/// puts `target` in force and keeps `before` in mind; giving it back leaves nothing in
/// mind, and where the kernel grants both changes, `before` is in force again, whatever
/// happened in between.
pub proof fn lemma_borrowed_identity_returns(
    before: Identity,
    target: Identity,
    restoration: Restoration,
)
    ensures
        ({
            let taken = identity_after(
                before,
                None,
                ActionView::DropTo { target },
                EventView::Switched(Switch::Granted),
            );
            let given_back = identity_after(
                taken.0,
                taken.1,
                ActionView::Restore,
                EventView::Restored(restoration),
            );
            &&& taken == (target, Some(before))
            &&& given_back.1 is None
            &&& given_back.0 == after_restore(target, before, restoration)
            &&& restoration.is_complete() ==> given_back.0 == before
        }),
{
}

/// The state of a run that began at `plan`, once the first `n` of `events` have come in.
pub open spec fn state_after(plan: PlanView, events: Seq<EventView>, n: int) -> PlanView
    decreases n,
{
    if n <= 0 {
        plan
    } else {
        step(state_after(plan, events, n - 1), events[n - 1]).plan
    }
}

/// The step that the event at `k` leads to, in a run that began at `plan`.
pub open spec fn step_at(plan: PlanView, events: Seq<EventView>, k: int) -> StepView {
    step(state_after(plan, events, k), events[k])
}

/// The action that the event at `k` is answered with, in a run that began at `plan`.
pub open spec fn action_at(plan: PlanView, events: Seq<EventView>, k: int) -> ActionView {
    step_at(plan, events, k).action
}

/// Whether `plan` is a state that a run can be in: a run without privileges neither
/// switches the touchpad nor its identity, only a run without privileges waits for the
/// helper, only one that was told its user borrows an identity, and a run that is past the
/// listing has its touchpad.
pub open spec fn consistent(plan: PlanView) -> bool {
    &&& plan.mode is NeedsEscalation ==> {
        &&& plan.phase != Phase::Reading
        &&& plan.phase != Phase::Writing
        &&& !(plan.phase is Switching)
        &&& plan.phase != Phase::Restoring
        &&& plan.phase != Phase::Notifying { guarded: true }
    }
    &&& plan.phase == Phase::Escalating ==> plan.mode is NeedsEscalation
    &&& plan.phase == Phase::Restoring || plan.phase == (Phase::Notifying { guarded: true })
        ==> plan.mode is AlreadyPrivileged
    &&& plan.phase == Phase::Reading || plan.phase == Phase::Writing || plan.phase
        == Phase::Checking ==> plan.touchpad is Some
}

/// A run begins in a state that it can be in, and no step leads out of these. No step
/// changes the way to run, and none leads back to the beginning.
pub proof fn lemma_consistent(plan: PlanView, event: EventView)
    requires
        plan.phase == Phase::Start || consistent(plan),
    ensures
        consistent(plan),
        consistent(step(plan, event).plan),
        step(plan, event).plan.mode == plan.mode,
        step(plan, event).plan.phase != Phase::Start,
{
}

/// Every state of a run that began in a state it can be in is such a state, with the way
/// to run that it began with; and only the first is the beginning.
pub proof fn lemma_run_consistent(plan: PlanView, events: Seq<EventView>, n: int)
    requires
        plan.phase == Phase::Start || consistent(plan),
    ensures
        consistent(state_after(plan, events, n)),
        state_after(plan, events, n).mode == plan.mode,
        n > 0 ==> state_after(plan, events, n).phase != Phase::Start,
    decreases n,
{
    if n > 0 {
        lemma_run_consistent(plan, events, n - 1);
        lemma_consistent(state_after(plan, events, n - 1), events[n - 1]);
    }
}

/// Whether `event` reports a listing in which no device declares itself a touchpad, or is
/// no listing at all.
pub open spec fn lists_no_touchpad(event: EventView) -> bool {
    event matches EventView::Devices(Some(devices)) ==> forall|i: int|
        0 <= i < devices.len() ==> (#[trigger] devices[i]).touchpad != Some("1"@)
}

/// Whether a run in `phase` has not yet found a touchpad.
pub open spec fn before_touchpad(phase: Phase) -> bool {
    phase == Phase::Start || phase == Phase::Escalating || phase == Phase::Locating || phase
        == Phase::Done
}

/// A run that is told of no touchpad ends with status 1: the step behind such a listing
/// asks for exit status 1 and reports that no touchpad was found.
pub proof fn lemma_not_found_exits(plan: PlanView, event: EventView)
    requires
        plan.phase == Phase::Locating,
        event is Devices,
        lists_no_touchpad(event),
    ensures
        step(plan, event) == end(plan, 1, Some(not_found())),
{
    if let EventView::Devices(Some(devices)) = event {
        lemma_undeclared_not_found(devices);
    }
}

/// A run that is never told of a touchpad writes nothing: whatever comes in, as long as no
/// listing holds a device that declares itself a touchpad, a run that has not yet found one
/// never finds one, and none of its actions writes the flag file.
pub proof fn lemma_no_touchpad_no_write(plan: PlanView, events: Seq<EventView>, k: int)
    requires
        before_touchpad(plan.phase),
        forall|i: int| 0 <= i < events.len() ==> lists_no_touchpad(#[trigger] events[i]),
        0 <= k < events.len(),
    ensures
        before_touchpad(state_after(plan, events, k).phase),
        before_touchpad(step_at(plan, events, k).plan.phase),
        !action_at(plan, events, k).is_write(),
    decreases k,
{
    if k > 0 {
        lemma_no_touchpad_no_write(plan, events, k - 1);
    }
    assert(lists_no_touchpad(events[k]));
    if let EventView::Devices(Some(devices)) = events[k] {
        lemma_undeclared_not_found(devices);
    }
}

/// A run without privileges never writes the flag file.
pub proof fn lemma_unprivileged_never_writes(plan: PlanView, events: Seq<EventView>, k: int)
    requires
        plan.phase == Phase::Start || consistent(plan),
        plan.mode is NeedsEscalation,
        0 <= k < events.len(),
    ensures
        !action_at(plan, events, k).is_write(),
{
    lemma_run_consistent(plan, events, k);
}

/// Where a step comes from. In a state that a run can be in:
/// the flag file is written only behind a reading of it, and what is written is the
/// opposite of what was read; a privileged run reads the file a second time only behind a
/// write that went through, and a run behind the helper only behind the listing, which it
/// asks for only once the helper has ended; the identity is changed only behind the second
/// reading; and the notifier is asked for only with the message for the state that the
/// second reading found, in a privileged run only once the identity was changed.
pub proof fn lemma_origins(plan: PlanView, event: EventView)
    requires
        consistent(plan),
    ensures
        ({
            let next = step(plan, event);
            &&& next.plan.phase == Phase::Reading ==> {
                &&& plan.phase == Phase::Locating
                &&& event is Devices
                &&& next.action == ActionView::ReadFlag { path: next.plan.touchpad->0.path }
            }
            &&& next.plan.phase == Phase::Writing ==> {
                &&& plan.phase == Phase::Reading
                &&& event matches EventView::FlagRead(Ok(content))
                &&& decode_flag(content) matches Some(inhibited)
                &&& next.action == ActionView::WriteFlag {
                    path: plan.touchpad->0.path,
                    content: encode_flag(!inhibited),
                }
            }
            &&& next.action is WriteFlag ==> next.plan.phase == Phase::Writing
            &&& next.plan.phase == Phase::Checking ==> {
                &&& next.action == ActionView::ReadFlag { path: next.plan.touchpad->0.path }
                &&& if plan.mode is NeedsEscalation {
                    plan.phase == Phase::Locating && event is Devices
                } else {
                    plan.phase == Phase::Writing && event matches EventView::FlagWritten(Ok(_))
                }
            }
            &&& next.plan.phase == Phase::Locating ==> {
                &&& next.action == ActionView::Enumerate
                &&& if plan.mode is NeedsEscalation {
                    plan.phase == Phase::Escalating && event is Escalated
                } else {
                    plan.phase == Phase::Start
                }
            }
            &&& next.plan.phase matches Phase::Switching { inhibited } ==> {
                &&& plan.phase == Phase::Checking
                &&& event matches EventView::FlagRead(Ok(content))
                &&& decode_flag(content) == Some(inhibited)
                &&& next.action == match plan.mode {
                    Permissions::ReEnteredPrivileged { target } => ActionView::Become { target },
                    _ => ActionView::DropTo { target: plan.mode.target_of() },
                }
            }
            &&& next.action is Notify ==> match plan.phase {
                Phase::Switching { inhibited } => {
                    &&& !(plan.mode is NeedsEscalation)
                    &&& event == EventView::Switched(Switch::Granted)
                    &&& next == announce(plan, inhibited, plan.mode is AlreadyPrivileged)
                },
                _ => {
                    &&& plan.mode is NeedsEscalation
                    &&& plan.phase == Phase::Checking
                    &&& event matches EventView::FlagRead(Ok(content))
                    &&& decode_flag(content) matches Some(inhibited)
                    &&& next == announce(plan, inhibited, false)
                },
            }
        }),
{
}

/// What a privileged run announces is what the flag file held after the run wrote it.
///
/// Where the event at `k` is answered with the notifier, the events before it were
/// answered, in this order, with a reading of the flag file, with the write of the opposite
/// of what that reading found, with a second reading once the write had gone through, and
/// with the change of identity; that change was granted; and the notifier's message is the
/// one for the state that the second reading found.
pub proof fn lemma_privileged_announces_after_write(
    plan: PlanView,
    events: Seq<EventView>,
    k: int,
)
    requires
        plan.phase == Phase::Start,
        !(plan.mode is NeedsEscalation),
        0 <= k < events.len(),
        action_at(plan, events, k) is Notify,
    ensures
        k >= 5,
        action_at(plan, events, k - 4) is ReadFlag,
        events[k - 3] matches EventView::FlagRead(Ok(content)) && decode_flag(content) matches Some(
            inhibited,
        ) && action_at(plan, events, k - 3) == (ActionView::WriteFlag {
            path: state_after(plan, events, k - 3).touchpad->0.path,
            content: encode_flag(!inhibited),
        }),
        events[k - 2] matches EventView::FlagWritten(Ok(_)),
        action_at(plan, events, k - 2) is ReadFlag,
        events[k - 1] matches EventView::FlagRead(Ok(content)) && decode_flag(content) matches Some(
            inhibited,
        ) && step_at(plan, events, k) == announce(
            state_after(plan, events, k),
            inhibited,
            plan.mode is AlreadyPrivileged,
        ),
        action_at(plan, events, k - 1) is DropTo || action_at(plan, events, k - 1) is Become,
        events[k] == EventView::Switched(Switch::Granted),
{
    lemma_run_consistent(plan, events, k);
    lemma_origins(state_after(plan, events, k), events[k]);
    lemma_run_consistent(plan, events, k - 1);
    lemma_origins(state_after(plan, events, k - 1), events[k - 1]);
    lemma_run_consistent(plan, events, k - 2);
    lemma_origins(state_after(plan, events, k - 2), events[k - 2]);
    lemma_run_consistent(plan, events, k - 3);
    lemma_origins(state_after(plan, events, k - 3), events[k - 3]);
    lemma_run_consistent(plan, events, k - 4);
    lemma_origins(state_after(plan, events, k - 4), events[k - 4]);
    lemma_run_consistent(plan, events, k - 5);
}

/// What a run behind the helper announces is what the flag file held after the helper had
/// ended.
///
/// Where the event at `k` is answered with the notifier, that event is a reading of the
/// flag file, and the notifier's message is the one for the state that it found; the
/// reading was asked for in answer to the listing, and the listing in answer to the end of
/// the helper.
pub proof fn lemma_unprivileged_announces_after_helper(
    plan: PlanView,
    events: Seq<EventView>,
    k: int,
)
    requires
        plan.phase == Phase::Start,
        plan.mode is NeedsEscalation,
        0 <= k < events.len(),
        action_at(plan, events, k) is Notify,
    ensures
        k >= 3,
        events[k] matches EventView::FlagRead(Ok(content)) && decode_flag(content) matches Some(
            inhibited,
        ) && step_at(plan, events, k) == announce(state_after(plan, events, k), inhibited, false),
        action_at(plan, events, k - 1) is ReadFlag,
        events[k - 1] is Devices,
        action_at(plan, events, k - 2) is Enumerate,
        events[k - 2] is Escalated,
{
    lemma_run_consistent(plan, events, k);
    lemma_origins(state_after(plan, events, k), events[k]);
    lemma_run_consistent(plan, events, k - 1);
    lemma_origins(state_after(plan, events, k - 1), events[k - 1]);
    lemma_run_consistent(plan, events, k - 2);
    lemma_origins(state_after(plan, events, k - 2), events[k - 2]);
    lemma_run_consistent(plan, events, k - 3);
}

/// Neither the notifier nor the restoration can change the exit status: however the
/// notifier ended, a run that borrowed no identity ends with the status it had, and one
/// that did gives the identity back and then ends with the status it had, however the
/// restoration went.
pub proof fn lemma_notifier_keeps_status(
    plan: PlanView,
    done: Completion,
    restoration: Restoration,
)
    requires
        plan.phase is Notifying,
    ensures
        ({
            let next = step(plan, EventView::Notified(done));
            let last = step(next.plan, EventView::Restored(restoration));
            if plan.phase == (Phase::Notifying { guarded: true }) {
                &&& next.action == ActionView::Restore
                &&& last.action == ActionView::Exit { code: plan.status }
            } else {
                next.action == ActionView::Exit { code: plan.status }
            }
        }),
{
}

/// The helper's exit code is the exit status of the run, whatever the notifier does: once
/// the helper has ended with `code`, a run that finds the touchpad and can read its flag
/// lists the devices, reads the flag, announces what it found, and ends with `code`.
pub proof fn lemma_helper_status(
    plan: PlanView,
    code: i32,
    devices: Seq<InputDeviceView>,
    content: Seq<char>,
    done: Completion,
)
    requires
        plan.phase == Phase::Escalating,
        plan.mode is NeedsEscalation,
        find_touchpad(devices) is Some,
        decode_flag(content) is Some,
    ensures
        ({
            let events = seq![
                EventView::Escalated(Completion::Finished { code: Some(code) }),
                EventView::Devices(Some(devices)),
                EventView::FlagRead(Ok(content)),
                EventView::Notified(done),
            ];
            &&& action_at(plan, events, 0) == ActionView::Enumerate
            &&& action_at(plan, events, 1) == ActionView::ReadFlag {
                path: flag_path(find_touchpad(devices)->0),
            }
            &&& action_at(plan, events, 2) == ActionView::Notify {
                command: pkexec_send_spec(status_message(decode_flag(content)->0), NOTIFY_MS),
            }
            &&& action_at(plan, events, 3) == ActionView::Exit { code }
        }),
{
    reveal_with_fuel(state_after, 5);
}

} // verus!
