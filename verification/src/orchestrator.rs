//! The run of the program as a sequence of steps.
//!
//! Each step takes what the last action led to and gives the next action. Reading and
//! writing the flag file, listing the input devices and starting other programs are left
//! to the caller; switching the identity of the process is done here.

pub mod laws;
pub mod plan;

use crate::orchestrator::laws::lemma_switches;
use crate::orchestrator::plan::{
    step, Action, ActionView, Event, EventView, Phase, Plan, PlanView,
};
use crate::parse::Permissions;
use crate::perm_guard::{
    after_restore, after_switch, become_user, EffectiveIdentity, PrivDropGuard, Restoration, Switch,
};
use crate::touchpad::error::{TouchpadError, TouchpadErrorView};
use crate::touchpad::notify::SessionEnv;
use crate::user::Identity;
use vstd::prelude::*;

verus! {

/// Whether `reply` reports the outcome of the change of identity `action`.
pub open spec fn answers(reply: EventView, action: ActionView) -> bool {
    match action {
        ActionView::DropTo { .. } | ActionView::Become { .. } => reply is Switched,
        ActionView::Restore => reply is Restored,
        _ => false,
    }
}

/// The effective identity of the process, and the identity that waits to be given back,
/// after the change of identity `action` ended as `reply` says. `effective` and `held` are
/// the two before it.
pub open spec fn identity_after(
    effective: Identity,
    held: Option<Identity>,
    action: ActionView,
    reply: EventView,
) -> (Identity, Option<Identity>) {
    match (action, reply) {
        (ActionView::DropTo { target }, EventView::Switched(outcome)) => (
            after_switch(effective, target, outcome),
            if outcome == Switch::Granted {
                Some(effective)
            } else {
                None
            },
        ),
        (ActionView::Become { target }, EventView::Switched(outcome)) => (
            after_switch(effective, target, outcome),
            None,
        ),
        (ActionView::Restore, EventView::Restored(restoration)) => match held {
            Some(previous) => (after_restore(effective, previous, restoration), None),
            None => (effective, None),
        },
        _ => (effective, held),
    }
}

/// What there is to report after one or two steps, in their order.
pub open spec fn reports(
    first: Option<TouchpadErrorView>,
    second: Option<TouchpadErrorView>,
) -> Seq<TouchpadErrorView> {
    let head = match first {
        Some(e) => seq![e],
        None => Seq::empty(),
    };
    match second {
        Some(e) => head.push(e),
        None => head,
    }
}

/// What `advance` gives back: the next action for the caller, and what there is to report
/// to the user.
#[derive(Debug, PartialEq, Eq)]
pub struct Advance {
    pub action: Action,
    pub diagnostics: Vec<TouchpadError>,
}

/// A run together with the identity of the process that makes it.
///
/// It takes the steps of its `Plan` and carries out the changes of identity that they ask
/// for, so that the caller is left with files, devices and programs.
pub struct Orchestrator {
    plan: Plan,
    ids: EffectiveIdentity,
    guard: Option<PrivDropGuard>,
}

impl Orchestrator {
    /// The state of the run.
    pub closed spec fn plan(&self) -> PlanView {
        self.plan@
    }

    /// The effective identity of the process.
    pub closed spec fn effective(&self) -> Identity {
        self.ids@
    }

    /// The identity that waits to be given back, while the process has taken another.
    pub closed spec fn held(&self) -> Option<Identity> {
        match self.guard {
            Some(guard) => Some(guard.previous()),
            None => None,
        }
    }

    /// Between two calls the run waits for the caller, not for a change of identity, and
    /// an identity waits to be given back exactly while the notifier runs under a borrowed
    /// one.
    pub closed spec fn wf(&self) -> bool {
        &&& !(self.plan@.phase is Switching)
        &&& self.plan@.phase != Phase::Restoring
        &&& self.guard is Some <==> (self.plan@.phase == Phase::Notifying { guarded: true })
    }

    /// A run that has not begun, for the way `mode`, in a process whose effective identity
    /// is read now.
    pub fn new(mode: Permissions, program: String, session: SessionEnv) -> (r: Orchestrator)
        ensures
            r.wf(),
            r.held() is None,
            r.plan() == (PlanView {
                mode,
                phase: Phase::Start,
                program: program@,
                session: session@,
                touchpad: None,
                status: 0,
            }),
    {
        Orchestrator {
            plan: Plan::new(mode, program, session),
            ids: EffectiveIdentity::capture(),
            guard: None,
        }
    }

    /// Tests whether the run waits for the caller, as it does between two calls of
    /// `advance`.
    pub fn ready(&self) -> (r: bool)
        ensures
            r == self.wf(),
    {
        let waits = match self.plan.phase() {
            Phase::Switching { .. } | Phase::Restoring => false,
            _ => true,
        };
        let borrowed = match self.plan.phase() {
            Phase::Notifying { guarded } => guarded,
            _ => false,
        };
        waits && self.guard.is_some() == borrowed
    }

    /// The effective identity of the process.
    pub fn identity(&self) -> (r: Identity)
        ensures
            r == self.effective(),
    {
        self.ids.identity()
    }

    /// Carries out the change of identity `action` and reports how it ended.
    fn switch(&mut self, action: &Action) -> (reply: Event)
        requires
            action@.is_switch(),
            old(self).guard is Some ==> action@ is Restore,
        ensures
            answers(reply@, action@),
            final(self).plan == old(self).plan,
            (final(self).effective(), final(self).held()) == identity_after(
                old(self).effective(),
                old(self).held(),
                action@,
                reply@,
            ),
            final(self).guard is Some <==> reply@ == EventView::Switched(Switch::Granted)
                && action@ is DropTo,
    {
        match action {
            Action::DropTo { target } => {
                match PrivDropGuard::to_user(&mut self.ids, target.uid, target.gid) {
                    Ok(guard) => {
                        self.guard = Some(guard);
                        Event::Switched(Switch::Granted)
                    },
                    Err(e) => Event::Switched(e.switch()),
                }
            },
            Action::Become { target } => {
                match become_user(&mut self.ids, target.uid, target.gid) {
                    Ok(_) => Event::Switched(Switch::Granted),
                    Err(e) => Event::Switched(e.switch()),
                }
            },
            _ => {
                match self.guard.take() {
                    Some(guard) => Event::Restored(guard.release(&mut self.ids)),
                    None => Event::Restored(Restoration { group: false, user: false }),
                }
            },
        }
    }

    /// Takes `event`, goes one step, carries out a change of identity where the step asks
    /// for one and goes the step behind it, and gives the action that is left to the
    /// caller.
    ///
    /// The notifier is asked for only under the identity it is meant to run under: the
    /// user's, borrowed or taken for good, in a privileged run, and the unchanged one in a
    /// run behind the helper. The end of the program is asked for only once no identity
    /// waits to be given back.
    pub fn advance(&mut self, event: Event) -> (r: Advance)
        requires
            old(self).wf(),
        ensures
            final(self).wf(),
            !r.action@.is_switch(),
            r.action@ is Notify ==> match old(self).plan().mode {
                Permissions::AlreadyPrivileged { target } => {
                    &&& final(self).effective() == target
                    &&& final(self).held() == Some(old(self).effective())
                },
                Permissions::ReEnteredPrivileged { target } => {
                    &&& final(self).effective() == target
                    &&& final(self).held() is None
                },
                Permissions::NeedsEscalation { .. } => {
                    &&& final(self).effective() == old(self).effective()
                    &&& final(self).held() is None
                },
            },
            r.action@ is Exit ==> final(self).held() is None,
            ({
                let first = step(old(self).plan(), event@);
                if first.action.is_switch() {
                    exists|reply: EventView|
                        {
                            let second = #[trigger] step(first.plan, reply);
                            &&& answers(reply, first.action)
                            &&& final(self).plan() == second.plan
                            &&& r.action@ == second.action
                            &&& r.diagnostics.deep_view() == reports(
                                first.diagnostic,
                                second.diagnostic,
                            )
                            &&& (final(self).effective(), final(self).held()) == identity_after(
                                old(self).effective(),
                                old(self).held(),
                                first.action,
                                reply,
                            )
                        }
                } else {
                    &&& final(self).plan() == first.plan
                    &&& r.action@ == first.action
                    &&& r.diagnostics.deep_view() == reports(first.diagnostic, None)
                    &&& final(self).effective() == old(self).effective()
                    &&& final(self).held() == old(self).held()
                }
            }),
    {
        let ghost before = self.plan@;
        let mut diagnostics: Vec<TouchpadError> = Vec::new();
        let first = self.plan.step(event);
        let ghost first_view = step(before, event@);
        proof {
            lemma_switches(before, event@);
        }
        match first.diagnostic {
            Some(e) => {
                diagnostics.push(e);
            },
            None => {},
        }
        assert(diagnostics.deep_view() =~= reports(first_view.diagnostic, None));
        match first.action {
            Action::DropTo { .. } | Action::Become { .. } | Action::Restore => {
                let reply = self.switch(&first.action);
                let second = self.plan.step(reply);
                match second.diagnostic {
                    Some(e) => {
                        diagnostics.push(e);
                    },
                    None => {},
                }
                proof {
                    let second_view = step(first_view.plan, reply@);
                    lemma_switches(first_view.plan, reply@);
                    assert(diagnostics.deep_view() =~= reports(
                        first_view.diagnostic,
                        second_view.diagnostic,
                    ));
                }
                Advance { action: second.action, diagnostics }
            },
            _ => Advance { action: first.action, diagnostics },
        }
    }
}

} // verus!
