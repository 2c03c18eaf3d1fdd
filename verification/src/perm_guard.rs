//! Switching the effective identity of the process, for a while or for good.
//!
//! The effective identity is held as a value, [`EffectiveIdentity`], which every function
//! that changes it takes and brings up to date: what a switch did can then be read from the
//! value, and a switch and its reversal can be held against each other.

use crate::user::Identity;
use vstd::prelude::*;

verus! {

/// Trusted: the type `nix::errno::Errno`, the kernel's reason for a refusal. It is carried
/// through and never read.
#[verifier::external_type_specification]
#[verifier::external_body]
pub struct ExErrno(nix::errno::Errno);

/// Trusted: `nix::unistd::geteuid`, the effective user id of the process. Nothing is claimed
/// of the number.
#[verifier::external_body]
fn get_effective_uid() -> (r: u32) {
    nix::unistd::geteuid().as_raw()
}

/// Trusted: `nix::unistd::getegid`, the effective group id of the process. Nothing is
/// claimed of the number.
#[verifier::external_body]
fn get_effective_gid() -> (r: u32) {
    nix::unistd::getegid().as_raw()
}

/// Trusted: `nix::unistd::setegid`. It returns without unwinding; whether the kernel grants
/// the change is not known beforehand.
#[verifier::external_body]
fn set_effective_gid(gid: u32) -> (r: Result<(), nix::errno::Errno>)
    opens_invariants none
    no_unwind
{
    nix::unistd::setegid(nix::unistd::Gid::from_raw(gid))
}

/// Trusted: `nix::unistd::seteuid`. It returns without unwinding; whether the kernel grants
/// the change is not known beforehand.
#[verifier::external_body]
fn set_effective_uid(uid: u32) -> (r: Result<(), nix::errno::Errno>)
    opens_invariants none
    no_unwind
{
    nix::unistd::seteuid(nix::unistd::Uid::from_raw(uid))
}

/// Trusted: `nix::unistd::setresgid` with `gid` as real, effective and saved group id.
#[verifier::external_body]
fn set_every_gid(gid: u32) -> (r: Result<(), nix::errno::Errno>) {
    let gid = nix::unistd::Gid::from_raw(gid);
    nix::unistd::setresgid(gid, gid, gid)
}

/// Trusted: `nix::unistd::setresuid` with `uid` as real, effective and saved user id.
#[verifier::external_body]
fn set_every_uid(uid: u32) -> (r: Result<(), nix::errno::Errno>) {
    let uid = nix::unistd::Uid::from_raw(uid);
    nix::unistd::setresuid(uid, uid, uid)
}

/// Why a switch of identity stopped: the kernel refused the new group id, or it accepted
/// that and refused the new user id. Each carries the kernel's error.
#[derive(Clone, Copy, Debug, PartialEq, Eq)]
pub enum PrivError {
    Group(nix::errno::Errno),
    User(nix::errno::Errno),
}

/// What became of a switch of identity, which sets the group first and the user after it.
#[derive(Clone, Copy, Debug, PartialEq, Eq, Structural)]
pub enum Switch {
    /// Both ids were set.
    Granted,
    /// The group id was refused, and the user id not tried.
    GroupRefused,
    /// The group id was set, and the user id refused.
    UserRefused,
}

impl PrivError {
    /// The outcome that this error stands for.
    pub open spec fn outcome(self) -> Switch {
        match self {
            PrivError::Group(_) => Switch::GroupRefused,
            PrivError::User(_) => Switch::UserRefused,
        }
    }

    /// The outcome that this error stands for.
    pub fn switch(&self) -> (r: Switch)
        ensures
            r == self.outcome(),
            r != Switch::Granted,
    {
        match self {
            PrivError::Group(_) => Switch::GroupRefused,
            PrivError::User(_) => Switch::UserRefused,
        }
    }
}

/// What became of a restoration: which of the two ids is back at its earlier value.
#[derive(Clone, Copy, Debug, PartialEq, Eq, Structural)]
pub struct Restoration {
    pub group: bool,
    pub user: bool,
}

impl Restoration {
    /// Whether both ids are back.
    pub open spec fn is_complete(self) -> bool {
        self.group && self.user
    }

    /// Tests whether both ids are back.
    pub fn complete(&self) -> (r: bool)
        ensures
            r == self.is_complete(),
    {
        self.group && self.user
    }
}

/// The effective identity after a switch from `before` to `target` that ended in
/// `outcome`.
pub open spec fn after_switch(before: Identity, target: Identity, outcome: Switch) -> Identity {
    match outcome {
        Switch::Granted => target,
        Switch::GroupRefused => before,
        Switch::UserRefused => Identity { uid: before.uid, gid: target.gid },
    }
}

/// The effective identity after an attempt to go back from `current` to `previous`, in
/// which each id is tried whatever becomes of the other.
pub open spec fn after_restore(
    current: Identity,
    previous: Identity,
    restoration: Restoration,
) -> Identity {
    Identity {
        uid: if restoration.user { previous.uid } else { current.uid },
        gid: if restoration.group { previous.gid } else { current.gid },
    }
}

/// The effective user and group of the process, as known to this library.
///
/// It is read from the kernel once, by `capture`, and from then on follows every change
/// that is made through this module.
pub struct EffectiveIdentity {
    uid: u32,
    gid: u32,
}

impl View for EffectiveIdentity {
    type V = Identity;

    closed spec fn view(&self) -> Identity {
        Identity { uid: self.uid, gid: self.gid }
    }
}

impl EffectiveIdentity {
    /// Reads the effective identity of the process.
    pub fn capture() -> (r: EffectiveIdentity) {
        EffectiveIdentity { uid: get_effective_uid(), gid: get_effective_gid() }
    }

    /// The identity held.
    pub fn identity(&self) -> (r: Identity)
        ensures
            r == self@,
    {
        Identity { uid: self.uid, gid: self.gid }
    }

    /// Takes note of an attempt to go back to `previous`, in which the kernel granted the
    /// change of the group where `group` says so, and that of the user where `user` does.
    fn note_restoration(&mut self, previous: Identity, group: bool, user: bool) -> (r:
        Restoration)
        ensures
            r == (Restoration { group, user }),
            final(self)@ == after_restore(old(self)@, previous, r),
    {
        if group {
            self.gid = previous.gid;
        }
        if user {
            self.uid = previous.uid;
        }
        Restoration { group, user }
    }
}

/// Holds the identity that was in force before a temporary switch, and gives it back.
///
/// `release` is the ordinary end of the switch. A guard that goes out of scope without it
/// still tries to give the identity back, but can bring no `EffectiveIdentity` up to date.
pub struct PrivDropGuard {
    prev_uid: u32,
    prev_gid: u32,
    held: bool,
}

impl PrivDropGuard {
    /// The identity that `release` goes back to.
    pub closed spec fn previous(&self) -> Identity {
        Identity { uid: self.prev_uid, gid: self.prev_gid }
    }

    /// Whether the switch is still to be reversed.
    pub closed spec fn is_held(&self) -> bool {
        self.held
    }

    /// Switches the effective identity to `uid` and `gid`, the group first, so that at no
    /// moment the new user id is paired with the old group's rights.
    ///
    /// On success the guard remembers the identity that `ids` held. Where the kernel
    /// refuses the group, nothing has changed; where it refuses the user, the group has
    /// changed and stays so.
    pub fn to_user(ids: &mut EffectiveIdentity, uid: u32, gid: u32) -> (r: Result<
        PrivDropGuard,
        PrivError,
    >)
        ensures
            match r {
                Ok(guard) => {
                    &&& final(ids)@ == Identity { uid, gid }
                    &&& guard.previous() == old(ids)@
                    &&& guard.is_held()
                },
                Err(e) => final(ids)@ == after_switch(old(ids)@, Identity { uid, gid }, e.outcome()),
            },
    {
        let prev_uid = ids.uid;
        let prev_gid = ids.gid;
        match set_effective_gid(gid) {
            Ok(_) => {},
            Err(e) => {
                return Err(PrivError::Group(e));
            },
        }
        ids.gid = gid;
        match set_effective_uid(uid) {
            Ok(_) => {},
            Err(e) => {
                return Err(PrivError::User(e));
            },
        }
        ids.uid = uid;
        Ok(PrivDropGuard { prev_uid, prev_gid, held: true })
    }

    /// Gives back the identity that was in force before `to_user`, the group first. Both
    /// changes are tried; the result says which of them the kernel granted.
    pub fn release(self, ids: &mut EffectiveIdentity) -> (r: Restoration)
        ensures
            final(ids)@ == after_restore(old(ids)@, self.previous(), r),
    {
        let mut guard = self;
        let previous = Identity { uid: guard.prev_uid, gid: guard.prev_gid };
        let group = set_effective_gid(previous.gid).is_ok();
        let user = set_effective_uid(previous.uid).is_ok();
        guard.held = false;
        ids.note_restoration(previous, group, user)
    }
}

impl Drop for PrivDropGuard {
    fn drop(&mut self)
        opens_invariants none
        no_unwind
    {
        if self.held {
            let group = set_effective_gid(self.prev_gid);
            let user = set_effective_uid(self.prev_uid);
        }
    }
}

/// Makes `uid` and `gid` the real, effective and saved identity of the process, the group
/// first. Nothing gives the earlier identity back.
pub fn become_user(ids: &mut EffectiveIdentity, uid: u32, gid: u32) -> (r: Result<(), PrivError>)
    ensures
        match r {
            Ok(_) => final(ids)@ == Identity { uid, gid },
            Err(e) => final(ids)@ == after_switch(old(ids)@, Identity { uid, gid }, e.outcome()),
        },
{
    match set_every_gid(gid) {
        Ok(_) => {},
        Err(e) => {
            return Err(PrivError::Group(e));
        },
    }
    ids.gid = gid;
    match set_every_uid(uid) {
        Ok(_) => {},
        Err(e) => {
            return Err(PrivError::User(e));
        },
    }
    ids.uid = uid;
    Ok(())
}

/// A switch to any identity, followed by a restoration in which the kernel grants both
/// changes, leaves the effective identity as it was before the switch.
pub proof fn lemma_guard_symmetry(before: Identity, target: Identity)
    ensures
        after_restore(
            after_switch(before, target, Switch::Granted),
            before,
            Restoration { group: true, user: true },
        ) == before,
{
}

} // verus!
