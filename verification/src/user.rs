//! Who runs this process, and who a user name stands for.

use vstd::prelude::*;

verus! {

/// A user id together with the id of that user's group.
#[derive(Clone, Copy, Debug, PartialEq, Eq, Structural)]
pub struct Identity {
    pub uid: u32,
    pub gid: u32,
}

impl Identity {
    /// Whether this is an identity of the superuser.
    pub open spec fn is_superuser(self) -> bool {
        self.uid == 0
    }

    /// Tests whether this is an identity of the superuser.
    pub fn is_root(&self) -> (r: bool)
        ensures
            r == self.is_superuser(),
    {
        uid_is_root(self.uid)
    }

    /// The identity made of a user id and a group id, in this order.
    pub fn from_ids(ids: (u32, u32)) -> (r: Identity)
        ensures
            r == (Identity { uid: ids.0, gid: ids.1 }),
    {
        Identity { uid: ids.0, gid: ids.1 }
    }
}

/// Tests whether `uid` is the superuser's user id.
pub fn uid_is_root(uid: u32) -> (r: bool)
    ensures
        r == (uid == 0),
{
    uid == 0
}

/// Whether `name` holds the character with code 0. No user has such a name: the user
/// database is asked in the C way, where that character ends a name.
pub open spec fn has_nul(name: Seq<char>) -> bool {
    name.contains('\0')
}

/// The user id and primary group id that the user database holds for `name`, or `None`
/// where it holds no such user.
///
/// Trusted: calls `users::get_user_by_name` and reads `User::uid` and
/// `User::primary_group_id` from what it found. That function gives `None` for a name that
/// holds the character with code 0, before it asks the database: this much is claimed. For
/// every other name the answer depends on the user database of the machine, and nothing is
/// claimed of it.
#[verifier::external_body]
pub fn get_uid_gid(name: &str) -> (r: Option<(u32, u32)>)
    ensures
        has_nul(name@) ==> r is None,
{
    users::get_user_by_name(name).map(|u| (u.uid(), u.primary_group_id()))
}

/// Trusted: `users::get_effective_uid`, the effective user id of this process.
#[verifier::external_body]
fn effective_uid() -> (r: u32) {
    users::get_effective_uid()
}

/// Trusted: `users::get_current_uid`, the real user id of this process.
#[verifier::external_body]
fn current_uid() -> (r: u32) {
    users::get_current_uid()
}

/// Trusted: `users::get_current_gid`, the real group id of this process.
#[verifier::external_body]
fn current_gid() -> (r: u32) {
    users::get_current_gid()
}

/// The identity that the user database holds for `name`: `None` where it holds no user of
/// that name, which is so for every name that holds the character with code 0. For any
/// other name the database decides.
pub fn lookup(name: &str) -> (r: Option<Identity>)
    ensures
        has_nul(name@) ==> r is None,
{
    match get_uid_gid(name) {
        Some(ids) => Some(Identity::from_ids(ids)),
        None => None,
    }
}

/// Whether the user database holds a user called `name`. It holds none whose name holds
/// the character with code 0; for any other name the database decides.
pub fn user_exists(name: &str) -> (r: bool)
    ensures
        has_nul(name@) ==> !r,
{
    get_uid_gid(name).is_some()
}

/// Whether this process runs with the superuser's effective user id.
pub fn is_root() -> (r: bool) {
    uid_is_root(effective_uid())
}

/// The real user id and group id of this process.
pub fn get_current_guid() -> (r: (u32, u32)) {
    (current_uid(), current_gid())
}

} // verus!
