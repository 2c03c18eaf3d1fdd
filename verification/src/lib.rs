//! Switching a touchpad's inhibit flag on behalf of a desktop user.
//!
//! The flag lies in a file that only the superuser can write. This library decides how a
//! process gets there (it is privileged already, it has to start itself again through an
//! escalation helper, or it is that helper's child), takes the run step by step, and
//! changes the identity of the process where the user has to be told of the result.
//! Files, devices and other programs are left to the caller.

pub mod orchestrator;
pub mod parse;
pub mod perm_guard;
pub mod text;
pub mod touchpad;
pub mod user;
