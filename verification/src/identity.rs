//! The host's account of one process: command line and owning user.
//!
//! Both lookups may legitimately fail for short-lived or
//! permission-restricted processes; a caller drops the process entry then.

use vstd::prelude::*;

verus! {

/// procfs's handle for one host process, carried through opaquely.
#[verifier::external_type_specification]
#[verifier::external_body]
pub struct ExProcess(procfs::process::Process);

/// Relies on procfs::process::Process::new: a handle for the host process
/// with that id, or nothing when the process table has no such entry or
/// refuses access.
#[verifier::external_body]
pub(crate) fn proc_open(pid: i32) -> (r: Option<procfs::process::Process>) {
    procfs::process::Process::new(pid).ok()
}

/// Relies on procfs::process::Process::cmdline: the process's command-line
/// arguments, or nothing when the process vanished or is unreadable.
#[verifier::external_body]
pub(crate) fn proc_cmdline(p: &procfs::process::Process) -> (r: Option<Vec<String>>) {
    p.cmdline().ok()
}

/// Relies on procfs::process::Process::uid: the owning user id from the
/// process's status file, or nothing when it is unreadable.
#[verifier::external_body]
pub(crate) fn proc_uid(p: &procfs::process::Process) -> (r: Option<u32>) {
    p.uid().ok()
}

/// users' account record for one user, carried through opaquely.
#[verifier::external_type_specification]
#[verifier::external_body]
pub struct ExUser(users::User);

/// Relies on users::get_user_by_uid: the account with that user id, or
/// nothing when the id does not resolve on this host.
#[verifier::external_body]
pub(crate) fn user_by_uid(uid: u32) -> (r: Option<users::User>) {
    users::get_user_by_uid(uid)
}

/// Relies on users::User::name: the account's display name, when it is
/// valid UTF-8.
#[verifier::external_body]
pub(crate) fn user_name(user: &users::User) -> (r: Option<String>) {
    user.name().to_str().map(|s| s.to_string())
}

} // verus!
