//! Trusted boundary to the host OS, through the `nix` crate: file status,
//! moving the process to another directory, and the user-database lookup.
//! Every answer depends on the state of the machine, so the contracts
//! promise nothing about which answer comes back; the verified callers say
//! what holds of each possible answer.

use vstd::prelude::*;

verus! {

/// Relies on nix::sys::stat::stat: hands back the `st_mode` field of the
/// file status of `path`, or the error's description when the path cannot
/// be stat'ed.
#[verifier::external_body]
pub(crate) fn stat_mode(path: &str) -> Result<u32, String> {
    match nix::sys::stat::stat(path) {
        Ok(st) => Ok(st.st_mode as u32),
        Err(e) => Err(format!("{}", e)),
    }
}

/// Relies on nix::unistd::chdir: moves the calling process to `path` and
/// reports whether the call succeeded.
#[verifier::external_body]
pub(crate) fn change_dir(path: &str) -> bool {
    nix::unistd::chdir(path).is_ok()
}

/// Relies on nix::unistd::User::from_uid and nix::unistd::Uid::current:
/// looks the calling process's user up in the OS user database and hands
/// back the user name and home directory, or `None` when the database has
/// no entry (or the home directory is not valid text).
#[verifier::external_body]
pub(crate) fn current_user() -> Option<(String, String)> {
    match nix::unistd::User::from_uid(nix::unistd::Uid::current()) {
        Ok(Some(u)) => match u.dir.to_str() {
            Some(d) => Some((u.name.clone(), d.to_string())),
            None => None,
        },
        _ => None,
    }
}

} // verus!
