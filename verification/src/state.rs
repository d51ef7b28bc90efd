//! The session state of the shell: working directory, user identity, home
//! directory and search path, with its startup and the prompt built from it.

use vstd::prelude::*;

use crate::sys;
use crate::text;

verus! {

/// The state one session carries: mutated only by built-in handlers, and
/// only between commands.
pub struct Environment {
    /// Current working directory.
    pub pwd: String,
    /// Name of the current user; never changed during a session.
    pub user: String,
    /// Home directory of the current user; never changed during a session.
    pub home: String,
    /// Colon-separated search path; fixed for the whole session.
    pub path: String,
}

/// The mathematical value of an `Environment`.
#[verifier::ext_equal]
pub ghost struct EnvView {
    pub pwd: Seq<char>,
    pub user: Seq<char>,
    pub home: Seq<char>,
    pub path: Seq<char>,
}

impl View for Environment {
    type V = EnvView;

    open spec fn view(&self) -> EnvView {
        EnvView { pwd: self.pwd@, user: self.user@, home: self.home@, path: self.path@ }
    }
}

/// The search path every fresh session starts with.
pub open spec fn default_search_path() -> Seq<char> {
    "/bin:/usr/bin"@
}

/// A fresh session state for the given user: the working directory starts
/// at the home directory, and the search path at the fixed default.
pub fn new_environment(user: String, home: String) -> (e: Environment)
    ensures
        e@ == (EnvView {
            pwd: home@,
            user: user@,
            home: home@,
            path: default_search_path(),
        }),
{
    let pwd = home.clone();
    Environment { pwd, user, home, path: String::from_str("/bin:/usr/bin") }
}

/// Startup: look the current user up in the OS user database, move the
/// process to that user's home directory, and build the starting state.
/// `None` is a fatal startup error — the current identity has no usable
/// entry, or its home directory cannot be entered.
pub fn init() -> (r: Option<Environment>)
    ensures
        r matches Some(e) ==> e@.pwd == e@.home && e@.path == default_search_path(),
{
    match sys::current_user() {
        Some((user, home)) => {
            if sys::change_dir(home.as_str()) {
                Some(new_environment(user, home))
            } else {
                None
            }
        },
        None => None,
    }
}

/// The prompt written before each line of input is read: the working
/// directory and a dollar sign.
pub fn prompt_string(env: &Environment) -> (r: String)
    ensures
        r@ == env@.pwd + "$ "@,
{
    text::concat2(env.pwd.as_str(), "$ ")
}

} // verus!
