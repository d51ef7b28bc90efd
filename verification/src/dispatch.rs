//! The dispatcher: map the command name of one parsed line to its built-in
//! handler, to the launcher, or to the silent no-op for a blank line, and
//! hand back the action the driver must take.

use vstd::prelude::*;

use crate::builtins;
use crate::builtins::{cd_post, farewell_first, farewell_second, pwd_output, whoami_output};
use crate::command::{Action, Command};
use crate::launch;
use crate::launch::try_exec_post;
use crate::state::Environment;

verus! {

/// A command name one of the built-in handlers (or the blank-line no-op)
/// claims; every other name goes to the launcher.
pub open spec fn is_builtin_name(name: Seq<char>) -> bool {
    ||| name == "pwd"@
    ||| name == "cd"@
    ||| name == "whoami"@
    ||| name == "exit"@
    ||| name == ""@
}

/// Dispatch one parsed command: the five recognized names run in-process
/// and only `cd` may move the state; every other name is resolved and, on a
/// hit, becomes a launch plan. The farewell of `exit` comes for that name
/// and no other, whatever the session state holds.
pub fn run_command(cmd: &Command, env: &mut Environment) -> (r: Action)
    ensures
        cmd@.cmd == "pwd"@ ==> final(env)@ == old(env)@ && (r matches Action::PrintOut(s) && s@
            == pwd_output(old(env)@)),
        cmd@.cmd == "cd"@ ==> cd_post(old(env)@, final(env)@, cmd@, r),
        cmd@.cmd == "whoami"@ ==> final(env)@ == old(env)@ && (r matches Action::PrintOut(s) && s@
            == whoami_output(old(env)@)),
        cmd@.cmd == "exit"@ ==> final(env)@ == old(env)@ && (r matches Action::Exit(a, b) && a@
            == farewell_first() && b@ == farewell_second()),
        cmd@.cmd == ""@ ==> final(env)@ == old(env)@ && r is Silent,
        !is_builtin_name(cmd@.cmd) ==> final(env)@ == old(env)@ && try_exec_post(
            cmd@,
            old(env)@,
            r,
        ),
        r is Exit <==> cmd@.cmd == "exit"@,
{
    proof {
        reveal_strlit("pwd");
        reveal_strlit("cd");
        reveal_strlit("whoami");
        reveal_strlit("exit");
        reveal_strlit("");
        // The five names have five different lengths, so no two are equal.
        assert(("pwd"@).len() == 3);
        assert(("cd"@).len() == 2);
        assert(("whoami"@).len() == 6);
        assert(("exit"@).len() == 4);
        assert((""@).len() == 0);
    }
    if crate::text::str_eq(cmd.cmd.as_str(), "pwd") {
        builtins::run_pwd(env)
    } else if crate::text::str_eq(cmd.cmd.as_str(), "cd") {
        builtins::run_cd(cmd, env)
    } else if crate::text::str_eq(cmd.cmd.as_str(), "whoami") {
        builtins::run_whoami(env)
    } else if crate::text::str_eq(cmd.cmd.as_str(), "exit") {
        builtins::run_exit()
    } else if crate::text::str_eq(cmd.cmd.as_str(), "") {
        Action::Silent
    } else {
        launch::try_exec(cmd, env)
    }
}

} // verus!
