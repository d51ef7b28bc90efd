//! The built-in commands: `pwd`, `cd`, `whoami` and `exit`. Each runs
//! inside the shell process itself and never spawns a child; side effects
//! are confined to the session state and to the lines the driver prints.

use vstd::prelude::*;

use crate::command::{Action, Command, CommandView};
use crate::state::{Environment, EnvView};
use crate::sys;
use crate::text;

verus! {

/// The line `pwd` prints: the working directory, exactly as it was set.
pub open spec fn pwd_output(e: EnvView) -> Seq<char> {
    e.pwd
}

/// The line `whoami` prints: the user name.
pub open spec fn whoami_output(e: EnvView) -> Seq<char> {
    e.user
}

/// The first farewell line of the `exit` built-in.
pub open spec fn farewell_first() -> Seq<char> {
    "Thanks for using TomSH"@
}

/// The second farewell line of the `exit` built-in.
pub open spec fn farewell_second() -> Seq<char> {
    "Your kernel is going to panic now as it doesn't like it when your init proces exits"@
}

/// The directory `cd` moves to: the token after the command name when one
/// is there, else the home directory.
pub open spec fn cd_target(c: CommandView, e: EnvView) -> Seq<char> {
    if c.args.len() >= 2 {
        c.args[1]
    } else {
        e.home
    }
}

/// Does this `st_mode` value name a directory? The file-type bits carry
/// the directory tag, as POSIX lays `st_mode` out.
pub open spec fn is_dir_mode(mode: u32) -> bool {
    mode & 0o170000 == 0o040000
}

/// The session state after a successful directory change to `target`: only
/// the working directory moves; identity, home and search path stay.
pub open spec fn cd_changed(pre: EnvView, post: EnvView, target: Seq<char>) -> bool {
    post == (EnvView { pwd: target, ..pre })
}

/// Everything `cd` guarantees, whatever the file status of the target was:
/// identity, home and search path never move; on success the working
/// directory is exactly the chosen target; on failure the whole state is
/// unchanged and exactly one diagnostic line comes back.
pub open spec fn cd_post(pre: EnvView, post: EnvView, c: CommandView, r: Action) -> bool {
    &&& post.user == pre.user
    &&& post.home == pre.home
    &&& post.path == pre.path
    &&& (r is Silent ==> cd_changed(pre, post, cd_target(c, pre)))
    &&& (!(r is Silent) ==> post == pre && r matches Action::PrintErr(_))
    &&& (r is Silent && c.args.len() < 2 ==> post.pwd == pre.home)
    &&& (r is Silent || r matches Action::PrintErr(_))
}

/// The `pwd` built-in: report the working directory, state unchanged.
pub fn run_pwd(env: &Environment) -> (r: Action)
    ensures
        r matches Action::PrintOut(s) && s@ == pwd_output(env@),
{
    Action::PrintOut(env.pwd.clone())
}

/// The `whoami` built-in: report the user name, state unchanged.
pub fn run_whoami(env: &Environment) -> (r: Action)
    ensures
        r matches Action::PrintOut(s) && s@ == whoami_output(env@),
{
    Action::PrintOut(env.user.clone())
}

/// The `exit` built-in: the two fixed farewell lines, then termination with
/// success status — the same for every session state.
pub fn run_exit() -> (r: Action)
    ensures
        r matches Action::Exit(a, b) && a@ == farewell_first() && b@ == farewell_second(),
{
    Action::Exit(
        String::from_str("Thanks for using TomSH"),
        String::from_str(
            "Your kernel is going to panic now as it doesn't like it when your init proces exits",
        ),
    )
}

/// Decide `cd` from the file status of the target: move to a directory;
/// refuse anything else, or a failed lookup, with one diagnostic line and
/// the state unchanged.
pub fn apply_cd(env: &mut Environment, target: String, status: Result<u32, String>) -> (r: Action)
    ensures
        status matches Ok(m) && is_dir_mode(m) ==> r is Silent && cd_changed(
            old(env)@,
            final(env)@,
            target@,
        ),
        status matches Ok(m) && !is_dir_mode(m) ==> final(env)@ == old(env)@ && (r matches
        Action::PrintErr(s) && s@ == target@ + " is not a directory!"@),
        status matches Err(e) ==> final(env)@ == old(env)@ && (r matches Action::PrintErr(s) && s@
            == target@ + ": "@ + e@),
{
    match status {
        Ok(mode) => {
            if mode & 0o170000 == 0o040000 {
                env.pwd = target;
                Action::Silent
            } else {
                Action::PrintErr(text::concat2(target.as_str(), " is not a directory!"))
            }
        },
        Err(msg) => Action::PrintErr(text::concat3(target.as_str(), ": ", msg.as_str())),
    }
}

/// The `cd` built-in: move to the first argument when one is there, else to
/// the home directory. The target must be an existing directory at call
/// time, judged by its file status; on success the process itself moves
/// there too, so relative paths elsewhere stay consistent.
pub fn run_cd(cmd: &Command, env: &mut Environment) -> (r: Action)
    ensures
        cd_post(old(env)@, final(env)@, cmd@, r),
{
    let target: String = if cmd.args.len() >= 2 {
        cmd.args[1].clone()
    } else {
        env.home.clone()
    };
    proof {
        assert(cmd.args.len() >= 2 ==> crate::text::views_of(cmd.args@)[1] == cmd.args@[1]@);
        assert(target@ == cd_target(cmd@, old(env)@));
    }
    let status = sys::stat_mode(target.as_str());
    let action = apply_cd(env, target, status);
    if matches!(action, Action::Silent) {
        let _moved = sys::change_dir(env.pwd.as_str());
    }
    action
}

/// After a successful `cd`, `pwd` reports exactly the string that was
/// passed as the target: the working directory is that string itself.
pub proof fn lemma_pwd_after_cd(pre: EnvView, post: EnvView, target: Seq<char>)
    requires
        cd_changed(pre, post, target),
    ensures
        pwd_output(post) == target,
{
}

/// After a failed `cd` the state is unchanged, so a later `pwd` still
/// reports the working directory from before the attempt.
pub proof fn lemma_pwd_after_failed_cd(pre: EnvView, post: EnvView, c: CommandView, r: Action)
    requires
        cd_post(pre, post, c, r),
        !(r is Silent),
    ensures
        post == pre,
        pwd_output(post) == pwd_output(pre),
        r matches Action::PrintErr(_),
{
}

/// `cd` without an argument goes home: when the token list holds only the
/// command name and the change succeeds, the working directory is the home
/// directory.
pub proof fn lemma_cd_without_argument(pre: EnvView, post: EnvView, c: CommandView, r: Action)
    requires
        cd_post(pre, post, c, r),
        c.args.len() < 2,
        r is Silent,
    ensures
        post.pwd == pre.home,
{
}

} // verus!
