//! Handling of commands that are not built in: resolve the name against
//! the search path, and build everything the driver needs to run the child
//! process — the executable path, the argument vector, and the child's
//! environment.

use vstd::prelude::*;

use crate::command::{Action, Command, LaunchPlan};
use crate::state::{Environment, EnvView};
use crate::sys;
use crate::text;
use crate::text::{split_spec, views_of};

verus! {

/// The path probed for `name` in the directory `dir`.
pub open spec fn candidate_spec(dir: Seq<char>, name: Seq<char>) -> Seq<char> {
    dir + "/"@ + name
}

/// Does this `st_mode` value name a regular file? The file-type bits carry
/// the regular-file tag, as POSIX lays `st_mode` out.
pub open spec fn is_file_mode(mode: u32) -> bool {
    mode & 0o170000 == 0o100000
}

/// The path probed for `name` in the directory `dir`.
pub fn candidate_path(dir: &str, name: &str) -> (r: String)
    ensures
        r@ == candidate_spec(dir@, name@),
{
    text::concat3(dir, "/", name)
}

/// The decision the resolver makes from one stat answer: only a mode whose
/// file-type bits carry the regular-file tag is a hit; a failed lookup is a
/// miss.
pub open spec fn regular_status(status: Result<u32, String>) -> bool {
    status matches Ok(m) && is_file_mode(m)
}

/// Decide one stat answer, exactly as `regular_status` says.
pub fn status_is_regular(status: &Result<u32, String>) -> (r: bool)
    ensures
        r == regular_status(*status),
{
    match status {
        Ok(mode) => *mode & 0o170000 == 0o100000,
        Err(_) => false,
    }
}

/// Probe the directories left to right and stop at the first whose
/// candidate path names a regular file. The second result records the stat
/// answer of each candidate tried, in order, so the contract pins the
/// whole search: every answer before the last was decided a miss; a hit is
/// the candidate of the last — and so least — recorded directory, decided
/// a regular file; `None` means every directory was tried and each answer
/// was decided a miss. No directory past a hit is probed at all.
pub fn resolve_scan(name: &str, dirs: &Vec<String>) -> (r: (
    Option<String>,
    Vec<Result<u32, String>>,
))
    ensures
        r.1@.len() <= dirs@.len(),
        forall|j: int| 0 <= j < r.1@.len() - 1 ==> !regular_status(#[trigger] r.1@[j]),
        r.0 matches Some(p) ==> {
            &&& r.1@.len() >= 1
            &&& regular_status(r.1@[r.1@.len() - 1])
            &&& p@ == candidate_spec(dirs@[r.1@.len() - 1]@, name@)
        },
        r.0 is None ==> r.1@.len() == dirs@.len() && (forall|j: int|
            0 <= j < r.1@.len() ==> !regular_status(#[trigger] r.1@[j])),
{
    let mut record: Vec<Result<u32, String>> = Vec::new();
    let mut i: usize = 0;
    while i < dirs.len()
        invariant
            i <= dirs@.len(),
            record@.len() == i,
            forall|j: int| 0 <= j < i ==> !regular_status(#[trigger] record@[j]),
        decreases dirs@.len() - i,
    {
        let cand = candidate_path(dirs[i].as_str(), name);
        let status = sys::stat_mode(cand.as_str());
        let hit = status_is_regular(&status);
        record.push(status);
        if hit {
            return (Some(cand), record);
        }
        i += 1;
    }
    (None, record)
}

/// Resolve a command name against the colon-separated search path: split
/// the path, then scan its directories left to right, stopping at the
/// first whose candidate's stat answer is decided a regular file. The
/// recorded answers come back with the result, carrying the same contract
/// as the scan: a hit is the candidate of the least directory whose answer
/// was decided a hit, and on `None` every directory's answer was decided a
/// miss.
pub fn resolve_command(name: &str, search_path: &str) -> (r: (
    Option<String>,
    Vec<Result<u32, String>>,
))
    ensures
        r.1@.len() <= split_spec(search_path@, ':').len(),
        forall|j: int| 0 <= j < r.1@.len() - 1 ==> !regular_status(#[trigger] r.1@[j]),
        r.0 matches Some(p) ==> {
            &&& r.1@.len() >= 1
            &&& regular_status(r.1@[r.1@.len() - 1])
            &&& p@ == candidate_spec(split_spec(search_path@, ':')[r.1@.len() - 1], name@)
        },
        r.0 is None ==> r.1@.len() == split_spec(search_path@, ':').len() && (forall|j: int|
            0 <= j < r.1@.len() ==> !regular_status(#[trigger] r.1@[j])),
{
    let dirs = text::split_char(search_path, ':');
    let r = resolve_scan(name, &dirs);
    proof {
        assert(views_of(dirs@).len() == dirs@.len());
        if r.0 is Some {
            let k = r.1@.len() - 1;
            assert(views_of(dirs@)[k] == dirs@[k]@);
            assert(split_spec(search_path@, ':')[k] == dirs@[k]@);
        }
    }
    r
}

/// The argument tokens a child receives: the empty tokens, artifacts of
/// splitting on adjacent spaces, are dropped.
pub open spec fn nonempty_args(args: Seq<Seq<char>>) -> Seq<Seq<char>> {
    args.filter(|a: Seq<char>| a.len() > 0)
}

/// Drop the empty tokens from the argument vector, keeping the order.
pub fn filter_empty_args(args: &Vec<String>) -> (r: Vec<String>)
    ensures
        views_of(r@) == nonempty_args(views_of(args@)),
{
    let mut out: Vec<String> = Vec::new();
    let mut i: usize = 0;
    proof {
        reveal(Seq::filter);
        assert(views_of(args@).take(0) =~= Seq::<Seq<char>>::empty());
        assert(views_of(out@) =~= views_of(args@).take(0).filter(|a: Seq<char>| a.len() > 0));
    }
    while i < args.len()
        invariant
            i <= args@.len(),
            views_of(out@) == views_of(args@).take(i as int).filter(
                |a: Seq<char>| a.len() > 0,
            ),
        decreases args@.len() - i,
    {
        let keep = args[i].as_str().unicode_len() > 0;
        proof {
            reveal(Seq::filter);
            let v = views_of(args@);
            assert(v.take(i + 1).drop_last() =~= v.take(i as int));
            assert(v.take(i + 1).last() == args@[i as int]@);
            if keep {
                assert(views_of(out@.push(args@[i as int])) =~= views_of(out@).push(
                    args@[i as int]@,
                ));
            }
        }
        if keep {
            out.push(args[i].clone());
        }
        i += 1;
    }
    proof {
        assert(views_of(args@).take(args@.len() as int) =~= views_of(args@));
    }
    out
}

/// The exact four environment entries handed to a child process: each key,
/// an equals sign, and the session's field — nothing else.
pub open spec fn exec_env_entries(e: EnvView) -> Seq<Seq<char>> {
    seq![
        "PWD="@ + e.pwd,
        "HOME="@ + e.home,
        "USER="@ + e.user,
        "PATH="@ + e.path,
    ]
}

/// Build the child's environment vector: exactly the four entries `PWD`,
/// `HOME`, `USER` and `PATH`, taken from the session state.
pub fn get_environment_for_exec(env: &Environment) -> (r: Vec<String>)
    ensures
        views_of(r@) == exec_env_entries(env@),
{
    let mut v: Vec<String> = Vec::new();
    v.push(text::concat2("PWD=", env.pwd.as_str()));
    v.push(text::concat2("HOME=", env.home.as_str()));
    v.push(text::concat2("USER=", env.user.as_str()));
    v.push(text::concat2("PATH=", env.path.as_str()));
    proof {
        assert(views_of(v@) =~= exec_env_entries(env@));
    }
    v
}

/// What dispatching to a command that is not built in guarantees: either a
/// launch plan — the path resolved from some directory of the search path,
/// the argument vector with empty tokens dropped, and exactly the four
/// environment entries — or the command-not-found diagnostic.
pub open spec fn try_exec_post(c: crate::command::CommandView, e: EnvView, r: Action) -> bool {
    &&& (r matches Action::Launch(p) ==> {
        &&& exists|i: int|
            0 <= i < split_spec(e.path, ':').len() && p.path@ == candidate_spec(
                #[trigger] split_spec(e.path, ':')[i],
                c.cmd,
            )
        &&& views_of(p.args@) == nonempty_args(c.args)
        &&& views_of(p.env_vars@) == exec_env_entries(e)
    })
    &&& (r matches Action::PrintErr(s) ==> s@ == "command not found: "@ + c.cmd)
    &&& (r matches Action::Launch(_) || r matches Action::PrintErr(_))
}

/// Turn the outcome of resolution into the action owed for it, exactly:
/// a resolved path, and no other, becomes the launch plan carrying that
/// path, the filtered argument vector and the four environment entries;
/// no resolution, and nothing else, becomes the command-not-found
/// diagnostic naming the command.
pub fn launch_action(cmd: &Command, env: &Environment, resolved: Option<String>) -> (r: Action)
    ensures
        resolved matches Some(path) ==> (r matches Action::Launch(p) && p.path@ == path@
            && views_of(p.args@) == nonempty_args(cmd@.args) && views_of(p.env_vars@)
            == exec_env_entries(env@)),
        resolved is None ==> (r matches Action::PrintErr(s) && s@ == "command not found: "@
            + cmd@.cmd),
{
    match resolved {
        Some(path) => Action::Launch(
            LaunchPlan {
                path,
                args: filter_empty_args(&cmd.args),
                env_vars: get_environment_for_exec(env),
            },
        ),
        None => Action::PrintErr(text::concat2("command not found: ", cmd.cmd.as_str())),
    }
}

/// Dispatch to a command that is not built in: resolve the name against
/// the search path; on a hit, the full launch plan for the least directory
/// whose candidate's stat answer was decided a regular file; otherwise the
/// command-not-found diagnostic. The session state is never touched.
pub fn try_exec(cmd: &Command, env: &Environment) -> (r: Action)
    ensures
        try_exec_post(cmd@, env@, r),
{
    let resolved = resolve_command(cmd.cmd.as_str(), env.path.as_str());
    proof {
        if resolved.0 is Some {
            let k = resolved.1@.len() - 1;
            assert(0 <= k < split_spec(env@.path, ':').len());
            assert(resolved.0.unwrap()@ == candidate_spec(
                split_spec(env@.path, ':')[k],
                cmd@.cmd,
            ));
        }
    }
    launch_action(cmd, env, resolved.0)
}

} // verus!
