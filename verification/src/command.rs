//! One line of input, parsed: the command name and the full token list,
//! and the action a dispatched command asks the driver to take.

use vstd::prelude::*;

use crate::text::{split_char, split_spec, views_of};

verus! {

/// One parsed line of input. The token list keeps the command name at
/// index zero, the usual argv convention, and keeps empty tokens produced
/// by adjacent spaces.
pub struct Command {
    /// The first token of the line; empty for a blank line.
    pub cmd: String,
    /// All tokens of the line, the command name first.
    pub args: Vec<String>,
}

/// The mathematical value of a `Command`.
#[verifier::ext_equal]
pub ghost struct CommandView {
    pub cmd: Seq<char>,
    pub args: Seq<Seq<char>>,
}

impl View for Command {
    type V = CommandView;

    open spec fn view(&self) -> CommandView {
        CommandView { cmd: self.cmd@, args: views_of(self.args@) }
    }
}

/// Split one line of input on single ASCII spaces into its tokens; the
/// first token, possibly empty, is the command name. Adjacent spaces give
/// empty tokens: nothing is collapsed, quoted or escaped.
pub fn parse_input(input: String) -> (r: Command)
    ensures
        r@.args == split_spec(input@, ' '),
        r@.args.len() >= 1,
        r@.cmd == r@.args[0],
{
    let args = split_char(input.as_str(), ' ');
    let cmd = args[0].clone();
    proof {
        assert(views_of(args@)[0] == args@[0]@);
    }
    Command { cmd, args }
}

/// Everything the launcher needs to run one child process: the resolved
/// path of the program, the argument vector (the command name at index
/// zero, empty tokens dropped), and the child's four-entry environment.
pub struct LaunchPlan {
    pub path: String,
    pub args: Vec<String>,
    pub env_vars: Vec<String>,
}

/// What the driver must do after one command was dispatched. The library
/// decides; the driver performs the printing, the exit or the launch, and
/// then returns to the prompt (except for `Exit`).
pub enum Action {
    /// Nothing to do: an empty line, or a `cd` that succeeded.
    Silent,
    /// Print one line to standard output.
    PrintOut(String),
    /// Print one diagnostic line to standard error.
    PrintErr(String),
    /// Print the two farewell lines, then terminate with success status.
    Exit(String, String),
    /// Run one child process and wait for it to terminate.
    Launch(LaunchPlan),
}

} // verus!
