//! External commands: what to run, and what came back.
use vstd::prelude::*;

verus! {

/// A program and its arguments.
#[derive(Debug)]
pub struct Command {
    pub program: String,
    pub args: Vec<String>,
}

/// The arguments as character sequences.
pub open spec fn args_view(args: Vec<String>) -> Seq<Seq<char>> {
    args@.map_values(|a: String| a@)
}

/// How a command ended.
#[derive(Debug)]
pub enum CommandOutcome {
    /// The process could not be started; the launch error's text.
    NotStarted(String),
    /// The process ran: whether it reported success, its exit code if it
    /// has one, and its standard output and error as text.
    Exited { success: bool, code: Option<i32>, stdout: String, stderr: String },
}

/// Appends `a` to the argument list.
pub fn push_arg(args: &mut Vec<String>, a: &str)
    ensures
        args_view(*final(args)) == args_view(*old(args)).push(a@),
{
    push_owned(args, String::from_str(a));
}

/// Appends `a` to the argument list.
pub fn push_owned(args: &mut Vec<String>, a: String)
    ensures
        args_view(*final(args)) == args_view(*old(args)).push(a@),
{
    let ghost before = args_view(*args);
    args.push(a);
    assert(args_view(*args) =~= before.push(a@));
}

} // verus!
