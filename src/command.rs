use vstd::prelude::*;

verus! {

/// An external program to run: its name, its arguments, and the text to
/// write to its standard input before closing it, if any.
#[derive(Debug)]
pub struct ExternalCommand {
    pub program: String,
    pub args: Vec<String>,
    pub input: Option<String>,
}

impl ExternalCommand {
    /// The arguments, each as a sequence of characters.
    pub open spec fn arg_texts(&self) -> Seq<Seq<char>> {
        self.args.deep_view()
    }

    /// The text written to standard input, if any.
    pub open spec fn input_text(&self) -> Option<Seq<char>> {
        match self.input {
            Some(s) => Some(s@),
            None => None,
        }
    }
}

/// What a finished external program left behind: whether it exited with a
/// success status, and its captured output streams.
#[derive(Debug)]
pub struct ExecutionResult {
    pub success: bool,
    pub stdout: String,
    pub stderr: String,
}

impl ExecutionResult {
    pub fn new(success: bool, stdout: String, stderr: String) -> (r: ExecutionResult)
        ensures
            r.success == success,
            r.stdout@ == stdout@,
            r.stderr@ == stderr@,
    {
        ExecutionResult { success, stdout, stderr }
    }
}

/// A command with no standard input.
pub fn plain_command(program: &str, args: Vec<String>) -> (r: ExternalCommand)
    ensures
        r.program@ == program@,
        r.args@ == args@,
        r.input is None,
{
    ExternalCommand { program: String::from_str(program), args, input: None }
}

/// `args` with `arg` added at the end.
pub fn push_arg(args: &mut Vec<String>, arg: String)
    ensures
        final(args).deep_view() == old(args).deep_view().push(arg@),
{
    args.push(arg);
    assert(final(args).deep_view() =~= old(args).deep_view().push(arg@));
}

} // verus!
