use vstd::prelude::*;

verus! {

/// Exit code of a successful run.
pub const EXIT_SUCCESS: i32 = 0;

/// Exit code of an unexpected failure (a command that could not be launched,
/// a missing argument, unreadable input).
pub const EXIT_PROGRAM_ERROR: i32 = 1;

/// Exit code of a failure that a VPN command reported.
pub const EXIT_UPV_VPN_ERROR: i32 = 11;

/// Exit code of a failure that a network-drive command reported.
pub const EXIT_UPV_DRIVE_ERROR: i32 = 12;

/// Exit code of an unmount refused because the drive is in use.
pub const EXIT_UPV_DRIVE_IN_USE_ERROR: i32 = 13;

/// A failure of the tool's own business logic: a message for the user and the
/// process exit code that reports it.
#[derive(Debug)]
pub struct UpvError {
    pub message: String,
    pub exit_code: i32,
}

impl UpvError {
    pub fn new(message: String, exit_code: i32) -> (r: UpvError)
        ensures
            r.message@ == message@,
            r.exit_code == exit_code,
    {
        UpvError { message, exit_code }
    }

    /// The text shown to the user.
    pub fn message(&self) -> (r: &str)
        ensures
            r@ == self.message@,
    {
        self.message.as_str()
    }
}

/// `e` carries `message` and `code`.
pub open spec fn error_is(e: UpvError, message: Seq<char>, code: i32) -> bool {
    e.message@ == message && e.exit_code == code
}

/// The process exit code that reports the outcome of a command.
pub fn exit_code_of(outcome: &Result<(), UpvError>) -> (r: i32)
    ensures
        r == match outcome {
            Ok(()) => EXIT_SUCCESS,
            Err(e) => e.exit_code,
        },
{
    match outcome {
        Ok(()) => EXIT_SUCCESS,
        Err(e) => e.exit_code,
    }
}

} // verus!
