use vstd::prelude::*;
use vstd::string::*;

verus! {

/// What every fatal message starts with.
pub const FAILURE_CONTEXT: &'static str = "error while running tauri application";

/// How the shell ends.
#[derive(Debug, PartialEq, Eq)]
pub enum Outcome {
    /// The event loop ran and the application has exited.
    Exited,
    /// The application could not be started; the process must terminate
    /// with `message`.
    Fatal { message: String },
}

/// The message of a fatal start: the context, a colon and a space, then the
/// framework's own account of the failure.
pub open spec fn fatal_message(detail: Seq<char>) -> Seq<char> {
    FAILURE_CONTEXT@ + ": "@ + detail
}

/// Decides how the shell ends from the way the framework's run returned:
/// `Ok` once the application has exited, `Err` with the framework's account
/// of why it could not start. There is no third way and nothing is retried.
pub fn conclude(ran: Result<(), String>) -> (outcome: Outcome)
    ensures
        ran is Ok ==> outcome is Exited,
        ran is Err ==> outcome is Fatal && outcome->message@ == fatal_message(ran->Err_0@),
{
    match ran {
        Ok(_) => Outcome::Exited,
        Err(detail) => {
            let mut message = String::from_str(FAILURE_CONTEXT);
            message.append(": ");
            message.append(detail.as_str());
            Outcome::Fatal { message }
        },
    }
}

} // verus!
