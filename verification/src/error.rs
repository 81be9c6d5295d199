//! The errors that the connection's callers see.

use vstd::prelude::*;

verus! {

broadcast use vstd::string::group_string_axioms;

/// What was being done when an error came up.
#[derive(Clone, Copy, Debug, PartialEq, Eq)]
pub enum Activity {
    TakeStdout,
    TakeStdin,
    TakeStderr,
    AwaitInitialization,
    CreateSession,
    LoadSession,
    Prompt,
    Cancel,
    SerializeModel,
    SetModel,
    SetConfigOption,
}

/// What is said of an activity that failed.
pub open spec fn failure_text(activity: Activity) -> Seq<char> {
    match activity {
        Activity::TakeStdout => "Failed to take stdout"@,
        Activity::TakeStdin => "Failed to take stdin"@,
        Activity::TakeStderr => "Failed to take stderr"@,
        Activity::AwaitInitialization => "SACP connection task died during initialization"@,
        Activity::CreateSession => "Failed to create ACP session"@,
        Activity::LoadSession => "Failed to load ACP session"@,
        Activity::Prompt => "ACP prompt failed"@,
        Activity::Cancel => "Failed to cancel ACP session"@,
        Activity::SerializeModel => "Failed to serialize SetSessionModelRequest"@,
        Activity::SetModel => "Failed to set ACP model"@,
        Activity::SetConfigOption => "Failed to set ACP session config option"@,
    }
}

/// An error: what failed, and why as far as that is known.
#[derive(Debug, PartialEq, Eq)]
pub struct ConnectionError {
    pub context: String,
    pub cause: Option<String>,
}

impl ConnectionError {
    /// The error says that `activity` failed because of `cause`.
    pub open spec fn reports(self, activity: Activity, cause: Seq<char>) -> bool {
        &&& self.context@ == failure_text(activity)
        &&& self.cause matches Some(text)
        &&& text@ == cause
    }

    /// The error for an activity that failed, with the cause that there is.
    pub fn new(activity: Activity, cause: Option<String>) -> (error: Self)
        ensures
            error.context@ == failure_text(activity),
            error.cause == cause,
    {
        let context = match activity {
            Activity::TakeStdout => "Failed to take stdout",
            Activity::TakeStdin => "Failed to take stdin",
            Activity::TakeStderr => "Failed to take stderr",
            Activity::AwaitInitialization => "SACP connection task died during initialization",
            Activity::CreateSession => "Failed to create ACP session",
            Activity::LoadSession => "Failed to load ACP session",
            Activity::Prompt => "ACP prompt failed",
            Activity::Cancel => "Failed to cancel ACP session",
            Activity::SerializeModel => "Failed to serialize SetSessionModelRequest",
            Activity::SetModel => "Failed to set ACP model",
            Activity::SetConfigOption => "Failed to set ACP session config option",
        };
        ConnectionError { context: context.to_owned(), cause }
    }
}

/// Each activity that fails is told by its own text, and an error reports the cause that it is given
/// and no other.
pub proof fn law_failures_are_told_by_their_texts(
    error: ConnectionError,
    activity: Activity,
    cause: Seq<char>,
)
    ensures
        activity is TakeStdout ==> failure_text(activity) == "Failed to take stdout"@,
        activity is TakeStdin ==> failure_text(activity) == "Failed to take stdin"@,
        activity is TakeStderr ==> failure_text(activity) == "Failed to take stderr"@,
        activity is AwaitInitialization ==> failure_text(activity) == "SACP connection task died during initialization"@,
        activity is CreateSession ==> failure_text(activity) == "Failed to create ACP session"@,
        activity is LoadSession ==> failure_text(activity) == "Failed to load ACP session"@,
        activity is Prompt ==> failure_text(activity) == "ACP prompt failed"@,
        activity is Cancel ==> failure_text(activity) == "Failed to cancel ACP session"@,
        activity is SerializeModel ==> failure_text(activity) == "Failed to serialize SetSessionModelRequest"@,
        activity is SetModel ==> failure_text(activity) == "Failed to set ACP model"@,
        activity is SetConfigOption ==> failure_text(activity) == "Failed to set ACP session config option"@,
        error.reports(activity, cause) <==> error.context@ == failure_text(activity) && (error.cause
            matches Some(text) && text@ == cause),
{
}

} // verus!
