use vstd::prelude::*;

verus! {

/// Failure taxonomy of the pipeline.
///
/// `AdmissionRejected` is decided at submission time and never enters the
/// task pipeline; every other kind surfaces to the task's response
/// channel as a failure value.
#[derive(Clone, Copy, PartialEq, Eq, Structural, Debug)]
pub enum Error {
    /// Too many tasks in flight; the submission was not queued.
    AdmissionRejected,
    /// The task payload is not text (image handling is unimplemented).
    UnsupportedPayload,
    /// A stored history entry lacks the `USER:` / `ASSISTANT:` prefix.
    MalformedHistoryEntry,
    /// The backend failed: transport, parse, or an empty choice list.
    ProviderFailure,
    /// The persistent store reported an I/O error.
    StoreFailure,
    /// The task's response channel was dropped before resolution.
    ChannelClosed,
}

impl Error {
    /// A short description of the failure kind.
    pub open spec fn spec_message(self) -> Seq<char> {
        match self {
            Error::AdmissionRejected => "queue is full"@,
            Error::UnsupportedPayload => "unsupported payload"@,
            Error::MalformedHistoryEntry => "malformed history entry"@,
            Error::ProviderFailure => "provider failure"@,
            Error::StoreFailure => "store failure"@,
            Error::ChannelClosed => "response channel closed"@,
        }
    }

    /// Executable counterpart of [`Error::spec_message`].
    pub fn message(&self) -> (r: &'static str)
        ensures
            r@ == self.spec_message(),
    {
        match self {
            Error::AdmissionRejected => "queue is full",
            Error::UnsupportedPayload => "unsupported payload",
            Error::MalformedHistoryEntry => "malformed history entry",
            Error::ProviderFailure => "provider failure",
            Error::StoreFailure => "store failure",
            Error::ChannelClosed => "response channel closed",
        }
    }
}

/// What the transport shows the requester for a task's outcome: the
/// generated text on success, and the one fixed user-visible error
/// string on any failure, whatever its kind.
pub fn user_visible_text(outcome: &Result<String, Error>, error_msg: &str) -> (r: String)
    ensures
        match outcome {
            Ok(text) => r@ == text@,
            Err(_) => r@ == error_msg@,
        },
{
    match outcome {
        Ok(text) => text.clone(),
        Err(_) => error_msg.to_owned(),
    }
}

} // verus!
