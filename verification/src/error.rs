//! The closed set of failures of a call and their rendering as one message.

use vstd::prelude::*;
use vstd::string::StringExecFns;

verus! {

/// A failure of the call. Each variant carries the description of what went
/// wrong, as text.
#[derive(Debug)]
pub enum Error {
    /// The host runtime refused an operation.
    Jni(String),
    /// Reading or writing a handle failed.
    Io(String),
    /// The image codec failed.
    Image(String),
    /// The configuration text could not be decoded.
    Json(String),
    /// Anything else; the text is the whole message.
    Unknown(String),
}

impl Error {
    /// The text carried by the error.
    pub open spec fn detail(self) -> Seq<char> {
        match self {
            Error::Jni(s) => s@,
            Error::Io(s) => s@,
            Error::Image(s) => s@,
            Error::Json(s) => s@,
            Error::Unknown(s) => s@,
        }
    }

    /// The prefix that names the error's kind in its message.
    pub open spec fn prefix(self) -> Seq<char> {
        match self {
            Error::Jni(_) => "JNI error: "@,
            Error::Io(_) => "IO error: "@,
            Error::Image(_) => "Image error: "@,
            Error::Json(_) => "JSON error: "@,
            Error::Unknown(_) => Seq::<char>::empty(),
        }
    }

    /// The message of the error: the prefix of its kind, then its text.
    pub open spec fn message_text(self) -> Seq<char> {
        self.prefix() + self.detail()
    }

    /// Renders the error as the one message handed back to the host.
    pub fn message(self) -> (text: String)
        ensures
            text@ == self.message_text(),
    {
        match self {
            Error::Jni(s) => String::from_str("JNI error: ").concat(s.as_str()),
            Error::Io(s) => String::from_str("IO error: ").concat(s.as_str()),
            Error::Image(s) => String::from_str("Image error: ").concat(s.as_str()),
            Error::Json(s) => String::from_str("JSON error: ").concat(s.as_str()),
            Error::Unknown(s) => {
                assert(Seq::<char>::empty() + s@ =~= s@);
                s
            },
        }
    }

    /// An internal failure of the boundary: an error of no kind whose message
    /// is "Internal error: " and the given description.
    pub fn internal(description: &str) -> (error: Error)
        ensures
            error matches Error::Unknown(s) && s@ == "Internal error: "@ + description@,
    {
        Error::Unknown(String::from_str("Internal error: ").concat(description))
    }
}

impl From<String> for Error {
    /// A bare description is an error of no kind.
    fn from(value: String) -> (error: Error) {
        Error::Unknown(value)
    }
}

impl vstd::std_specs::convert::FromSpecImpl<String> for Error {
    open spec fn obeys_from_spec() -> bool {
        true
    }

    open spec fn from_spec(value: String) -> Error {
        Error::Unknown(value)
    }
}

/// What the outcome of a call looks like to the host.
pub open spec fn reply_text(outcome: Result<(), Error>) -> Seq<char> {
    match outcome {
        Ok(()) => Seq::<char>::empty(),
        Err(e) => e.message_text(),
    }
}

/// Collapses the outcome of a call into the one string that crosses the
/// boundary: empty on success, the error's message on failure.
pub fn boundary_reply(outcome: Result<(), Error>) -> (reply: String)
    ensures
        reply@ == reply_text(outcome),
{
    match outcome {
        Ok(()) => String::new(),
        Err(e) => e.message(),
    }
}

/// A failure of a kind that has a prefix never looks like success.
pub proof fn lemma_classified_failure_is_visible(e: Error)
    requires
        !(e is Unknown),
    ensures
        reply_text(Err(e)).len() > 0,
{
    reveal_strlit("JNI error: ");
    reveal_strlit("IO error: ");
    reveal_strlit("Image error: ");
    reveal_strlit("JSON error: ");
}

} // verus!
