//! The error type shared by every fallible operation of the crate.

use vstd::prelude::*;

verus! {

/// Declares `std::io::Error` so that it can be carried inside
/// [`NotificationError`]; the value is opaque here.
#[verifier::external_type_specification]
#[verifier::external_body]
pub struct ExIoError(std::io::Error);

/// What went wrong while sending a notification.
#[derive(Debug)]
pub enum NotificationError {
    /// The backend-specific mechanism reported failure.
    SendFailed { backend: String, reason: String },
    /// No usable backend exists for the resolved platform.
    UnsupportedPlatform(String),
    /// The external interpreter process could not be started.
    CommandExecution(std::io::Error),
    /// A catch-all for conversions from generic error sources.
    Other(String),
}

/// Relies on `std::io::Error`'s `Display` implementation for a diagnostic
/// text; nothing is assumed of its content.
#[verifier::external_body]
fn io_error_message(err: &std::io::Error) -> String {
    format!("{}", err)
}

impl NotificationError {
    /// Renders the error in its documented human-readable form. The text of
    /// a [`NotificationError::CommandExecution`] error carries the underlying
    /// input/output error's own message after the fixed prefix.
    pub fn display_string(&self) -> (r: String)
        ensures
            match *self {
                NotificationError::SendFailed { ref backend, ref reason } => r@ == backend@
                    + " notification failed: "@ + reason@,
                NotificationError::UnsupportedPlatform(ref p) => r@ == "Unsupported platform: "@
                    + p@,
                NotificationError::CommandExecution(_) => exists|t: Seq<char>|
                    r@ == "Command execution error: "@ + t,
                NotificationError::Other(ref m) => r@ == m@,
            },
    {
        match self {
            NotificationError::SendFailed { backend, reason } => {
                let mut r = backend.clone();
                r.append(" notification failed: ");
                r.append(reason.as_str());
                r
            },
            NotificationError::UnsupportedPlatform(p) => {
                String::from_str("Unsupported platform: ").concat(p.as_str())
            },
            NotificationError::CommandExecution(e) => {
                let msg = io_error_message(e);
                let r = String::from_str("Command execution error: ").concat(msg.as_str());
                proof {
                    assert(r@ == "Command execution error: "@ + msg@);
                }
                r
            },
            NotificationError::Other(m) => m.clone(),
        }
    }
}

impl From<std::io::Error> for NotificationError {
    /// A failure to run an external command.
    fn from(err: std::io::Error) -> (r: Self) {
        NotificationError::CommandExecution(err)
    }
}

impl vstd::std_specs::convert::FromSpecImpl<std::io::Error> for NotificationError {
    open spec fn obeys_from_spec() -> bool {
        true
    }

    open spec fn from_spec(err: std::io::Error) -> Self {
        NotificationError::CommandExecution(err)
    }
}

impl From<String> for NotificationError {
    /// A generic error message.
    fn from(msg: String) -> (r: Self) {
        NotificationError::Other(msg)
    }
}

impl vstd::std_specs::convert::FromSpecImpl<String> for NotificationError {
    open spec fn obeys_from_spec() -> bool {
        true
    }

    open spec fn from_spec(msg: String) -> Self {
        NotificationError::Other(msg)
    }
}

impl From<&str> for NotificationError {
    /// A generic error message, carried unchanged.
    fn from(msg: &str) -> (r: Self)
        ensures
            r matches NotificationError::Other(m) && m@ == msg@,
    {
        NotificationError::Other(msg.to_owned())
    }
}

impl vstd::std_specs::convert::FromSpecImpl<&str> for NotificationError {
    open spec fn obeys_from_spec() -> bool {
        false
    }

    open spec fn from_spec(msg: &str) -> Self {
        arbitrary()
    }
}

} // verus!
