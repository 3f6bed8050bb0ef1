//! The error taxonomy of the library.

use vstd::prelude::*;
use vstd::string::StringExecFns;

verus! {

/// What can go wrong when driving a PWM channel.
#[derive(Debug)]
pub enum Error {
    /// An underlying filesystem operation failed; carries the reported
    /// description of the failure.
    Io(String),
    /// An attribute file's text did not parse as the expected value; carries
    /// the raw text for diagnosis.
    Unexpected(String),
    /// Both the caller's work and the subsequent release of the channel
    /// failed; wraps the release failure and the original failure, in that
    /// order, so that neither is lost.
    Compound(Box<Error>, Box<Error>),
}

impl Error {
    /// The rendered description of the error.
    pub open spec fn spec_message(self) -> Seq<char>
        decreases self,
    {
        match self {
            Error::Io(m) => m@,
            Error::Unexpected(s) => "Unexpected: "@ + s@,
            Error::Compound(u, c) => "Failed unexporting due to:\n"@ + u.spec_message()
                + "\nwhile handling:\n"@ + c.spec_message(),
        }
    }

    /// Render the error as text, for display by the caller.
    pub fn message(&self) -> (r: String)
        ensures
            r@ == self.spec_message(),
        decreases *self,
    {
        match self {
            Error::Io(m) => m.clone(),
            Error::Unexpected(s) => {
                let mut r = String::from_str("Unexpected: ");
                r.append(s.as_str());
                r
            },
            Error::Compound(u, c) => {
                let mut r = String::from_str("Failed unexporting due to:\n");
                let um = u.message();
                r.append(um.as_str());
                r.append("\nwhile handling:\n");
                let cm = c.message();
                r.append(cm.as_str());
                proof {
                    assert(r@ =~= self.spec_message());
                }
                r
            },
        }
    }
}

} // verus!
