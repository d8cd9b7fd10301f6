//! Failures that an operation on the audio engine can report.

use vstd::prelude::*;
use vstd::string::StringExecFns;

verus! {

/// Why an operation on the audio engine had no effect. Every failure is
/// recoverable: the caller drops the request and carries on.
#[derive(Debug, PartialEq, Eq)]
pub enum BridgeError {
    /// No engine handle has been installed yet.
    HandleAbsent,
    /// The engine rejected the call or raised an error; the text is the
    /// engine's own diagnostic.
    ForeignCallFailed(String),
    /// The engine answered with data that could not be decoded.
    MarshalFailed,
}

impl BridgeError {
    /// The text that `describe` returns.
    pub open spec fn description(self) -> Seq<char> {
        match self {
            BridgeError::HandleAbsent => "audio engine handle not installed"@,
            BridgeError::ForeignCallFailed(diagnostic) => "audio engine call failed: "@
                + diagnostic@,
            BridgeError::MarshalFailed => "audio engine reply could not be decoded"@,
        }
    }

    /// A line for the diagnostic log.
    pub fn describe(&self) -> (text: String)
        ensures
            text@ == self.description(),
    {
        match self {
            BridgeError::HandleAbsent => String::from_str("audio engine handle not installed"),
            BridgeError::ForeignCallFailed(diagnostic) => {
                String::from_str("audio engine call failed: ").concat(diagnostic.as_str())
            },
            BridgeError::MarshalFailed => String::from_str(
                "audio engine reply could not be decoded",
            ),
        }
    }

    /// Whether the failure only means that the engine is not ready yet.
    pub fn is_not_ready(&self) -> (absent: bool)
        ensures
            absent == (*self is HandleAbsent),
    {
        match self {
            BridgeError::HandleAbsent => true,
            _ => false,
        }
    }
}

} // verus!
