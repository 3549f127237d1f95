//! The failures a Launchpad operation can report.

use vstd::prelude::*;
use vstd::string::StringExecFns;

verus! {

/// Why an operation on the device failed.
#[derive(Debug, PartialEq, Eq)]
pub enum Error {
    /// The MIDI transport failed; the text is the transport's own description.
    Midi(String),
    /// A pad or button coordinate lies outside the grid.
    InvalidLocation,
    /// No port of a connected Launchpad was found.
    NoDevicesFound,
}

impl Error {
    /// The human-readable description of the error.
    pub open spec fn text(&self) -> Seq<char> {
        match self {
            Error::Midi(cause) => "midi error: "@ + cause@,
            Error::InvalidLocation => "invalid location"@,
            Error::NoDevicesFound => "No midi devices found"@,
        }
    }

    /// Renders the error as text.
    pub fn message(&self) -> (rendered: String)
        ensures
            rendered@ == self.text(),
    {
        match self {
            Error::Midi(cause) => String::from_str("midi error: ").concat(cause.as_str()),
            Error::InvalidLocation => String::from_str("invalid location"),
            Error::NoDevicesFound => String::from_str("No midi devices found"),
        }
    }
}

} // verus!
