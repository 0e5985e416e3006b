//! The ways a lookup can fail.

use vstd::prelude::*;

verus! {

/// Why no address came back.
#[derive(Clone, Copy, Debug, PartialEq, Eq, Structural)]
pub enum Error {
    /// Mutually exclusive choices were requested together, such as both
    /// address families.
    ConfigurationConflict,
    /// The transport could not connect, send the request or receive the reply.
    Network,
    /// The reply arrived but its body could not be read as text.
    Decode,
    /// The selected transport could not build a client for the request.
    TransportBuild,
}

impl Error {
    /// The text shown to a person for this error.
    pub open spec fn text(self) -> Seq<char> {
        match self {
            Error::ConfigurationConflict => "You cannot specify both --ipv4 and --ipv6"@,
            Error::Network => "The request could not be sent or the connection failed"@,
            Error::Decode => "The response body could not be decoded as text"@,
            Error::TransportBuild => "The HTTP client could not be constructed"@,
        }
    }

    /// A description of the error for display.
    pub fn message(&self) -> (m: &'static str)
        ensures
            m@ == self.text(),
    {
        match self {
            Error::ConfigurationConflict => "You cannot specify both --ipv4 and --ipv6",
            Error::Network => "The request could not be sent or the connection failed",
            Error::Decode => "The response body could not be decoded as text",
            Error::TransportBuild => "The HTTP client could not be constructed",
        }
    }
}

} // verus!
