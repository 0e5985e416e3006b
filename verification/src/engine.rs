//! The engine selector: which HTTP transport carries the request.

use vstd::prelude::*;

verus! {

/// The closed set of HTTP transports a request can be sent with.
#[derive(Clone, Copy, Debug, PartialEq, Eq, Structural)]
pub enum Engine {
    /// A simple agent that blocks the calling thread until the reply is in.
    Ureq,
    /// A client that can also run without blocking. This is the default.
    Reqw,
}

impl Engine {
    /// The engine of a configuration on which none was selected.
    pub open spec fn standard() -> Engine {
        Engine::Reqw
    }

    /// Whether the transport can issue a request without blocking the
    /// calling thread. Every transport can issue one blocking.
    #[verifier::when_used_as_spec(spec_supports_async)]
    pub fn supports_async(self) -> (b: bool)
        ensures
            b == self.spec_supports_async(),
    {
        match self {
            Engine::Ureq => false,
            Engine::Reqw => true,
        }
    }

    /// Only the non-blocking client can run without blocking.
    pub open spec fn spec_supports_async(self) -> bool {
        self is Reqw
    }
}

impl Default for Engine {
    fn default() -> (e: Engine)
        ensures
            e == Engine::standard(),
    {
        Engine::Reqw
    }
}

} // verus!
