//! The request configuration: an immutable value that gathers the choices made
//! for one lookup.

use vstd::prelude::*;
use vstd::std_specs::cmp::PartialEqSpecImpl;
use crate::endpoint::{endpoint_for, endpoint_of};
use crate::engine::Engine;
use crate::op::Op;

verus! {

/// The mathematical model of a request configuration.
pub struct Config {
    /// The operation that was asked for.
    pub operation: Op,
    /// The URL the request goes to.
    pub endpoint: Seq<char>,
    /// The transport that carries the request.
    pub engine: Engine,
}

impl Config {
    /// The configuration nobody has touched yet.
    pub open spec fn initial() -> Config {
        Config {
            operation: Op::IPv6,
            endpoint: endpoint_of(Op::IPv6),
            engine: Engine::standard(),
        }
    }

    /// The configuration after choosing the operation `op`.
    pub open spec fn set(self, op: Op) -> Config {
        Config { operation: op, endpoint: endpoint_of(op), engine: self.engine }
    }

    /// The configuration after choosing the transport `engine`.
    pub open spec fn with(self, engine: Engine) -> Config {
        Config { operation: self.operation, endpoint: self.endpoint, engine }
    }

    /// The endpoint is the one the table gives for the operation.
    pub open spec fn consistent(self) -> bool {
        self.endpoint == endpoint_of(self.operation)
    }
}

/// A request configuration. Values are never changed in place: `set` and
/// `with` hand back a new one, so a configuration can serve as the template
/// of several lookups.
#[derive(Debug)]
pub struct Ipify {
    t: Op,
    endp: String,
    engine: Engine,
}

impl View for Ipify {
    type V = Config;

    closed spec fn view(&self) -> Config {
        Config { operation: self.t, endpoint: self.endp@, engine: self.engine }
    }
}

impl Ipify {
    /// No configuration exists whose endpoint is not the one of its operation.
    #[verifier::type_invariant]
    spec fn inv(self) -> bool {
        self@.consistent()
    }

    /// The default configuration: IPv6, plain text, default engine.
    pub fn new() -> (c: Ipify)
        ensures
            c@ == Config::initial(),
    {
        Ipify { t: Op::IPv6, endp: endpoint_for(Op::IPv6), engine: Engine::default() }
    }

    /// A configuration for the operation `op`, everything else as in `self`.
    pub fn set(&self, op: Op) -> (c: Ipify)
        ensures
            c@ == self@.set(op),
    {
        Ipify { t: op, endp: endpoint_for(op), engine: self.engine }
    }

    /// A configuration for the transport `engine`, everything else as in `self`.
    pub fn with(&self, engine: Engine) -> (c: Ipify)
        ensures
            c@ == self@.with(engine),
            c@.consistent(),
    {
        proof {
            use_type_invariant(self);
        }
        Ipify { t: self.t, endp: self.endp.clone(), engine }
    }

    /// The operation the configuration asks for.
    pub fn operation(&self) -> (op: Op)
        ensures
            op == self@.operation,
    {
        self.t
    }

    /// The URL the request goes to: always the table's entry for the operation.
    pub fn endpoint(&self) -> (url: &str)
        ensures
            url@ == self@.endpoint,
            url@ == endpoint_of(self@.operation),
    {
        proof {
            use_type_invariant(self);
        }
        self.endp.as_str()
    }

    /// The transport the configuration asks for.
    pub fn engine(&self) -> (engine: Engine)
        ensures
            engine == self@.engine,
    {
        self.engine
    }
}

impl Default for Ipify {
    fn default() -> (c: Ipify)
        ensures
            c@ == Config::initial(),
    {
        Ipify::new()
    }
}

impl Clone for Ipify {
    fn clone(&self) -> (c: Ipify)
        ensures
            c@ == self@,
            c@.consistent(),
    {
        proof {
            use_type_invariant(self);
        }
        Ipify { t: self.t, endp: self.endp.clone(), engine: self.engine }
    }
}

impl PartialEq for Ipify {
    fn eq(&self, other: &Ipify) -> (b: bool) {
        proof {
            use_type_invariant(self);
            use_type_invariant(other);
        }
        // The endpoint follows from the operation, so it needs no look.
        self.t == other.t && self.engine == other.engine
    }
}

impl Eq for Ipify {

}

impl PartialEqSpecImpl for Ipify {
    open spec fn obeys_eq_spec() -> bool {
        true
    }

    /// Two configurations are equal when their models are.
    open spec fn eq_spec(&self, other: &Ipify) -> bool {
        self@ == other@
    }
}

} // verus!
