//! The operation selector: which address family to ask for, and in which format.

use vstd::prelude::*;
use crate::error::Error;

verus! {

/// The closed set of operations the service offers. Address family and reply
/// format are two independent choices, held together in one value.
#[derive(Clone, Copy, Debug, PartialEq, Eq, Structural)]
pub enum Op {
    /// IPv4 address, plain text.
    IPv4,
    /// IPv6 address, plain text (the default).
    IPv6,
    /// IPv4 address, JSON.
    IPv4J,
    /// IPv6 address, JSON.
    IPv6J,
}

impl Op {
    /// Whether the operation asks for an IPv4 address.
    pub open spec fn is_ipv4(self) -> bool {
        self is IPv4 || self is IPv4J
    }

    /// Whether the operation asks for a JSON reply.
    pub open spec fn is_json(self) -> bool {
        self is IPv4J || self is IPv6J
    }

    /// The operation picked by the three switches of a command line, when they
    /// can be honoured together.
    pub open spec fn selection(ipv4: bool, ipv6: bool, json: bool) -> Result<Op, Error> {
        if ipv4 && ipv6 {
            Err(Error::ConfigurationConflict)
        } else if ipv4 {
            Ok(if json { Op::IPv4J } else { Op::IPv4 })
        } else {
            Ok(if json { Op::IPv6J } else { Op::IPv6 })
        }
    }

    /// The same address family, with a JSON reply.
    pub fn json(self) -> (op: Op)
        ensures
            op.is_json(),
            op.is_ipv4() == self.is_ipv4(),
    {
        match self {
            Op::IPv4 | Op::IPv4J => Op::IPv4J,
            Op::IPv6 | Op::IPv6J => Op::IPv6J,
        }
    }

    /// Turns the switches of a command line into one operation. IPv6 is the
    /// default family, so `ipv6` only matters when `ipv4` is set too: forcing
    /// both families is a conflict.
    pub fn select(ipv4: bool, ipv6: bool, json: bool) -> (r: Result<Op, Error>)
        ensures
            r == Op::selection(ipv4, ipv6, json),
    {
        if ipv4 && ipv6 {
            return Err(Error::ConfigurationConflict);
        }
        let family = if ipv4 { Op::IPv4 } else { Op::IPv6 };
        if json {
            Ok(family.json())
        } else {
            Ok(family)
        }
    }
}

} // verus!
