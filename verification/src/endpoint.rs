//! The endpoint table: one fixed URL for each operation.

use vstd::prelude::*;
use crate::op::Op;

verus! {

/// IPv4 endpoint, plain text.
pub const ENDPOINT4: &'static str = "https://api.ipify.org";

/// IPv6 endpoint, plain text.
pub const ENDPOINT6: &'static str = "https://api64.ipify.org";

/// IPv4 endpoint, JSON.
pub const ENDPOINT4J: &'static str = "https://api.ipify.org?format=json";

/// IPv6 endpoint, JSON.
pub const ENDPOINT6J: &'static str = "https://api64.ipify.org?format=json";

/// The table itself: the URL that answers `op`.
pub open spec fn endpoint_of(op: Op) -> Seq<char> {
    match op {
        Op::IPv4 => ENDPOINT4@,
        Op::IPv6 => ENDPOINT6@,
        Op::IPv4J => ENDPOINT4J@,
        Op::IPv6J => ENDPOINT6J@,
    }
}

/// Looks `op` up in the endpoint table.
pub fn endpoint_for(op: Op) -> (url: String)
    ensures
        url@ == endpoint_of(op),
{
    match op {
        Op::IPv4 => ENDPOINT4.to_owned(),
        Op::IPv6 => ENDPOINT6.to_owned(),
        Op::IPv4J => ENDPOINT4J.to_owned(),
        Op::IPv6J => ENDPOINT6J.to_owned(),
    }
}

/// No two operations share an endpoint: the table has exactly one URL for
/// each of them.
pub proof fn lemma_endpoints_distinct(a: Op, b: Op)
    ensures
        endpoint_of(a) == endpoint_of(b) <==> a == b,
{
    reveal_strlit("https://api.ipify.org");
    reveal_strlit("https://api64.ipify.org");
    reveal_strlit("https://api.ipify.org?format=json");
    reveal_strlit("https://api64.ipify.org?format=json");
    // The four URLs differ in length.
    assert(endpoint_of(Op::IPv4).len() == 21);
    assert(endpoint_of(Op::IPv6).len() == 23);
    assert(endpoint_of(Op::IPv4J).len() == 33);
    assert(endpoint_of(Op::IPv6J).len() == 35);
}

/// Every endpoint is reached over HTTPS.
pub proof fn lemma_endpoint_is_https(op: Op)
    ensures
        "https://"@.is_prefix_of(endpoint_of(op)),
{
    reveal_strlit("https://");
    reveal_strlit("https://api.ipify.org");
    reveal_strlit("https://api64.ipify.org");
    reveal_strlit("https://api.ipify.org?format=json");
    reveal_strlit("https://api64.ipify.org?format=json");
    assert("https://"@ =~= endpoint_of(op).subrange(0, 8));
}

/// The reply format is chosen by the query alone: the JSON endpoint of an
/// address family is its plain-text endpoint followed by `?format=json`.
pub proof fn lemma_json_endpoint_extends_plain()
    ensures
        endpoint_of(Op::IPv4J) == endpoint_of(Op::IPv4) + "?format=json"@,
        endpoint_of(Op::IPv6J) == endpoint_of(Op::IPv6) + "?format=json"@,
{
    reveal_strlit("?format=json");
    reveal_strlit("https://api.ipify.org");
    reveal_strlit("https://api64.ipify.org");
    reveal_strlit("https://api.ipify.org?format=json");
    reveal_strlit("https://api64.ipify.org?format=json");
    assert(endpoint_of(Op::IPv4J) =~= endpoint_of(Op::IPv4) + "?format=json"@);
    assert(endpoint_of(Op::IPv6J) =~= endpoint_of(Op::IPv6) + "?format=json"@);
}

} // verus!
