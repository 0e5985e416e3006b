use ipify_rs::endpoint::{ENDPOINT4, ENDPOINT4J, ENDPOINT6, ENDPOINT6J};
use ipify_rs::{endpoint_for, Op};

#[test]
fn test_endpoint_table() {
    assert_eq!("https://api.ipify.org", endpoint_for(Op::IPv4));
    assert_eq!("https://api64.ipify.org", endpoint_for(Op::IPv6));
    assert_eq!("https://api.ipify.org?format=json", endpoint_for(Op::IPv4J));
    assert_eq!("https://api64.ipify.org?format=json", endpoint_for(Op::IPv6J));
}

#[test]
fn test_endpoint_constants() {
    assert_eq!("https://api.ipify.org", ENDPOINT4);
    assert_eq!("https://api64.ipify.org", ENDPOINT6);
    assert_eq!("https://api.ipify.org?format=json", ENDPOINT4J);
    assert_eq!("https://api64.ipify.org?format=json", ENDPOINT6J);
}

#[test]
fn test_endpoints_are_distinct() {
    let ops = [Op::IPv4, Op::IPv6, Op::IPv4J, Op::IPv6J];
    for a in ops {
        for b in ops {
            assert_eq!(a == b, endpoint_for(a) == endpoint_for(b));
        }
    }
}

#[test]
fn test_endpoint_lookup_is_repeatable() {
    let ops = [Op::IPv4, Op::IPv6, Op::IPv4J, Op::IPv6J];
    for op in ops {
        assert_eq!(endpoint_for(op), endpoint_for(op));
    }
}

#[test]
fn test_json_endpoint_extends_plain_endpoint() {
    assert_eq!(format!("{}?format=json", endpoint_for(Op::IPv4)), endpoint_for(Op::IPv4J));
    assert_eq!(format!("{}?format=json", endpoint_for(Op::IPv6)), endpoint_for(Op::IPv6J));
}
