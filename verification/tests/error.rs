use ipify_rs::Error;

#[test]
fn test_error_messages() {
    assert_eq!(
        "You cannot specify both --ipv4 and --ipv6",
        Error::ConfigurationConflict.message()
    );
    assert_eq!(
        "The request could not be sent or the connection failed",
        Error::Network.message()
    );
    assert_eq!(
        "The response body could not be decoded as text",
        Error::Decode.message()
    );
    assert_eq!(
        "The HTTP client could not be constructed",
        Error::TransportBuild.message()
    );
}

#[test]
fn test_error_messages_differ() {
    let all = [
        Error::ConfigurationConflict,
        Error::Network,
        Error::Decode,
        Error::TransportBuild,
    ];
    for a in all {
        for b in all {
            assert_eq!(a == b, a.message() == b.message());
        }
    }
}
