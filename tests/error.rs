use m0n1t0r_proxy::error::{AuthError, Error, IoError, NetworkError, ParseError};
use m0n1t0r_proxy::session::OpenError;

#[test]
fn discriminants_match_the_table() {
    assert_eq!(Error::Okay.discriminant(), 0);
    assert_eq!(Error::NotFound.discriminant(), -2);
    assert_eq!(Error::Network(NetworkError::Socks5).discriminant(), -13);
    assert_eq!(Error::Auth(AuthError::Forbidden).discriminant(), -14);
    assert_eq!(Error::Unknown.discriminant(), -255);
}

#[test]
fn status_codes_match_the_classes() {
    assert_eq!(Error::Okay.status_code(), 200);
    assert_eq!(Error::Parse(ParseError::WebParameter).status_code(), 400);
    assert_eq!(Error::Parse(ParseError::Serialize).status_code(), 422);
    assert_eq!(Error::Auth(AuthError::Forbidden).status_code(), 403);
    assert_eq!(Error::Io(IoError::Tokio).status_code(), 500);
    assert_eq!(Error::Unimplemented.status_code(), 501);
    assert_eq!(Error::Network(NetworkError::ChannelDisconnect).status_code(), 502);
}

#[test]
fn failed_open_is_classified() {
    assert_eq!(Error::from_open_error(OpenError::Agent).status_code(), 502);
    assert_eq!(Error::from_open_error(OpenError::AgentNotFound), Error::NotFound);
    assert_eq!(Error::from_open_error(OpenError::Bind).status_code(), 500);
}
