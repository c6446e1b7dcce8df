use vstd::prelude::*;

use crate::session::OpenError;

verus! {

/// Failures reaching an agent.
#[derive(Clone, Copy, Debug, PartialEq, Eq, Structural)]
pub enum NetworkError {
    /// A remote call to the agent failed.
    Rpc,
    /// A channel to the agent disconnected.
    ChannelDisconnect,
    /// The SOCKS5 exchange with a client failed.
    Socks5,
}

#[derive(Clone, Copy, Debug, PartialEq, Eq, Structural)]
pub enum IoError {
    /// Local I/O failed: a bind, a dial, a read or a write.
    Tokio,
}

#[derive(Clone, Copy, Debug, PartialEq, Eq, Structural)]
pub enum ParseError {
    Serialize,
    Command,
    IpAddress,
    IntValue,
    WebParameter,
}

#[derive(Clone, Copy, Debug, PartialEq, Eq, Structural)]
pub enum AuthError {
    Unauthorized,
    Forbidden,
}

#[derive(Clone, Copy, Debug, PartialEq, Eq, Structural)]
pub enum MediaError {
    FFmpeg,
}

#[derive(Clone, Copy, Debug, PartialEq, Eq, Structural)]
pub enum FrameworkError {
    Actix,
}

#[derive(Clone, Copy, Debug, PartialEq, Eq, Structural)]
pub enum ExternalError {
    QQKey,
}

/// The classes of failure that the operator-facing layer reports.
#[derive(Clone, Copy, Debug, PartialEq, Eq, Structural)]
pub enum Error {
    Network(NetworkError),
    Io(IoError),
    Parse(ParseError),
    Auth(AuthError),
    Media(MediaError),
    Framework(FrameworkError),
    External(ExternalError),
    Okay,
    NotFound,
    Unimplemented,
    Generic,
    Unknown,
}

/// The numeric code of each class, as reported in responses.
pub open spec fn spec_discriminant(e: Error) -> int {
    match e {
        Error::Okay => 0,
        Error::Parse(ParseError::Serialize) => -1,
        Error::NotFound => -2,
        Error::Network(NetworkError::Rpc) => -3,
        Error::Framework(FrameworkError::Actix) => -4,
        Error::Network(NetworkError::ChannelDisconnect) => -5,
        Error::Parse(ParseError::Command) => -6,
        Error::Io(IoError::Tokio) => -7,
        Error::Parse(ParseError::IpAddress) => -8,
        Error::Parse(ParseError::WebParameter) => -9,
        Error::Parse(ParseError::IntValue) => -10,
        Error::External(ExternalError::QQKey) => -11,
        Error::Network(NetworkError::Socks5) => -13,
        Error::Auth(AuthError::Forbidden) => -14,
        Error::Auth(AuthError::Unauthorized) => -15,
        Error::Generic => -16,
        Error::Unimplemented => -17,
        Error::Media(MediaError::FFmpeg) => -19,
        Error::Unknown => -255,
    }
}

/// The HTTP status of each class: bad input 400, 401, forbidden 403, 404,
/// unserialisable response 422, server-side failures 500, 501, and failures
/// of the agent upstream 502.
pub open spec fn spec_status_code(e: Error) -> u16 {
    match e {
        Error::Okay => 200,
        Error::Parse(ParseError::WebParameter) | Error::Parse(ParseError::Command) | Error::Parse(
            ParseError::IntValue,
        ) | Error::Parse(ParseError::IpAddress) => 400,
        Error::Auth(AuthError::Unauthorized) => 401,
        Error::Auth(AuthError::Forbidden) => 403,
        Error::NotFound => 404,
        Error::Parse(ParseError::Serialize) => 422,
        Error::Io(IoError::Tokio) | Error::Framework(FrameworkError::Actix) | Error::Media(
            MediaError::FFmpeg,
        ) | Error::External(ExternalError::QQKey) | Error::Generic | Error::Unknown => 500,
        Error::Unimplemented => 501,
        Error::Network(_) => 502,
    }
}

/// The class under which a failed open is reported.
pub open spec fn spec_from_open_error(e: OpenError) -> Error {
    match e {
        OpenError::AgentNotFound => Error::NotFound,
        OpenError::Agent => Error::Network(NetworkError::Rpc),
        OpenError::Bind => Error::Io(IoError::Tokio),
        OpenError::RegistryFull => Error::Generic,
    }
}

impl Error {
    pub fn discriminant(&self) -> (r: i16)
        ensures
            r as int == spec_discriminant(*self),
    {
        match self {
            Error::Okay => 0,
            Error::Parse(ParseError::Serialize) => -1,
            Error::NotFound => -2,
            Error::Network(NetworkError::Rpc) => -3,
            Error::Framework(FrameworkError::Actix) => -4,
            Error::Network(NetworkError::ChannelDisconnect) => -5,
            Error::Parse(ParseError::Command) => -6,
            Error::Io(IoError::Tokio) => -7,
            Error::Parse(ParseError::IpAddress) => -8,
            Error::Parse(ParseError::WebParameter) => -9,
            Error::Parse(ParseError::IntValue) => -10,
            Error::External(ExternalError::QQKey) => -11,
            Error::Network(NetworkError::Socks5) => -13,
            Error::Auth(AuthError::Forbidden) => -14,
            Error::Auth(AuthError::Unauthorized) => -15,
            Error::Generic => -16,
            Error::Unimplemented => -17,
            Error::Media(MediaError::FFmpeg) => -19,
            Error::Unknown => -255,
        }
    }

    pub fn status_code(&self) -> (r: u16)
        ensures
            r == spec_status_code(*self),
    {
        match self {
            Error::Okay => 200,
            Error::Parse(ParseError::WebParameter)
            | Error::Parse(ParseError::Command)
            | Error::Parse(ParseError::IntValue)
            | Error::Parse(ParseError::IpAddress) => 400,
            Error::Auth(AuthError::Unauthorized) => 401,
            Error::Auth(AuthError::Forbidden) => 403,
            Error::NotFound => 404,
            Error::Parse(ParseError::Serialize) => 422,
            Error::Io(IoError::Tokio)
            | Error::Framework(FrameworkError::Actix)
            | Error::Media(MediaError::FFmpeg)
            | Error::External(ExternalError::QQKey)
            | Error::Generic
            | Error::Unknown => 500,
            Error::Unimplemented => 501,
            Error::Network(_) => 502,
        }
    }

    pub fn from_open_error(e: OpenError) -> (r: Error)
        ensures
            r == spec_from_open_error(e),
    {
        match e {
            OpenError::AgentNotFound => Error::NotFound,
            OpenError::Agent => Error::Network(NetworkError::Rpc),
            OpenError::Bind => Error::Io(IoError::Tokio),
            OpenError::RegistryFull => Error::Generic,
        }
    }
}

/// Distinct classes carry distinct codes.
pub proof fn lemma_discriminant_injective(a: Error, b: Error)
    requires
        spec_discriminant(a) == spec_discriminant(b),
    ensures
        a == b,
{
}

} // verus!
