use vstd::prelude::*;
use vstd::string::*;

verus! {

/// Every failure the library reports.
///
/// Failures that come from a transport or a decoder outside the library carry
/// the text that the failing component gave.
#[derive(Debug, Clone)]
pub enum Error {
    RequestError(String),
    IoError(String),
    ParseError(String),
    DigestAuthError(String),
    ToStrError,
    SemaphoreError,
    AvalonDeserializerError,
    NoHostDetected,
    UnknownMinerType(String),
    NoMinerDetected,
    EncodingError,
    Timeout,
    ConnectionRefused,
    HttpRequestFailed,
    TokenExpired,
    Unauthorized,
    ApiCallFailed(String),
    ExpectedReturn,
    NotSupported,
    InvalidResponse,
    UnknownModel(String),
}

/// The human-readable rendering of an error.
pub open spec fn error_text(e: Error) -> Seq<char> {
    match e {
        Error::RequestError(s) => "Reqwest error "@ + s@,
        Error::IoError(s) => "Io error "@ + s@,
        Error::ParseError(s) => "Json error "@ + s@,
        Error::DigestAuthError(s) => "Digest auth error "@ + s@,
        Error::ToStrError => "ToStr error"@,
        Error::SemaphoreError => "Failed to acquire semaphore"@,
        Error::AvalonDeserializerError => "Avalon deserializer error"@,
        Error::NoHostDetected => "No host detected"@,
        Error::UnknownMinerType(s) => "Unknown miner type "@ + s@,
        Error::NoMinerDetected => "No miner detected"@,
        Error::EncodingError => "Encode error"@,
        Error::Timeout => "Timeout"@,
        Error::ConnectionRefused => "Connection refused"@,
        Error::HttpRequestFailed => "Failed to execute HTTP request"@,
        Error::TokenExpired => "Token expired"@,
        Error::Unauthorized => "Unauthorized"@,
        Error::ApiCallFailed(s) => "API Call failed: "@ + s@,
        Error::ExpectedReturn => "Expected return"@,
        Error::NotSupported => "Not supported"@,
        Error::InvalidResponse => "Invalid response"@,
        Error::UnknownModel(s) => "Unknown model "@ + s@,
    }
}

fn prefixed(prefix: &str, s: &String) -> (r: String)
    ensures
        r@ == prefix@ + s@,
{
    String::from_str(prefix).concat(s.as_str())
}

fn fixed(text: &str) -> (r: String)
    ensures
        r@ == text@,
{
    String::from_str(text)
}

impl Error {
    /// Renders the error as text.
    pub fn message(&self) -> (r: String)
        ensures
            r@ == error_text(*self),
    {
        match self {
            Error::RequestError(s) => prefixed("Reqwest error ", s),
            Error::IoError(s) => prefixed("Io error ", s),
            Error::ParseError(s) => prefixed("Json error ", s),
            Error::DigestAuthError(s) => prefixed("Digest auth error ", s),
            Error::ToStrError => fixed("ToStr error"),
            Error::SemaphoreError => fixed("Failed to acquire semaphore"),
            Error::AvalonDeserializerError => fixed("Avalon deserializer error"),
            Error::NoHostDetected => fixed("No host detected"),
            Error::UnknownMinerType(s) => prefixed("Unknown miner type ", s),
            Error::NoMinerDetected => fixed("No miner detected"),
            Error::EncodingError => fixed("Encode error"),
            Error::Timeout => fixed("Timeout"),
            Error::ConnectionRefused => fixed("Connection refused"),
            Error::HttpRequestFailed => fixed("Failed to execute HTTP request"),
            Error::TokenExpired => fixed("Token expired"),
            Error::Unauthorized => fixed("Unauthorized"),
            Error::ApiCallFailed(s) => prefixed("API Call failed: ", s),
            Error::ExpectedReturn => fixed("Expected return"),
            Error::NotSupported => fixed("Not supported"),
            Error::InvalidResponse => fixed("Invalid response"),
            Error::UnknownModel(s) => prefixed("Unknown model ", s),
        }
    }
}

} // verus!
