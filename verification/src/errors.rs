//! Error taxonomy of the service and its mapping to HTTP response parts.
//!
//! An upstream failure surfaces as a bad-gateway response on the synchronous
//! listing endpoints; an overlapping import surfaces as a conflict. The JSON
//! framing of the body is serialization and lives outside the library; the
//! library fixes the status code and the message exactly.

use vstd::prelude::*;

verus! {

/// A failure surfaced to the HTTP caller.
#[derive(Debug)]
pub enum Error {
    /// Any failure contacting or decoding a response from the upstream
    /// access-control API (network error, non-2xx status, malformed body),
    /// carrying the upstream error's rendering.
    ZoraxyApiError(String),
    /// The import guard is busy: a second concurrent import was rejected.
    ImportInProgress,
}

/// The message of the conflict response.
pub open spec fn import_in_progress_message() -> Seq<char> {
    "Import already in progress"@
}

/// The message of the bad-gateway response for an upstream failure.
pub open spec fn zoraxy_api_error_message(detail: Seq<char>) -> Seq<char> {
    "Zoraxy API error: "@ + detail
}

impl Error {
    /// The HTTP status code this error is surfaced with: bad gateway for an
    /// upstream failure, conflict for an overlapping import.
    pub open spec fn status_code(&self) -> u16 {
        match self {
            Error::ZoraxyApiError(_) => 502,
            Error::ImportInProgress => 409,
        }
    }

    /// The error message this error is surfaced with.
    pub open spec fn message_spec(&self) -> Seq<char> {
        match self {
            Error::ZoraxyApiError(detail) => zoraxy_api_error_message(detail@),
            Error::ImportInProgress => import_in_progress_message(),
        }
    }

    /// The response parts for this error: the status code and the message
    /// that the body's `error` field carries.
    pub fn into_response(self) -> (r: (u16, String))
        ensures
            r.0 == self.status_code(),
            r.1@ == self.message_spec(),
    {
        match self {
            Error::ZoraxyApiError(detail) => {
                let mut message = String::from_str("Zoraxy API error: ");
                message.append(detail.as_str());
                (502, message)
            },
            Error::ImportInProgress => (409, String::from_str("Import already in progress")),
        }
    }
}

/// A missing piece of required runtime configuration; fatal at startup.
#[derive(Clone, Copy, Debug, PartialEq, Eq, Structural)]
pub enum ConfigError {
    MissingApiKey,
    MissingZoraxyPort,
}

/// Check the runtime configuration received at startup: both the API
/// credential and the upstream port must be present. The credential is
/// checked first, as startup reports the first missing piece.
pub fn validate_config(api_key: Option<String>, zoraxy_port: Option<u16>) -> (r: Result<
    (String, u16),
    ConfigError,
>)
    ensures
        api_key is None ==> r matches Err(ConfigError::MissingApiKey),
        api_key is Some && zoraxy_port is None ==> r matches Err(ConfigError::MissingZoraxyPort),
        api_key is Some && zoraxy_port is Some ==> (r matches Ok(c) && c.0 == api_key->0 && c.1
            == zoraxy_port->0),
{
    match (api_key, zoraxy_port) {
        (None, _) => Err(ConfigError::MissingApiKey),
        (Some(_), None) => Err(ConfigError::MissingZoraxyPort),
        (Some(key), Some(port)) => Ok((key, port)),
    }
}

} // verus!
