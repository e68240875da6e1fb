//! The vocabularies that failures are translated into, and the capability of
//! being translated.

use vstd::prelude::*;

verus! {

/// A failure that has exactly one counterpart in the vocabulary `T`.
///
/// The counterpart is a function of the failure alone: `switch` returns
/// `switched` of its receiver, whenever and however often it is called.
pub trait ErrorSwitch<T> {
    /// The counterpart of this failure in `T`.
    spec fn switched(&self) -> T;

    /// Translates this failure into `T`.
    fn switch(&self) -> (target: T)
        ensures
            target == self.switched(),
    ;
}

/// The coarse classification that the public interface reports for a failed
/// request.
#[derive(Debug, Clone, Copy, PartialEq, Eq, Structural)]
pub enum ApiErrorResponse {
    /// An incoming webhook could not be shown to come from its claimed source.
    WebhookAuthenticationFailed,
    /// An incoming webhook was malformed.
    WebhookBadRequest,
    /// An incoming webhook was well formed but names no known event.
    WebhookUnprocessableEntity,
    /// The merchant's secret for verifying webhooks is unusable.
    WebhookInvalidMerchantSecret,
    /// Anything that is not the caller's doing.
    InternalServerError,
}

/// What the generic client layer reports for a failed attempt to reach a
/// connector. Each transport failure has its own variant here.
#[derive(Debug, Clone, PartialEq, Eq)]
pub enum ApiClientError {
    HeaderMapConstructionFailed,
    InvalidProxyConfiguration,
    ClientConstructionFailed,
    CertificateDecodeFailed,
    BodySerializationFailed,
    UnexpectedState,
    UrlParsingFailed,
    UrlEncodingFailed,
    /// The request never left for the named connector.
    RequestNotSent(String),
    ResponseDecodingFailed,
    RequestTimeoutReceived,
    ConnectionClosedIncompleteMessage,
    InternalServerErrorReceived,
    BadGatewayReceived,
    ServiceUnavailableReceived,
    GatewayTimeoutReceived,
    UnexpectedServerResponse,
}

/// Why a shared parsing helper could not produce a value.
#[derive(Debug, Clone, PartialEq, Eq)]
pub enum ParsingError {
    /// An enum could not be read from its textual form.
    EnumParseFailure(&'static str),
    /// A structure could not be read from its serialized form.
    StructParseFailure(&'static str),
    /// A value could not be written in the requested encoding.
    EncodeError(&'static str),
    /// A date or time did not have the expected format.
    DateTimeParsingError,
    /// A number did not fit the integer type asked for.
    IntegerOverflow,
    /// A failure of which nothing more is known.
    UnknownError,
}

} // verus!
