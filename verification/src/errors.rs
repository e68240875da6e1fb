//! Failures of connector integrations and of the transport beneath them, with
//! their translations towards the public interface.

use crate::outcome::{ApiClientError, ApiErrorResponse, ErrorSwitch, ParsingError};
use crate::render::{
    bytes_content, bytes_debug_text, debug_bytes, debug_names, json_string, json_string_value,
    name_list_debug_text,
};
use crate::storage::DatabaseError;
use vstd::prelude::*;
use vstd::string::StringExecFns;

verus! {

/// Why an exchange with a connector failed, as the integration saw it.
///
/// Each variant carries just what its message needs, or what a caller may
/// want to branch on.
#[derive(Debug, PartialEq)]
pub enum ConnectorError {
    FailedToObtainIntegrationUrl,
    RequestEncodingFailed,
    RequestEncodingFailedWithReason(String),
    ParsingFailed,
    ResponseDeserializationFailed,
    /// A processing step failed; the raw response body, where one was read.
    ProcessingStepFailed(Option<bytes::Bytes>),
    /// The connector answered with a body that could not be used.
    UnexpectedResponseError(bytes::Bytes),
    RoutingRulesParsingError,
    FailedToObtainPreferredConnector,
    InvalidConnectorName,
    InvalidWallet,
    ResponseHandlingFailed,
    MissingRequiredField { field_name: &'static str },
    MissingRequiredFields { field_names: Vec<&'static str> },
    FailedToObtainAuthType,
    FailedToObtainCertificate,
    NoConnectorMetaData,
    NoConnectorWalletDetails,
    FailedToObtainCertificateKey,
    /// A known gap: the named step does not exist yet.
    NotImplemented(String),
    /// A known gap: the connector cannot do what was asked.
    NotSupported { message: String, connector: &'static str },
    FlowNotSupported { flow: String, connector: String },
    CaptureMethodNotSupported,
    MissingConnectorMandateID,
    MissingConnectorMandateMetadata,
    MissingConnectorTransactionID,
    MissingConnectorRefundID,
    MissingApplePayTokenData,
    WebhooksNotImplemented,
    WebhookBodyDecodingFailed,
    WebhookSignatureNotFound,
    WebhookSourceVerificationFailed,
    WebhookVerificationSecretNotFound,
    WebhookVerificationSecretInvalid,
    WebhookReferenceIdNotFound,
    WebhookEventTypeNotFound,
    WebhookResourceObjectNotFound,
    WebhookResponseEncodingFailed,
    InvalidDateFormat,
    DateFormattingFailed,
    InvalidDataFormat { field_name: &'static str },
    MismatchedPaymentData,
    InvalidWalletToken { wallet_name: String },
    MissingConnectorRelatedTransactionID { id: String },
    FileValidationFailed { reason: String },
    MissingConnectorRedirectionPayload { field_name: &'static str },
    FailedAtConnector { message: String, code: String },
    MissingPaymentMethodType,
    InSufficientBalanceInPaymentMethod,
    /// The connector answered that the request timed out.
    RequestTimeoutReceived,
    CurrencyNotSupported { message: String, connector: &'static str },
    InvalidConnectorConfig { config: &'static str },
    AmountConversionFailed,
    /// Anything that fits no named category, with a structured payload.
    GenericError { error_message: String, error_object: serde_json::Value },
    MandatePaymentDataMismatch { fields: String },
}

/// How an optional response body is shown in a message: `None`, or the
/// body's own rendering inside `Some(` and `)`.
pub open spec fn optional_body_debug_text(body: Option<bytes::Bytes>) -> Seq<char> {
    match body {
        Some(bytes) => "Some("@ + bytes_debug_text(bytes_content(bytes)) + ")"@,
        None => "None"@,
    }
}

fn debug_optional_body(body: &Option<bytes::Bytes>) -> (text: String)
    ensures
        text@ == optional_body_debug_text(*body),
{
    match body {
        Some(bytes) => String::from_str("Some(").concat(debug_bytes(bytes).as_str()).concat(")"),
        None => String::from_str("None"),
    }
}

/// Whether a failure says that an incoming webhook request was itself at
/// fault: unauthenticated, malformed, or unusable as sent. These are the
/// failures that the public interface tells apart.
pub open spec fn is_webhook_request_fault(failure: ConnectorError) -> bool {
    ||| failure is WebhookSourceVerificationFailed
    ||| failure is WebhookSignatureNotFound
    ||| failure is WebhookReferenceIdNotFound
    ||| failure is WebhookResourceObjectNotFound
    ||| failure is WebhookBodyDecodingFailed
    ||| failure is WebhooksNotImplemented
    ||| failure is WebhookEventTypeNotFound
    ||| failure is WebhookVerificationSecretInvalid
}

/// The outcome that the public interface reports for a connector failure.
///
/// The rules are tried from the top and the first that fits decides; a
/// failure that none of them names is an internal error.
pub open spec fn public_outcome(failure: ConnectorError) -> ApiErrorResponse {
    match failure {
        ConnectorError::WebhookSourceVerificationFailed => {
            ApiErrorResponse::WebhookAuthenticationFailed
        },
        ConnectorError::WebhookSignatureNotFound
        | ConnectorError::WebhookReferenceIdNotFound
        | ConnectorError::WebhookResourceObjectNotFound
        | ConnectorError::WebhookBodyDecodingFailed
        | ConnectorError::WebhooksNotImplemented => ApiErrorResponse::WebhookBadRequest,
        ConnectorError::WebhookEventTypeNotFound => ApiErrorResponse::WebhookUnprocessableEntity,
        ConnectorError::WebhookVerificationSecretInvalid => {
            ApiErrorResponse::WebhookInvalidMerchantSecret
        },
        _ => ApiErrorResponse::InternalServerError,
    }
}

impl ConnectorError {
    /// The text that `message` renders: one fixed template for each variant,
    /// with the carried fields put in.
    pub open spec fn message_text(self) -> Seq<char> {
        match self {
            ConnectorError::FailedToObtainIntegrationUrl => {
                "Error while obtaining URL for the integration"@
            },
            ConnectorError::RequestEncodingFailed => "Failed to encode connector request"@,
            ConnectorError::RequestEncodingFailedWithReason(reason) => {
                "Request encoding failed : "@ + reason@
            },
            ConnectorError::ParsingFailed => "Parsing failed"@,
            ConnectorError::ResponseDeserializationFailed => {
                "Failed to deserialize connector response"@
            },
            ConnectorError::ProcessingStepFailed(body) => {
                "Failed to execute a processing step: "@ + optional_body_debug_text(body)
            },
            ConnectorError::UnexpectedResponseError(body) => {
                "The connector returned an unexpected response: "@
                    + bytes_debug_text(bytes_content(body))
            },
            ConnectorError::RoutingRulesParsingError => {
                "Failed to parse custom routing rules from merchant account"@
            },
            ConnectorError::FailedToObtainPreferredConnector => {
                "Failed to obtain preferred connector from merchant account"@
            },
            ConnectorError::InvalidConnectorName => "An invalid connector name was provided"@,
            ConnectorError::InvalidWallet => "An invalid Wallet was used"@,
            ConnectorError::ResponseHandlingFailed => "Failed to handle connector response"@,
            ConnectorError::MissingRequiredField { field_name } => {
                "Missing required field: "@ + field_name@
            },
            ConnectorError::MissingRequiredFields { field_names } => {
                "Missing required fields: "@
                    + name_list_debug_text(field_names@.map_values(|name: &'static str| name@))
            },
            ConnectorError::FailedToObtainAuthType => "Failed to obtain authentication type"@,
            ConnectorError::FailedToObtainCertificate => "Failed to obtain certificate"@,
            ConnectorError::NoConnectorMetaData => "Connector meta data not found"@,
            ConnectorError::NoConnectorWalletDetails => "Connector wallet details not found"@,
            ConnectorError::FailedToObtainCertificateKey => "Failed to obtain certificate key"@,
            ConnectorError::NotImplemented(step) => {
                "This step has not been implemented for: "@ + step@
            },
            ConnectorError::NotSupported { message, connector } => {
                message@ + " is not supported by "@ + connector@
            },
            ConnectorError::FlowNotSupported { flow, connector } => {
                flow@ + " flow not supported by "@ + connector@ + " connector"@
            },
            ConnectorError::CaptureMethodNotSupported => "Capture method not supported"@,
            ConnectorError::MissingConnectorMandateID => "Missing connector mandate ID"@,
            ConnectorError::MissingConnectorMandateMetadata => {
                "Missing connector mandate metadata"@
            },
            ConnectorError::MissingConnectorTransactionID => "Missing connector transaction ID"@,
            ConnectorError::MissingConnectorRefundID => "Missing connector refund ID"@,
            ConnectorError::MissingApplePayTokenData => "Missing apple pay tokenization data"@,
            ConnectorError::WebhooksNotImplemented => {
                "Webhooks not implemented for this connector"@
            },
            ConnectorError::WebhookBodyDecodingFailed => "Failed to decode webhook event body"@,
            ConnectorError::WebhookSignatureNotFound => "Signature not found for incoming webhook"@,
            ConnectorError::WebhookSourceVerificationFailed => "Failed to verify webhook source"@,
            ConnectorError::WebhookVerificationSecretNotFound => {
                "Could not find merchant secret in DB for incoming webhook source verification"@
            },
            ConnectorError::WebhookVerificationSecretInvalid => {
                "Merchant secret found for incoming webhook source verification is invalid"@
            },
            ConnectorError::WebhookReferenceIdNotFound => {
                "Incoming webhook object reference ID not found"@
            },
            ConnectorError::WebhookEventTypeNotFound => "Incoming webhook event type not found"@,
            ConnectorError::WebhookResourceObjectNotFound => {
                "Incoming webhook event resource object not found"@
            },
            ConnectorError::WebhookResponseEncodingFailed => {
                "Could not respond to the incoming webhook event"@
            },
            ConnectorError::InvalidDateFormat => "Invalid Date/time format"@,
            ConnectorError::DateFormattingFailed => "Date Formatting Failed"@,
            ConnectorError::InvalidDataFormat { .. } => "Invalid Data format"@,
            ConnectorError::MismatchedPaymentData => {
                "Payment Method data / Payment Method Type / Payment Experience Mismatch "@
            },
            ConnectorError::InvalidWalletToken { wallet_name } => {
                "Failed to parse "@ + wallet_name@ + " wallet token"@
            },
            ConnectorError::MissingConnectorRelatedTransactionID { .. } => {
                "Missing Connector Related Transaction ID"@
            },
            ConnectorError::FileValidationFailed { .. } => "File Validation failed"@,
            ConnectorError::MissingConnectorRedirectionPayload { field_name } => {
                "Missing 3DS redirection payload: "@ + field_name@
            },
            ConnectorError::FailedAtConnector { code, .. } => {
                "Failed at connector's end with code '"@ + code@ + "'"@
            },
            ConnectorError::MissingPaymentMethodType => "Payment Method Type not found"@,
            ConnectorError::InSufficientBalanceInPaymentMethod => {
                "Balance in the payment method is low"@
            },
            ConnectorError::RequestTimeoutReceived => "Server responded with Request Timeout"@,
            ConnectorError::CurrencyNotSupported { .. } => {
                "The given currency method is not configured with the given connector"@
            },
            ConnectorError::InvalidConnectorConfig { .. } => "Invalid Configuration"@,
            ConnectorError::AmountConversionFailed => "Failed to convert amount to required type"@,
            ConnectorError::GenericError { .. } => "Generic Error"@,
            ConnectorError::MandatePaymentDataMismatch { fields } => {
                "Field "@ + fields@ + " doesn't match with the ones used during mandate creation"@
            },
        }
    }

    /// Renders the failure for a log line.
    pub fn message(&self) -> (text: String)
        ensures
            text@ == self.message_text(),
    {
        match self {
            ConnectorError::FailedToObtainIntegrationUrl => {
                String::from_str("Error while obtaining URL for the integration")
            },
            ConnectorError::RequestEncodingFailed => {
                String::from_str("Failed to encode connector request")
            },
            ConnectorError::RequestEncodingFailedWithReason(reason) => {
                String::from_str("Request encoding failed : ").concat(reason.as_str())
            },
            ConnectorError::ParsingFailed => String::from_str("Parsing failed"),
            ConnectorError::ResponseDeserializationFailed => {
                String::from_str("Failed to deserialize connector response")
            },
            ConnectorError::ProcessingStepFailed(body) => {
                String::from_str("Failed to execute a processing step: ")
                    .concat(debug_optional_body(body).as_str())
            },
            ConnectorError::UnexpectedResponseError(body) => {
                String::from_str("The connector returned an unexpected response: ")
                    .concat(debug_bytes(body).as_str())
            },
            ConnectorError::RoutingRulesParsingError => {
                String::from_str("Failed to parse custom routing rules from merchant account")
            },
            ConnectorError::FailedToObtainPreferredConnector => {
                String::from_str("Failed to obtain preferred connector from merchant account")
            },
            ConnectorError::InvalidConnectorName => {
                String::from_str("An invalid connector name was provided")
            },
            ConnectorError::InvalidWallet => String::from_str("An invalid Wallet was used"),
            ConnectorError::ResponseHandlingFailed => {
                String::from_str("Failed to handle connector response")
            },
            ConnectorError::MissingRequiredField { field_name } => {
                String::from_str("Missing required field: ").concat(*field_name)
            },
            ConnectorError::MissingRequiredFields { field_names } => {
                String::from_str("Missing required fields: ")
                    .concat(debug_names(field_names).as_str())
            },
            ConnectorError::FailedToObtainAuthType => {
                String::from_str("Failed to obtain authentication type")
            },
            ConnectorError::FailedToObtainCertificate => {
                String::from_str("Failed to obtain certificate")
            },
            ConnectorError::NoConnectorMetaData => {
                String::from_str("Connector meta data not found")
            },
            ConnectorError::NoConnectorWalletDetails => {
                String::from_str("Connector wallet details not found")
            },
            ConnectorError::FailedToObtainCertificateKey => {
                String::from_str("Failed to obtain certificate key")
            },
            ConnectorError::NotImplemented(step) => {
                String::from_str("This step has not been implemented for: ").concat(step.as_str())
            },
            ConnectorError::NotSupported { message, connector } => {
                String::from_str(message.as_str())
                    .concat(" is not supported by ")
                    .concat(*connector)
            },
            ConnectorError::FlowNotSupported { flow, connector } => {
                String::from_str(flow.as_str())
                    .concat(" flow not supported by ")
                    .concat(connector.as_str())
                    .concat(" connector")
            },
            ConnectorError::CaptureMethodNotSupported => {
                String::from_str("Capture method not supported")
            },
            ConnectorError::MissingConnectorMandateID => {
                String::from_str("Missing connector mandate ID")
            },
            ConnectorError::MissingConnectorMandateMetadata => {
                String::from_str("Missing connector mandate metadata")
            },
            ConnectorError::MissingConnectorTransactionID => {
                String::from_str("Missing connector transaction ID")
            },
            ConnectorError::MissingConnectorRefundID => {
                String::from_str("Missing connector refund ID")
            },
            ConnectorError::MissingApplePayTokenData => {
                String::from_str("Missing apple pay tokenization data")
            },
            ConnectorError::WebhooksNotImplemented => {
                String::from_str("Webhooks not implemented for this connector")
            },
            ConnectorError::WebhookBodyDecodingFailed => {
                String::from_str("Failed to decode webhook event body")
            },
            ConnectorError::WebhookSignatureNotFound => {
                String::from_str("Signature not found for incoming webhook")
            },
            ConnectorError::WebhookSourceVerificationFailed => {
                String::from_str("Failed to verify webhook source")
            },
            ConnectorError::WebhookVerificationSecretNotFound => {
                String::from_str(
                    "Could not find merchant secret in DB for incoming webhook source verification",
                )
            },
            ConnectorError::WebhookVerificationSecretInvalid => {
                String::from_str(
                    "Merchant secret found for incoming webhook source verification is invalid",
                )
            },
            ConnectorError::WebhookReferenceIdNotFound => {
                String::from_str("Incoming webhook object reference ID not found")
            },
            ConnectorError::WebhookEventTypeNotFound => {
                String::from_str("Incoming webhook event type not found")
            },
            ConnectorError::WebhookResourceObjectNotFound => {
                String::from_str("Incoming webhook event resource object not found")
            },
            ConnectorError::WebhookResponseEncodingFailed => {
                String::from_str("Could not respond to the incoming webhook event")
            },
            ConnectorError::InvalidDateFormat => String::from_str("Invalid Date/time format"),
            ConnectorError::DateFormattingFailed => String::from_str("Date Formatting Failed"),
            ConnectorError::InvalidDataFormat { .. } => String::from_str("Invalid Data format"),
            ConnectorError::MismatchedPaymentData => {
                String::from_str(
                    "Payment Method data / Payment Method Type / Payment Experience Mismatch ",
                )
            },
            ConnectorError::InvalidWalletToken { wallet_name } => {
                String::from_str("Failed to parse ")
                    .concat(wallet_name.as_str())
                    .concat(" wallet token")
            },
            ConnectorError::MissingConnectorRelatedTransactionID { .. } => {
                String::from_str("Missing Connector Related Transaction ID")
            },
            ConnectorError::FileValidationFailed { .. } => {
                String::from_str("File Validation failed")
            },
            ConnectorError::MissingConnectorRedirectionPayload { field_name } => {
                String::from_str("Missing 3DS redirection payload: ").concat(*field_name)
            },
            ConnectorError::FailedAtConnector { code, .. } => {
                String::from_str("Failed at connector's end with code '")
                    .concat(code.as_str())
                    .concat("'")
            },
            ConnectorError::MissingPaymentMethodType => {
                String::from_str("Payment Method Type not found")
            },
            ConnectorError::InSufficientBalanceInPaymentMethod => {
                String::from_str("Balance in the payment method is low")
            },
            ConnectorError::RequestTimeoutReceived => {
                String::from_str("Server responded with Request Timeout")
            },
            ConnectorError::CurrencyNotSupported { .. } => {
                String::from_str(
                    "The given currency method is not configured with the given connector",
                )
            },
            ConnectorError::InvalidConnectorConfig { .. } => {
                String::from_str("Invalid Configuration")
            },
            ConnectorError::AmountConversionFailed => {
                String::from_str("Failed to convert amount to required type")
            },
            ConnectorError::GenericError { .. } => String::from_str("Generic Error"),
            ConnectorError::MandatePaymentDataMismatch { fields } => {
                String::from_str("Field ")
                    .concat(fields.as_str())
                    .concat(" doesn't match with the ones used during mandate creation")
            },
        }
    }

    /// Whether the connector reported a request timeout. True of
    /// `RequestTimeoutReceived` and of no other failure.
    pub fn is_connector_timeout(&self) -> (timeout: bool)
        ensures
            timeout == (*self is RequestTimeoutReceived),
    {
        match self {
            ConnectorError::RequestTimeoutReceived => true,
            _ => false,
        }
    }
}

impl ErrorSwitch<ConnectorError> for ParsingError {
    /// Every parsing failure, whatever its detail, is `ParsingFailed`.
    open spec fn switched(&self) -> ConnectorError {
        ConnectorError::ParsingFailed
    }

    fn switch(&self) -> (target: ConnectorError) {
        ConnectorError::ParsingFailed
    }
}

impl ErrorSwitch<ApiErrorResponse> for ConnectorError {
    open spec fn switched(&self) -> ApiErrorResponse {
        public_outcome(*self)
    }

    fn switch(&self) -> (target: ApiErrorResponse) {
        match self {
            ConnectorError::WebhookSourceVerificationFailed => {
                ApiErrorResponse::WebhookAuthenticationFailed
            },
            ConnectorError::WebhookSignatureNotFound
            | ConnectorError::WebhookReferenceIdNotFound
            | ConnectorError::WebhookResourceObjectNotFound
            | ConnectorError::WebhookBodyDecodingFailed
            | ConnectorError::WebhooksNotImplemented => ApiErrorResponse::WebhookBadRequest,
            ConnectorError::WebhookEventTypeNotFound => {
                ApiErrorResponse::WebhookUnprocessableEntity
            },
            ConnectorError::WebhookVerificationSecretInvalid => {
                ApiErrorResponse::WebhookInvalidMerchantSecret
            },
            _ => ApiErrorResponse::InternalServerError,
        }
    }
}

/// Why an attempt to reach a connector over HTTP failed.
///
/// The variants up to `RequestNotSent` are local: the request never left, so
/// no response state belongs to them. The others were seen, or inferred, from
/// what came back.
#[derive(Debug, Clone, PartialEq)]
pub enum HttpClientError {
    HeaderMapConstructionFailed,
    InvalidProxyConfiguration,
    ClientConstructionFailed,
    CertificateDecodeFailed,
    BodySerializationFailed,
    UnexpectedState,
    UrlParsingFailed,
    UrlEncodingFailed,
    /// The request never left for the named connector.
    RequestNotSent(String),
    ResponseDecodingFailed,
    RequestTimeoutReceived,
    ConnectionClosedIncompleteMessage,
    InternalServerErrorReceived,
    BadGatewayReceived,
    ServiceUnavailableReceived,
    GatewayTimeoutReceived,
    UnexpectedServerResponse,
}

/// The client-layer outcome that stands for a transport failure: the variant
/// of the same name, with the same connector name where one is carried.
pub open spec fn api_client_error(failure: HttpClientError) -> ApiClientError {
    match failure {
        HttpClientError::HeaderMapConstructionFailed => ApiClientError::HeaderMapConstructionFailed,
        HttpClientError::InvalidProxyConfiguration => ApiClientError::InvalidProxyConfiguration,
        HttpClientError::ClientConstructionFailed => ApiClientError::ClientConstructionFailed,
        HttpClientError::CertificateDecodeFailed => ApiClientError::CertificateDecodeFailed,
        HttpClientError::BodySerializationFailed => ApiClientError::BodySerializationFailed,
        HttpClientError::UnexpectedState => ApiClientError::UnexpectedState,
        HttpClientError::UrlParsingFailed => ApiClientError::UrlParsingFailed,
        HttpClientError::UrlEncodingFailed => ApiClientError::UrlEncodingFailed,
        HttpClientError::RequestNotSent(connector) => ApiClientError::RequestNotSent(connector),
        HttpClientError::ResponseDecodingFailed => ApiClientError::ResponseDecodingFailed,
        HttpClientError::RequestTimeoutReceived => ApiClientError::RequestTimeoutReceived,
        HttpClientError::ConnectionClosedIncompleteMessage => {
            ApiClientError::ConnectionClosedIncompleteMessage
        },
        HttpClientError::InternalServerErrorReceived => ApiClientError::InternalServerErrorReceived,
        HttpClientError::BadGatewayReceived => ApiClientError::BadGatewayReceived,
        HttpClientError::ServiceUnavailableReceived => ApiClientError::ServiceUnavailableReceived,
        HttpClientError::GatewayTimeoutReceived => ApiClientError::GatewayTimeoutReceived,
        HttpClientError::UnexpectedServerResponse => ApiClientError::UnexpectedServerResponse,
    }
}

/// The transport failure that a client-layer outcome stands for.
pub open spec fn http_client_error(outcome: ApiClientError) -> HttpClientError {
    match outcome {
        ApiClientError::HeaderMapConstructionFailed => HttpClientError::HeaderMapConstructionFailed,
        ApiClientError::InvalidProxyConfiguration => HttpClientError::InvalidProxyConfiguration,
        ApiClientError::ClientConstructionFailed => HttpClientError::ClientConstructionFailed,
        ApiClientError::CertificateDecodeFailed => HttpClientError::CertificateDecodeFailed,
        ApiClientError::BodySerializationFailed => HttpClientError::BodySerializationFailed,
        ApiClientError::UnexpectedState => HttpClientError::UnexpectedState,
        ApiClientError::UrlParsingFailed => HttpClientError::UrlParsingFailed,
        ApiClientError::UrlEncodingFailed => HttpClientError::UrlEncodingFailed,
        ApiClientError::RequestNotSent(connector) => HttpClientError::RequestNotSent(connector),
        ApiClientError::ResponseDecodingFailed => HttpClientError::ResponseDecodingFailed,
        ApiClientError::RequestTimeoutReceived => HttpClientError::RequestTimeoutReceived,
        ApiClientError::ConnectionClosedIncompleteMessage => {
            HttpClientError::ConnectionClosedIncompleteMessage
        },
        ApiClientError::InternalServerErrorReceived => HttpClientError::InternalServerErrorReceived,
        ApiClientError::BadGatewayReceived => HttpClientError::BadGatewayReceived,
        ApiClientError::ServiceUnavailableReceived => HttpClientError::ServiceUnavailableReceived,
        ApiClientError::GatewayTimeoutReceived => HttpClientError::GatewayTimeoutReceived,
        ApiClientError::UnexpectedServerResponse => HttpClientError::UnexpectedServerResponse,
    }
}

/// Whether `failure` is the generic connector failure that carries `text`,
/// both as its message and as its structured payload.
pub open spec fn is_generic_with_text(failure: ConnectorError, text: Seq<char>) -> bool {
    &&& failure matches ConnectorError::GenericError { error_message, error_object }
    &&& error_message@ == text
    &&& error_object == json_string_value(text)
}

impl HttpClientError {
    /// The text that `message` renders: one fixed template for each variant,
    /// with the connector's name put in where one is carried.
    pub open spec fn message_text(self) -> Seq<char> {
        match self {
            HttpClientError::HeaderMapConstructionFailed => "Header map construction failed"@,
            HttpClientError::InvalidProxyConfiguration => "Invalid proxy configuration"@,
            HttpClientError::ClientConstructionFailed => "Client construction failed"@,
            HttpClientError::CertificateDecodeFailed => "Certificate decode failed"@,
            HttpClientError::BodySerializationFailed => "Request body serialization failed"@,
            HttpClientError::UnexpectedState => "Unexpected state reached/Invariants conflicted"@,
            HttpClientError::UrlParsingFailed => "Failed to parse URL"@,
            HttpClientError::UrlEncodingFailed => "URL encoding of request payload failed"@,
            HttpClientError::RequestNotSent(connector) => {
                "Failed to send request to connector "@ + connector@
            },
            HttpClientError::ResponseDecodingFailed => "Failed to decode response"@,
            HttpClientError::RequestTimeoutReceived => "Server responded with Request Timeout"@,
            HttpClientError::ConnectionClosedIncompleteMessage => {
                "connection closed before a message could complete"@
            },
            HttpClientError::InternalServerErrorReceived => {
                "Server responded with Internal Server Error"@
            },
            HttpClientError::BadGatewayReceived => "Server responded with Bad Gateway"@,
            HttpClientError::ServiceUnavailableReceived => {
                "Server responded with Service Unavailable"@
            },
            HttpClientError::GatewayTimeoutReceived => "Server responded with Gateway Timeout"@,
            HttpClientError::UnexpectedServerResponse => {
                "Server responded with unexpected response"@
            },
        }
    }

    /// Renders the failure for a log line.
    pub fn message(&self) -> (text: String)
        ensures
            text@ == self.message_text(),
    {
        match self {
            HttpClientError::HeaderMapConstructionFailed => {
                String::from_str("Header map construction failed")
            },
            HttpClientError::InvalidProxyConfiguration => {
                String::from_str("Invalid proxy configuration")
            },
            HttpClientError::ClientConstructionFailed => {
                String::from_str("Client construction failed")
            },
            HttpClientError::CertificateDecodeFailed => {
                String::from_str("Certificate decode failed")
            },
            HttpClientError::BodySerializationFailed => {
                String::from_str("Request body serialization failed")
            },
            HttpClientError::UnexpectedState => {
                String::from_str("Unexpected state reached/Invariants conflicted")
            },
            HttpClientError::UrlParsingFailed => String::from_str("Failed to parse URL"),
            HttpClientError::UrlEncodingFailed => {
                String::from_str("URL encoding of request payload failed")
            },
            HttpClientError::RequestNotSent(connector) => {
                String::from_str("Failed to send request to connector ").concat(connector.as_str())
            },
            HttpClientError::ResponseDecodingFailed => {
                String::from_str("Failed to decode response")
            },
            HttpClientError::RequestTimeoutReceived => {
                String::from_str("Server responded with Request Timeout")
            },
            HttpClientError::ConnectionClosedIncompleteMessage => {
                String::from_str("connection closed before a message could complete")
            },
            HttpClientError::InternalServerErrorReceived => {
                String::from_str("Server responded with Internal Server Error")
            },
            HttpClientError::BadGatewayReceived => {
                String::from_str("Server responded with Bad Gateway")
            },
            HttpClientError::ServiceUnavailableReceived => {
                String::from_str("Server responded with Service Unavailable")
            },
            HttpClientError::GatewayTimeoutReceived => {
                String::from_str("Server responded with Gateway Timeout")
            },
            HttpClientError::UnexpectedServerResponse => {
                String::from_str("Server responded with unexpected response")
            },
        }
    }

    /// Lifts a transport failure to the connector vocabulary. Every transport
    /// failure becomes a `GenericError` whose message is the failure's own
    /// text, letter for letter, and whose payload is that text as a JSON
    /// string. Such a failure is reported as an internal error and is no
    /// connector timeout.
    pub fn to_connector_error(&self) -> (failure: ConnectorError)
        ensures
            is_generic_with_text(failure, self.message_text()),
            public_outcome(failure) == ApiErrorResponse::InternalServerError,
            !(failure is RequestTimeoutReceived),
    {
        generic_failure(self.message())
    }
}

impl DatabaseError {
    /// Lifts a storage failure to the connector vocabulary, in the way
    /// transport failures are lifted: a `GenericError` that carries the
    /// failure's own text as message and as payload.
    pub fn to_connector_error(&self) -> (failure: ConnectorError)
        ensures
            is_generic_with_text(failure, self.message_text()),
            public_outcome(failure) == ApiErrorResponse::InternalServerError,
            !(failure is RequestTimeoutReceived),
    {
        generic_failure(self.message())
    }
}

fn generic_failure(text: String) -> (failure: ConnectorError)
    ensures
        is_generic_with_text(failure, text@),
{
    let payload = json_string(text.as_str());
    ConnectorError::GenericError { error_message: text, error_object: payload }
}

impl ErrorSwitch<ApiClientError> for HttpClientError {
    open spec fn switched(&self) -> ApiClientError {
        api_client_error(*self)
    }

    fn switch(&self) -> (target: ApiClientError) {
        match self {
            HttpClientError::HeaderMapConstructionFailed => {
                ApiClientError::HeaderMapConstructionFailed
            },
            HttpClientError::InvalidProxyConfiguration => ApiClientError::InvalidProxyConfiguration,
            HttpClientError::ClientConstructionFailed => ApiClientError::ClientConstructionFailed,
            HttpClientError::CertificateDecodeFailed => ApiClientError::CertificateDecodeFailed,
            HttpClientError::BodySerializationFailed => ApiClientError::BodySerializationFailed,
            HttpClientError::UnexpectedState => ApiClientError::UnexpectedState,
            HttpClientError::UrlParsingFailed => ApiClientError::UrlParsingFailed,
            HttpClientError::UrlEncodingFailed => ApiClientError::UrlEncodingFailed,
            HttpClientError::RequestNotSent(connector) => {
                ApiClientError::RequestNotSent(connector.clone())
            },
            HttpClientError::ResponseDecodingFailed => ApiClientError::ResponseDecodingFailed,
            HttpClientError::RequestTimeoutReceived => ApiClientError::RequestTimeoutReceived,
            HttpClientError::ConnectionClosedIncompleteMessage => {
                ApiClientError::ConnectionClosedIncompleteMessage
            },
            HttpClientError::InternalServerErrorReceived => {
                ApiClientError::InternalServerErrorReceived
            },
            HttpClientError::BadGatewayReceived => ApiClientError::BadGatewayReceived,
            HttpClientError::ServiceUnavailableReceived => {
                ApiClientError::ServiceUnavailableReceived
            },
            HttpClientError::GatewayTimeoutReceived => ApiClientError::GatewayTimeoutReceived,
            HttpClientError::UnexpectedServerResponse => ApiClientError::UnexpectedServerResponse,
        }
    }
}

/// A connector failure is reported as something other than an internal error
/// exactly when it faults the incoming webhook request.
pub proof fn internal_unless_webhook_request_fault(failure: ConnectorError)
    ensures
        public_outcome(failure) != ApiErrorResponse::InternalServerError
            <==> is_webhook_request_fault(failure),
{
}

/// The reported outcome is decided by the failure alone: translating the same
/// failure again gives the same outcome.
pub proof fn same_failure_same_outcome(first: ConnectorError, second: ConnectorError)
    requires
        first == second,
    ensures
        public_outcome(first) == public_outcome(second),
        first.switched() == second.switched(),
        first.switched() == public_outcome(first),
{
}

/// Two parsing failures never differ in what they become: both are
/// `ParsingFailed`, whatever detail either carries.
pub proof fn parsing_failures_share_one_target(first: ParsingError, second: ParsingError)
    ensures
        first.switched() == ConnectorError::ParsingFailed,
        first.switched() == second.switched(),
{
}

/// No two distinct transport failures share a client-layer outcome.
pub proof fn client_outcomes_are_distinct(first: HttpClientError, second: HttpClientError)
    requires
        api_client_error(first) == api_client_error(second),
    ensures
        first == second,
{
}

/// Translating a transport failure and reading the outcome back gives the
/// failure again, its connector name included.
pub proof fn client_outcome_reads_back(failure: HttpClientError)
    ensures
        http_client_error(api_client_error(failure)) == failure,
        failure matches HttpClientError::RequestNotSent(connector) ==> api_client_error(failure)
            == ApiClientError::RequestNotSent(connector),
{
}

/// Every client-layer outcome stands for some transport failure: the one
/// that `http_client_error` names.
pub proof fn every_client_outcome_is_reached(outcome: ApiClientError)
    ensures
        api_client_error(http_client_error(outcome)) == outcome,
{
}

} // verus!
