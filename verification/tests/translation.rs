use hyperswitch_interfaces::errors::{ConnectorError, HttpClientError};
use hyperswitch_interfaces::outcome::{ApiClientError, ApiErrorResponse, ErrorSwitch, ParsingError};

fn uncurated_failures() -> Vec<ConnectorError> {
    vec![
        ConnectorError::FailedToObtainIntegrationUrl,
        ConnectorError::RequestEncodingFailed,
        ConnectorError::RequestEncodingFailedWithReason("bad body".to_string()),
        ConnectorError::ParsingFailed,
        ConnectorError::ResponseDeserializationFailed,
        ConnectorError::ProcessingStepFailed(None),
        ConnectorError::ProcessingStepFailed(Some(bytes::Bytes::from_static(b"{}"))),
        ConnectorError::UnexpectedResponseError(bytes::Bytes::from_static(b"oops")),
        ConnectorError::RoutingRulesParsingError,
        ConnectorError::FailedToObtainPreferredConnector,
        ConnectorError::InvalidConnectorName,
        ConnectorError::InvalidWallet,
        ConnectorError::ResponseHandlingFailed,
        ConnectorError::MissingRequiredField { field_name: "amount" },
        ConnectorError::MissingRequiredFields { field_names: vec!["amount", "currency"] },
        ConnectorError::FailedToObtainAuthType,
        ConnectorError::FailedToObtainCertificate,
        ConnectorError::NoConnectorMetaData,
        ConnectorError::NoConnectorWalletDetails,
        ConnectorError::FailedToObtainCertificateKey,
        ConnectorError::NotImplemented("refunds".to_string()),
        ConnectorError::NotSupported { message: "Payouts".to_string(), connector: "stripe" },
        ConnectorError::FlowNotSupported {
            flow: "Capture".to_string(),
            connector: "adyen".to_string(),
        },
        ConnectorError::CaptureMethodNotSupported,
        ConnectorError::MissingConnectorMandateID,
        ConnectorError::MissingConnectorMandateMetadata,
        ConnectorError::MissingConnectorTransactionID,
        ConnectorError::MissingConnectorRefundID,
        ConnectorError::MissingApplePayTokenData,
        ConnectorError::WebhookVerificationSecretNotFound,
        ConnectorError::WebhookResponseEncodingFailed,
        ConnectorError::InvalidDateFormat,
        ConnectorError::DateFormattingFailed,
        ConnectorError::InvalidDataFormat { field_name: "expiry" },
        ConnectorError::MismatchedPaymentData,
        ConnectorError::InvalidWalletToken { wallet_name: "Apple Pay".to_string() },
        ConnectorError::MissingConnectorRelatedTransactionID { id: "txn_1".to_string() },
        ConnectorError::FileValidationFailed { reason: "too large".to_string() },
        ConnectorError::MissingConnectorRedirectionPayload { field_name: "payload" },
        ConnectorError::FailedAtConnector {
            message: "declined".to_string(),
            code: "E42".to_string(),
        },
        ConnectorError::MissingPaymentMethodType,
        ConnectorError::InSufficientBalanceInPaymentMethod,
        ConnectorError::RequestTimeoutReceived,
        ConnectorError::CurrencyNotSupported { message: "JPY".to_string(), connector: "stripe" },
        ConnectorError::InvalidConnectorConfig { config: "merchant_id" },
        ConnectorError::AmountConversionFailed,
        ConnectorError::GenericError {
            error_message: "boom".to_string(),
            error_object: serde_json::Value::Null,
        },
        ConnectorError::MandatePaymentDataMismatch { fields: "card".to_string() },
    ]
}

fn transport_pairs() -> Vec<(HttpClientError, ApiClientError)> {
    vec![
        (
            HttpClientError::HeaderMapConstructionFailed,
            ApiClientError::HeaderMapConstructionFailed,
        ),
        (HttpClientError::InvalidProxyConfiguration, ApiClientError::InvalidProxyConfiguration),
        (HttpClientError::ClientConstructionFailed, ApiClientError::ClientConstructionFailed),
        (HttpClientError::CertificateDecodeFailed, ApiClientError::CertificateDecodeFailed),
        (HttpClientError::BodySerializationFailed, ApiClientError::BodySerializationFailed),
        (HttpClientError::UnexpectedState, ApiClientError::UnexpectedState),
        (HttpClientError::UrlParsingFailed, ApiClientError::UrlParsingFailed),
        (HttpClientError::UrlEncodingFailed, ApiClientError::UrlEncodingFailed),
        (
            HttpClientError::RequestNotSent("stripe".to_string()),
            ApiClientError::RequestNotSent("stripe".to_string()),
        ),
        (HttpClientError::ResponseDecodingFailed, ApiClientError::ResponseDecodingFailed),
        (HttpClientError::RequestTimeoutReceived, ApiClientError::RequestTimeoutReceived),
        (
            HttpClientError::ConnectionClosedIncompleteMessage,
            ApiClientError::ConnectionClosedIncompleteMessage,
        ),
        (
            HttpClientError::InternalServerErrorReceived,
            ApiClientError::InternalServerErrorReceived,
        ),
        (HttpClientError::BadGatewayReceived, ApiClientError::BadGatewayReceived),
        (HttpClientError::ServiceUnavailableReceived, ApiClientError::ServiceUnavailableReceived),
        (HttpClientError::GatewayTimeoutReceived, ApiClientError::GatewayTimeoutReceived),
        (HttpClientError::UnexpectedServerResponse, ApiClientError::UnexpectedServerResponse),
    ]
}

#[test]
fn source_verification_failure_is_unauthenticated() {
    assert_eq!(
        ConnectorError::WebhookSourceVerificationFailed.switch(),
        ApiErrorResponse::WebhookAuthenticationFailed
    );
}

#[test]
fn malformed_webhooks_are_bad_requests() {
    assert_eq!(
        ConnectorError::WebhookSignatureNotFound.switch(),
        ApiErrorResponse::WebhookBadRequest
    );
    assert_eq!(
        ConnectorError::WebhookReferenceIdNotFound.switch(),
        ApiErrorResponse::WebhookBadRequest
    );
    assert_eq!(
        ConnectorError::WebhookResourceObjectNotFound.switch(),
        ApiErrorResponse::WebhookBadRequest
    );
    assert_eq!(
        ConnectorError::WebhookBodyDecodingFailed.switch(),
        ApiErrorResponse::WebhookBadRequest
    );
    assert_eq!(ConnectorError::WebhooksNotImplemented.switch(), ApiErrorResponse::WebhookBadRequest);
}

#[test]
fn unknown_event_type_is_unprocessable() {
    assert_eq!(
        ConnectorError::WebhookEventTypeNotFound.switch(),
        ApiErrorResponse::WebhookUnprocessableEntity
    );
}

#[test]
fn invalid_secret_has_its_own_outcome() {
    assert_eq!(
        ConnectorError::WebhookVerificationSecretInvalid.switch(),
        ApiErrorResponse::WebhookInvalidMerchantSecret
    );
}

#[test]
fn missing_secret_is_an_internal_error() {
    assert_eq!(
        ConnectorError::WebhookVerificationSecretNotFound.switch(),
        ApiErrorResponse::InternalServerError
    );
}

#[test]
fn every_other_failure_is_an_internal_error() {
    let failures = uncurated_failures();
    assert_eq!(failures.len(), 48);
    for failure in failures.iter() {
        assert_eq!(failure.switch(), ApiErrorResponse::InternalServerError, "{:?}", failure);
    }
}

#[test]
fn translating_twice_gives_the_same_outcome() {
    for failure in uncurated_failures().iter() {
        assert_eq!(failure.switch(), failure.switch());
    }
    let curated = ConnectorError::WebhookEventTypeNotFound;
    assert_eq!(curated.switch(), curated.switch());
}

#[test]
fn only_the_timeout_variant_is_a_timeout() {
    assert!(ConnectorError::RequestTimeoutReceived.is_connector_timeout());
    for failure in uncurated_failures().iter() {
        let expected = *failure == ConnectorError::RequestTimeoutReceived;
        assert_eq!(failure.is_connector_timeout(), expected, "{:?}", failure);
    }
    assert!(!ConnectorError::WebhookSourceVerificationFailed.is_connector_timeout());
    assert!(!ConnectorError::WebhookEventTypeNotFound.is_connector_timeout());
    assert!(!ConnectorError::ParsingFailed.is_connector_timeout());
}

#[test]
fn parsing_failures_become_parsing_failed() {
    let failures = vec![
        ParsingError::EnumParseFailure("Currency"),
        ParsingError::StructParseFailure("PaymentsResponse"),
        ParsingError::EncodeError("json"),
        ParsingError::DateTimeParsingError,
        ParsingError::IntegerOverflow,
        ParsingError::UnknownError,
    ];
    for failure in failures.iter() {
        assert_eq!(failure.switch(), ConnectorError::ParsingFailed);
    }
}

#[test]
fn each_transport_failure_has_its_own_client_outcome() {
    let pairs = transport_pairs();
    assert_eq!(pairs.len(), 17);
    for (failure, outcome) in pairs.iter() {
        assert_eq!(&failure.switch(), outcome);
    }
}

#[test]
fn distinct_transport_failures_give_distinct_outcomes() {
    let pairs = transport_pairs();
    for (i, (first, _)) in pairs.iter().enumerate() {
        for (j, (second, _)) in pairs.iter().enumerate() {
            assert_eq!(first.switch() == second.switch(), i == j);
        }
    }
    assert_ne!(
        HttpClientError::RequestNotSent("stripe".to_string()).switch(),
        HttpClientError::RequestNotSent("adyen".to_string()).switch()
    );
}

#[test]
fn request_not_sent_keeps_the_connector_name() {
    let outcome = HttpClientError::RequestNotSent("checkout".to_string()).switch();
    assert_eq!(outcome, ApiClientError::RequestNotSent("checkout".to_string()));
    let empty = HttpClientError::RequestNotSent(String::new()).switch();
    assert_eq!(empty, ApiClientError::RequestNotSent(String::new()));
}

#[test]
fn transport_failure_lifts_to_generic_connector_failure() {
    let lifted = HttpClientError::RequestNotSent("stripe".to_string()).to_connector_error();
    assert_eq!(
        lifted,
        ConnectorError::GenericError {
            error_message: "Failed to send request to connector stripe".to_string(),
            error_object: serde_json::Value::String(
                "Failed to send request to connector stripe".to_string()
            ),
        }
    );
    assert_eq!(lifted.switch(), ApiErrorResponse::InternalServerError);
    assert!(!lifted.is_connector_timeout());
}

#[test]
fn lifting_keeps_the_message_of_every_transport_failure() {
    for (failure, _) in transport_pairs().iter() {
        let text = failure.message();
        assert_eq!(
            failure.to_connector_error(),
            ConnectorError::GenericError {
                error_message: text.clone(),
                error_object: serde_json::Value::String(text),
            }
        );
    }
}
