//! What the connector can fail with.

use crate::types::{CaptureMethod, PaymentMethodType};
use vstd::prelude::*;

verus! {

/// Errors of the connector.
#[derive(Debug, PartialEq, Eq)]
pub enum ConnectorError {
    /// The response body could not be decoded.
    ResponseDeserializationFailed,
    /// The connector has no such flow.
    NotImplemented(&'static str),
    /// The connector does not take payments with this capture method.
    CaptureMethodNotSupported { capture_method: CaptureMethod, connector: &'static str },
    /// The connector does not set up mandates for this kind of payment.
    MandateNotSupported {
        payment_method_type: Option<PaymentMethodType>,
        connector: &'static str,
    },
    /// The request lacks a field that the connector needs.
    MissingRequiredField { field_name: &'static str },
    /// The body of a webhook could not be decoded.
    WebhookBodyDecodingFailed,
    /// The source of a webhook could not be established.
    WebhookSourceVerificationFailed,
    /// The signature of a webhook is no hexadecimal text.
    WebhookResponseEncodingFailed,
    /// An error raised by a codec or a lookup of the caller, passed on as it is.
    Other(String),
}

impl Clone for ConnectorError {
    fn clone(&self) -> (r: Self)
        ensures
            r == *self,
    {
        match self {
            ConnectorError::ResponseDeserializationFailed =>
                ConnectorError::ResponseDeserializationFailed,
            ConnectorError::NotImplemented(flow) => ConnectorError::NotImplemented(*flow),
            ConnectorError::CaptureMethodNotSupported { capture_method, connector } =>
                ConnectorError::CaptureMethodNotSupported {
                    capture_method: *capture_method,
                    connector: *connector,
                },
            ConnectorError::MandateNotSupported { payment_method_type, connector } =>
                ConnectorError::MandateNotSupported {
                    payment_method_type: match payment_method_type {
                        Some(kind) => Some(kind.clone()),
                        None => None,
                    },
                    connector: *connector,
                },
            ConnectorError::MissingRequiredField { field_name } =>
                ConnectorError::MissingRequiredField { field_name: *field_name },
            ConnectorError::WebhookBodyDecodingFailed => ConnectorError::WebhookBodyDecodingFailed,
            ConnectorError::WebhookSourceVerificationFailed =>
                ConnectorError::WebhookSourceVerificationFailed,
            ConnectorError::WebhookResponseEncodingFailed =>
                ConnectorError::WebhookResponseEncodingFailed,
            ConnectorError::Other(message) => ConnectorError::Other(message.clone()),
        }
    }
}

} // verus!
