//! Error kinds reported by adapters and by the engine.

use vstd::prelude::*;

verus! {

/// A failure while building a request or interpreting a response.
#[derive(Clone, Copy, Debug, PartialEq, Eq)]
pub enum ConnectorError {
    /// The credential bundle does not have the shape the adapter needs.
    FailedToObtainAuthType,
    /// A field the request cannot be built without is absent.
    MissingRequiredField { field_name: &'static str },
    /// The request payload could not be serialized.
    RequestEncodingFailed,
    /// The response body does not match the processor's schema.
    ResponseDeserializationFailed,
    /// The response was decoded but could not be mapped to a payload.
    ResponseHandlingFailed,
    /// The adapter does not parse inbound webhooks.
    WebhooksNotImplemented,
    /// The transport could not complete the round trip.
    ProcessingStepFailed,
}

/// A failure surfaced to the caller of the engine.
#[derive(Clone, Copy, Debug, PartialEq, Eq)]
pub enum ApiErrorResponse {
    /// An internal or infrastructure fault, such as a cache or transport error.
    InternalServerError,
}

} // verus!
