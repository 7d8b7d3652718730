//! The data model shared by the engine and its adapters.

use vstd::prelude::*;
use vstd::string::*;
use std::marker::PhantomData;

verus! {

/// A bearer credential minted by an access-token flow.
#[derive(Debug, PartialEq, Eq)]
pub struct AccessToken {
    /// The opaque token value.
    pub token: String,
    /// How long the token is valid, in seconds.
    pub expires: i64,
    /// When the token was created, as a Unix timestamp, if recorded.
    pub refresh_token_created_at: Option<i64>,
}

pub struct AccessTokenView {
    pub token: Seq<char>,
    pub expires: i64,
    pub refresh_token_created_at: Option<i64>,
}

impl View for AccessToken {
    type V = AccessTokenView;

    open spec fn view(&self) -> AccessTokenView {
        AccessTokenView {
            token: self.token@,
            expires: self.expires,
            refresh_token_created_at: self.refresh_token_created_at,
        }
    }
}

impl Clone for AccessToken {
    fn clone(&self) -> (r: Self)
        ensures
            r == *self,
    {
        AccessToken {
            token: self.token.clone(),
            expires: self.expires,
            refresh_token_created_at: self.refresh_token_created_at,
        }
    }
}

/// The canonical shape of a processor-reported error.
#[derive(Debug, PartialEq, Eq)]
pub struct ErrorResponse {
    /// Machine code: the processor's own, or a rendering of its numeric status.
    pub code: String,
    /// Human-readable message: the processor's own, or a default.
    pub message: String,
    pub reason: Option<String>,
    /// The HTTP status code the transport reported.
    pub status_code: u16,
}

pub struct ErrorResponseView {
    pub code: Seq<char>,
    pub message: Seq<char>,
    pub reason: Option<Seq<char>>,
    pub status_code: u16,
}

/// The view of an optional string.
pub open spec fn option_text(s: Option<String>) -> Option<Seq<char>> {
    match s {
        Some(s) => Some(s@),
        None => None,
    }
}

impl View for ErrorResponse {
    type V = ErrorResponseView;

    open spec fn view(&self) -> ErrorResponseView {
        ErrorResponseView {
            code: self.code@,
            message: self.message@,
            reason: option_text(self.reason),
            status_code: self.status_code,
        }
    }
}

impl Clone for ErrorResponse {
    fn clone(&self) -> (r: Self)
        ensures
            r == *self,
    {
        ErrorResponse {
            code: self.code.clone(),
            message: self.message.clone(),
            reason: match &self.reason {
                Some(reason) => Some(reason.clone()),
                None => None,
            },
            status_code: self.status_code,
        }
    }
}

impl ErrorResponse {
    /// The placeholder that marks an outcome no cycle has filled in yet.
    pub open spec fn default_view() -> ErrorResponseView {
        ErrorResponseView {
            code: "HE_00"@,
            message: "Something went wrong"@,
            reason: None,
            status_code: 500,
        }
    }
}

impl Default for ErrorResponse {
    fn default() -> (r: Self)
        ensures
            r@ == ErrorResponse::default_view(),
    {
        ErrorResponse {
            code: String::from_str("HE_00"),
            message: String::from_str("Something went wrong"),
            reason: None,
            status_code: 500,
        }
    }
}

/// The credential bundle of a merchant's connector account. Only the adapter
/// interprets it.
#[derive(Debug, PartialEq, Eq)]
pub enum ConnectorAuthType {
    HeaderKey { api_key: String },
    BodyKey { api_key: String, key1: String },
    SignatureKey { api_key: String, key1: String, api_secret: String },
    NoKey,
}

impl Clone for ConnectorAuthType {
    fn clone(&self) -> (r: Self)
        ensures
            r == *self,
    {
        match self {
            ConnectorAuthType::HeaderKey { api_key } => ConnectorAuthType::HeaderKey {
                api_key: api_key.clone(),
            },
            ConnectorAuthType::BodyKey { api_key, key1 } => ConnectorAuthType::BodyKey {
                api_key: api_key.clone(),
                key1: key1.clone(),
            },
            ConnectorAuthType::SignatureKey { api_key, key1, api_secret } => {
                ConnectorAuthType::SignatureKey {
                    api_key: api_key.clone(),
                    key1: key1.clone(),
                    api_secret: api_secret.clone(),
                }
            },
            ConnectorAuthType::NoKey => ConnectorAuthType::NoKey,
        }
    }
}

/// The kind of instrument a payment or payout uses.
#[derive(Clone, Copy, Debug, PartialEq, Eq)]
pub enum PaymentMethod {
    Card,
    PayLater,
    Wallet,
    BankRedirect,
    BankTransfer,
    BankDebit,
    Crypto,
}

/// Tells the engine whether to perform network I/O for an operation.
#[derive(Clone, Copy, Debug, PartialEq, Eq)]
pub enum CallConnectorAction {
    /// Perform the network step and parse a real response.
    Trigger,
    /// Perform no network I/O; the context is returned unchanged.
    Skip,
}

/// The state of one logical operation against a processor.
///
/// `Flow` tags the operation, `Request` and `Response` are its payloads. The
/// outcome in `response` is either a successful payload or a normalized
/// error, never a mix of both.
#[derive(Debug, PartialEq, Eq)]
pub struct RouterData<Flow, Request, Response> {
    pub flow: PhantomData<Flow>,
    pub merchant_id: String,
    pub connector: String,
    pub connector_auth_type: ConnectorAuthType,
    pub payment_method: PaymentMethod,
    pub access_token: Option<AccessToken>,
    pub request: Request,
    pub response: Result<Response, ErrorResponse>,
}

impl<Flow, Request, Response> RouterData<Flow, Request, Response> {
    /// The fields that every reinterpretation of a context carries over:
    /// identifiers, credentials, payment method and access token.
    pub open spec fn shares_fields_with<F2, Req2, Res2>(
        &self,
        other: &RouterData<F2, Req2, Res2>,
    ) -> bool {
        &&& self.merchant_id == other.merchant_id
        &&& self.connector == other.connector
        &&& self.connector_auth_type == other.connector_auth_type
        &&& self.payment_method == other.payment_method
        &&& self.access_token == other.access_token
    }

    /// Whether two contexts differ at most in their outcome.
    pub open spec fn same_but_response(&self, other: &Self) -> bool {
        &&& self.shares_fields_with(other)
        &&& self.request == other.request
    }

    /// Whether two contexts differ at most in their request payload.
    pub open spec fn same_but_request(&self, other: &Self) -> bool {
        &&& self.shares_fields_with(other)
        &&& self.response == other.response
    }
}

/// A request or response payload of a flow: a value with a mathematical
/// view. Every type with a view is one.
pub trait Payload: View {}

impl<T: View> Payload for T {}

/// The view of an outcome: the payload's view, or the error's.
pub open spec fn outcome_view<Response: View>(outcome: Result<Response, ErrorResponse>) -> Result<
    Response::V,
    ErrorResponseView,
> {
    match outcome {
        Ok(payload) => Ok(payload@),
        Err(error) => Err(error@),
    }
}

/// Reinterprets a context under another flow and other payload types.
///
/// Identifiers, credentials, payment method and access token are carried
/// over; request and outcome are replaced by the given ones.
pub fn router_data_type_conversion<F1, Req1, Res1, F2, Req2, Res2>(
    router_data: &RouterData<F1, Req1, Res1>,
    request: Req2,
    response: Result<Res2, ErrorResponse>,
) -> (converted: RouterData<F2, Req2, Res2>)
    ensures
        converted.shares_fields_with(router_data),
        converted.request == request,
        converted.response == response,
{
    RouterData {
        flow: PhantomData,
        merchant_id: router_data.merchant_id.clone(),
        connector: router_data.connector.clone(),
        connector_auth_type: router_data.connector_auth_type.clone(),
        payment_method: router_data.payment_method,
        access_token: match &router_data.access_token {
            Some(token) => Some(token.clone()),
            None => None,
        },
        request,
        response,
    }
}

/// The result of making a valid access token available for a call.
#[derive(Debug, PartialEq, Eq)]
pub struct AddAccessTokenResult {
    /// The token to use, if any, or the error the refresh ended with.
    pub access_token_result: Result<Option<AccessToken>, ErrorResponse>,
    /// Whether this connector uses access tokens at all.
    pub connector_supports_access_token: bool,
}

/// The request payload of an access-token flow.
#[derive(Debug, PartialEq, Eq)]
pub struct AccessTokenRequestData {
    /// The token that is being replaced, if there was one.
    pub old_access_token: Option<AccessToken>,
}

pub struct AccessTokenRequestDataView {
    pub old_access_token: Option<AccessTokenView>,
}

impl View for AccessTokenRequestData {
    type V = AccessTokenRequestDataView;

    open spec fn view(&self) -> AccessTokenRequestDataView {
        AccessTokenRequestDataView {
            old_access_token: match self.old_access_token {
                Some(token) => Some(token@),
                None => None,
            },
        }
    }
}

/// Flow tag: authorize a payment.
#[derive(Clone, Copy, Debug, PartialEq, Eq)]
pub struct Authorize;

/// Flow tag: capture an authorized payment.
#[derive(Clone, Copy, Debug, PartialEq, Eq)]
pub struct Capture;

/// Flow tag: void an authorized payment.
#[derive(Clone, Copy, Debug, PartialEq, Eq)]
pub struct Void;

/// Flow tag: synchronize the state of a payment.
#[derive(Clone, Copy, Debug, PartialEq, Eq)]
pub struct PSync;

/// Flow tag: execute a refund.
#[derive(Clone, Copy, Debug, PartialEq, Eq)]
pub struct Execute;

/// Flow tag: synchronize the state of a refund.
#[derive(Clone, Copy, Debug, PartialEq, Eq)]
pub struct RSync;

/// Flow tag: obtain an access token.
#[derive(Clone, Copy, Debug, PartialEq, Eq)]
pub struct AccessTokenAuth;

/// Flow tag: obtain a quote for a payout.
#[derive(Clone, Copy, Debug, PartialEq, Eq)]
pub struct PoQuote;

/// Flow tag: register the recipient of a payout.
#[derive(Clone, Copy, Debug, PartialEq, Eq)]
pub struct PoRecipient;

/// Flow tag: create a payout.
#[derive(Clone, Copy, Debug, PartialEq, Eq)]
pub struct PCreate;

/// Flow tag: fund a created payout.
#[derive(Clone, Copy, Debug, PartialEq, Eq)]
pub struct PFulfill;

/// Flow tag: cancel a payout.
#[derive(Clone, Copy, Debug, PartialEq, Eq)]
pub struct PCancel;

/// Flow tag: check whether a payout is possible.
#[derive(Clone, Copy, Debug, PartialEq, Eq)]
pub struct PEligibility;

/// How far a payout has come.
#[derive(Clone, Copy, Debug, PartialEq, Eq)]
pub enum PayoutStatus {
    Success,
    Failed,
    Cancelled,
    Pending,
    Ineligible,
    RequiresCreation,
    RequiresPayoutMethodData,
    RequiresFulfillment,
}

/// What is known of the customer a payout goes to.
#[derive(Debug, PartialEq, Eq)]
pub struct CustomerDetails {
    pub name: Option<String>,
}

impl Clone for CustomerDetails {
    fn clone(&self) -> (r: Self)
        ensures
            r == *self,
    {
        CustomerDetails {
            name: match &self.name {
                Some(name) => Some(name.clone()),
                None => None,
            },
        }
    }
}

/// The request payload of every payout flow.
#[derive(Debug, PartialEq, Eq)]
pub struct PayoutsData {
    /// The caller's identifier of the payout.
    pub payout_id: String,
    /// The amount to pay out, in the minor unit of the source currency.
    pub amount: i64,
    /// The processor's identifier of the transfer, once it is created.
    pub connector_payout_id: Option<String>,
    pub destination_currency: String,
    pub source_currency: String,
    pub customer_details: Option<CustomerDetails>,
    /// The processor's identifier of the recipient account, once it is
    /// registered.
    pub recipient_id: Option<String>,
    /// The processor's identifier of the quote, once one is obtained.
    pub quote_id: Option<String>,
}

pub struct PayoutsDataView {
    pub payout_id: Seq<char>,
    pub amount: i64,
    pub connector_payout_id: Option<Seq<char>>,
    pub destination_currency: Seq<char>,
    pub source_currency: Seq<char>,
    /// Outer: whether customer details are present; inner: the name, if known.
    pub customer_name: Option<Option<Seq<char>>>,
    pub recipient_id: Option<Seq<char>>,
    pub quote_id: Option<Seq<char>>,
}

impl View for PayoutsData {
    type V = PayoutsDataView;

    open spec fn view(&self) -> PayoutsDataView {
        PayoutsDataView {
            payout_id: self.payout_id@,
            amount: self.amount,
            connector_payout_id: option_text(self.connector_payout_id),
            destination_currency: self.destination_currency@,
            source_currency: self.source_currency@,
            customer_name: match self.customer_details {
                Some(details) => Some(option_text(details.name)),
                None => None,
            },
            recipient_id: option_text(self.recipient_id),
            quote_id: option_text(self.quote_id),
        }
    }
}

impl Clone for PayoutsData {
    fn clone(&self) -> (r: Self)
        ensures
            r == *self,
    {
        PayoutsData {
            payout_id: self.payout_id.clone(),
            amount: self.amount,
            connector_payout_id: match &self.connector_payout_id {
                Some(id) => Some(id.clone()),
                None => None,
            },
            destination_currency: self.destination_currency.clone(),
            source_currency: self.source_currency.clone(),
            customer_details: match &self.customer_details {
                Some(details) => Some(details.clone()),
                None => None,
            },
            recipient_id: match &self.recipient_id {
                Some(id) => Some(id.clone()),
                None => None,
            },
            quote_id: match &self.quote_id {
                Some(id) => Some(id.clone()),
                None => None,
            },
        }
    }
}

/// The response payload of every payout flow.
#[derive(Debug, PartialEq, Eq)]
pub struct PayoutsResponseData {
    pub status: Option<PayoutStatus>,
    /// The processor's identifier of what the call created.
    pub connector_payout_id: String,
    pub payout_eligible: Option<bool>,
}

pub struct PayoutsResponseDataView {
    pub status: Option<PayoutStatus>,
    pub connector_payout_id: Seq<char>,
    pub payout_eligible: Option<bool>,
}

impl View for PayoutsResponseData {
    type V = PayoutsResponseDataView;

    open spec fn view(&self) -> PayoutsResponseDataView {
        PayoutsResponseDataView {
            status: self.status,
            connector_payout_id: self.connector_payout_id@,
            payout_eligible: self.payout_eligible,
        }
    }
}

/// The context of a payout flow.
pub type PayoutsRouterData<Flow> = RouterData<Flow, PayoutsData, PayoutsResponseData>;

/// What the transport received from a processor.
#[derive(Debug, PartialEq, Eq)]
pub struct Response {
    /// The raw body.
    pub response: Vec<u8>,
    pub status_code: u16,
}

/// Per-connector settings.
#[derive(Debug, PartialEq, Eq)]
pub struct ConnectorParams {
    pub base_url: String,
}

/// What the transport reports for one call.
#[derive(Debug, PartialEq, Eq)]
pub enum TransportOutcome {
    /// The processor answered and the transport counts the answer a success.
    Success(Response),
    /// The processor answered and the transport counts the answer a failure.
    Failure(Response),
    /// The round trip did not complete.
    Error,
}

/// An inbound webhook as the server received it.
#[derive(Debug, PartialEq, Eq)]
pub struct IncomingWebhookRequestDetails {
    pub headers: Vec<(String, String)>,
    pub body: Vec<u8>,
}

/// The object that a webhook speaks of.
#[derive(Debug, PartialEq, Eq)]
pub enum ObjectReferenceId {
    PaymentId(String),
    RefundId(String),
}

/// What a webhook reports.
#[derive(Clone, Copy, Debug, PartialEq, Eq)]
pub enum IncomingWebhookEvent {
    PaymentIntentFailure,
    PaymentIntentSuccess,
    RefundFailure,
    RefundSuccess,
    EventNotSupported,
}

/// The settings of every connector the engine knows.
#[derive(Debug, PartialEq, Eq)]
pub struct Connectors {
    pub wise: ConnectorParams,
}

} // verus!
