//! The adapter for Wise payouts.
//!
//! Wise takes a static API key and no access token. A payout is a chain of
//! calls: a quote, a recipient, a transfer created under both, and its
//! funding. Creating a transfer obtains its quote first, as a dependent call.

pub mod transformers;

use vstd::prelude::*;
use vstd::string::*;

use crate::decimal::{decimal_text, i64_to_string};
use crate::errors::ConnectorError;
use crate::json::{JsonTree, json_document, json_parse, json_render, json_text, json_tree};
use crate::request::{
    AUTHORIZATION, CONTENT_TYPE, Header, Maskable, MaskableView, Method, Request, RequestBuilder,
    RequestView, default_headers_view, headers_view,
};
use crate::services::{
    ConnectorIntegration, PendingCall, Progress, Stage,
    assembled_request, body_result, continue_connector_processing_step, continue_post,
    error_result, execute_connector_processing_step, execute_post, headers_result,
};
use crate::types::{
    AccessToken, AccessTokenAuth, AccessTokenRequestData, CallConnectorAction,
    ConnectorAuthType, Connectors, ErrorResponse, ErrorResponseView, IncomingWebhookEvent,
    IncomingWebhookRequestDetails, ObjectReferenceId, PCancel, PCreate, PEligibility, PFulfill,
    PayoutsData,
    PayoutsDataView, PayoutsResponseData, PayoutsResponseDataView, PayoutsRouterData, PoQuote,
    PoRecipient, Response, RouterData, TransportOutcome, router_data_type_conversion,
};
use crate::wise::transformers::WiseAuthType;

verus! {

/// The Wise adapter.
#[derive(Clone, Copy, Debug)]
pub struct Wise;

/// The media type of every request body.
pub const CONTENT_TYPE_JSON: &'static str = "application/json";

/// The canonical error for a decoded error response.
///
/// The first entry of a non-empty error list gives code and message as they
/// are. Without one, the code is the decimal rendering of the top-level
/// status, or of zero where there is none, and the message is the top-level
/// message, or empty where there is none. The HTTP status code is kept as
/// the transport reported it.
pub open spec fn normalized_error(
    status_code: u16,
    response: transformers::ErrorResponseView,
) -> ErrorResponseView {
    if response.errors is Some && response.errors->Some_0.len() > 0 {
        ErrorResponseView {
            status_code,
            code: response.errors->Some_0[0].code,
            message: response.errors->Some_0[0].message,
            reason: None,
        }
    } else {
        ErrorResponseView {
            status_code,
            code: decimal_text(
                match response.status {
                    Some(status) => status as int,
                    None => 0,
                },
            ),
            message: match response.message {
                Some(message) => message,
                None => Seq::empty(),
            },
            reason: None,
        }
    }
}

/// Normalizes a decoded error response received with the given HTTP status.
pub fn normalize_error_response(status_code: u16, response: transformers::ErrorResponse) -> (r:
    ErrorResponse)
    ensures
        r@ == normalized_error(status_code, response@),
        r.status_code == status_code,
{
    let default_status = i64_to_string(
        match response.status {
            Some(status) => status as i64,
            None => 0,
        },
    );
    let default_message = match response.message {
        Some(message) => message,
        None => String::new(),
    };
    match response.errors {
        Some(errs) => {
            if errs.len() > 0 {
                let first = &errs[0];
                assert(transformers::sub_errors_view(errs@)[0] == first@);
                ErrorResponse {
                    status_code,
                    code: first.code.clone(),
                    message: first.message.clone(),
                    reason: None,
                }
            } else {
                ErrorResponse {
                    status_code,
                    code: default_status,
                    message: default_message,
                    reason: None,
                }
            }
        },
        None => ErrorResponse {
            status_code,
            code: default_status,
            message: default_message,
            reason: None,
        },
    }
}

/// The canonical error that an error response denotes; a body that is no
/// JSON text, or no error response, is a deserialization failure.
pub open spec fn error_response_model(res: &Response) -> Result<ErrorResponseView, ConnectorError> {
    match json_document(res.response@) {
        None => Err(ConnectorError::ResponseDeserializationFailed),
        Some(tree) => match transformers::error_response_of(tree) {
            None => Err(ConnectorError::ResponseDeserializationFailed),
            Some(response) => Ok(normalized_error(res.status_code, response)),
        },
    }
}

/// The outcome that a decoded payload gives a context; a body that does
/// not match the schema is a deserialization failure.
pub open spec fn decoded_payload(payload: Option<PayoutsResponseDataView>) -> Result<
    Result<PayoutsResponseDataView, ErrorResponseView>,
    ConnectorError,
> {
    match payload {
        Some(payload) => Ok(Ok(payload)),
        None => Err(ConnectorError::ResponseDeserializationFailed),
    }
}

/// The headers of every Wise call: the media type, then the API key.
pub open spec fn wise_headers_model(auth_type: &ConnectorAuthType) -> Result<
    Seq<(Seq<char>, MaskableView)>,
    ConnectorError,
> {
    match WiseAuthType::of(auth_type) {
        None => Err(ConnectorError::FailedToObtainAuthType),
        Some((api_key, profile_id)) => Ok(
            seq![
                (CONTENT_TYPE@, MaskableView::Normal(CONTENT_TYPE_JSON@)),
                (AUTHORIZATION@, MaskableView::Normal(api_key@)),
            ],
        ),
    }
}

/// The serialized body for a request document, or the error that kept the
/// document from being built; a document that cannot be written is an
/// encoding failure.
pub open spec fn body_of(tree: Result<JsonTree, ConnectorError>) -> Result<
    Option<Seq<char>>,
    ConnectorError,
> {
    match tree {
        Err(e) => Err(e),
        Ok(tree) => match json_text(tree) {
            Some(text) => Ok(Some(text)),
            None => Err(ConnectorError::RequestEncodingFailed),
        },
    }
}

/// The tree of a fallible document.
pub open spec fn tree_result(value: Result<serde_json::Value, ConnectorError>) -> Result<
    JsonTree,
    ConnectorError,
> {
    match value {
        Ok(value) => Ok(json_tree(value)),
        Err(e) => Err(e),
    }
}

fn encode_body(value: Result<serde_json::Value, ConnectorError>) -> (r: Result<
    Option<String>,
    ConnectorError,
>)
    ensures
        body_result(r) == body_of(tree_result(value)),
{
    match value {
        Err(e) => Err(e),
        Ok(value) => match json_render(&value) {
            Some(text) => Ok(Some(text)),
            None => Err(ConnectorError::RequestEncodingFailed),
        },
    }
}

fn decode_success<Flow>(
    data: PayoutsRouterData<Flow>,
    payload: Option<PayoutsResponseData>,
) -> (r: Result<PayoutsRouterData<Flow>, ConnectorError>)
    ensures
        match payload {
            Some(payload) => r matches Ok(updated) && updated.response == Ok::<
                PayoutsResponseData,
                ErrorResponse,
            >(payload) && updated.same_but_response(&data),
            None => r == Err::<PayoutsRouterData<Flow>, ConnectorError>(
                ConnectorError::ResponseDeserializationFailed,
            ),
        },
{
    match payload {
        Some(payload) => {
            let mut updated = data;
            updated.response = Ok(payload);
            Ok(updated)
        },
        None => Err(ConnectorError::ResponseDeserializationFailed),
    }
}

impl Wise {
    /// The name of the connector.
    pub fn id(&self) -> (r: &'static str)
        ensures
            r@ == "wise"@,
    {
        "wise"
    }

    /// The credential header alone.
    pub fn get_auth_header(&self, auth_type: &ConnectorAuthType) -> (r: Result<
        Vec<Header>,
        ConnectorError,
    >)
        ensures
            match WiseAuthType::of(auth_type) {
                None => r == Err::<Vec<Header>, ConnectorError>(
                    ConnectorError::FailedToObtainAuthType,
                ),
                Some((api_key, profile_id)) => r matches Ok(headers) && headers_view(headers@)
                    == seq![(AUTHORIZATION@, MaskableView::Normal(api_key@))],
            },
    {
        match WiseAuthType::try_from(auth_type) {
            Err(e) => Err(e),
            Ok(auth) => {
                let mut headers: Vec<Header> = Vec::new();
                headers.push((String::from_str(AUTHORIZATION), Maskable::new_normal(auth.api_key)));
                assert(headers_view(headers@) =~= seq![
                    (AUTHORIZATION@, MaskableView::Normal(auth.api_key@)),
                ]);
                Ok(headers)
            },
        }
    }

    /// The base of every endpoint, from the settings.
    pub fn base_url<'a>(&self, connectors: &'a Connectors) -> (r: &'a str)
        ensures
            r@ == connectors.wise.base_url@,
    {
        connectors.wise.base_url.as_str()
    }

    /// Decodes an error response and normalizes it.
    pub fn build_error_response(&self, res: Response) -> (r: Result<ErrorResponse, ConnectorError>)
        ensures
            error_result(r) == error_response_model(&res),
    {
        let value = match json_parse(res.response.as_slice()) {
            Some(value) => value,
            None => {
                return Err(ConnectorError::ResponseDeserializationFailed);
            },
        };
        match transformers::ErrorResponse::decode(&value) {
            Some(response) => Ok(normalize_error_response(res.status_code, response)),
            None => Err(ConnectorError::ResponseDeserializationFailed),
        }
    }

    /// The headers of a call: the media type, then the API key.
    pub fn build_headers<Flow>(
        &self,
        req: &PayoutsRouterData<Flow>,
        _connectors: &Connectors,
    ) -> (r: Result<Vec<Header>, ConnectorError>)
        ensures
            headers_result(r) == wise_headers_model(&req.connector_auth_type),
    {
        let mut header: Vec<Header> = Vec::new();
        header.push(
            (
                String::from_str(CONTENT_TYPE),
                Maskable::new_normal(String::from_str(CONTENT_TYPE_JSON)),
            ),
        );
        let auth = match WiseAuthType::try_from(&req.connector_auth_type) {
            Ok(auth) => auth,
            Err(e) => {
                return Err(e);
            },
        };
        let mut api_key: Vec<Header> = Vec::new();
        api_key.push((String::from_str(AUTHORIZATION), Maskable::new_normal(auth.api_key)));
        header.append(&mut api_key);
        assert(headers_view(header@) =~= seq![
            (CONTENT_TYPE@, MaskableView::Normal(CONTENT_TYPE_JSON@)),
            (AUTHORIZATION@, MaskableView::Normal(auth.api_key@)),
        ]);
        Ok(header)
    }

    /// Wise webhooks are not parsed.
    pub fn get_webhook_object_reference_id(&self, _request: &IncomingWebhookRequestDetails) -> (r:
        Result<ObjectReferenceId, ConnectorError>)
        ensures
            r == Err::<ObjectReferenceId, ConnectorError>(ConnectorError::WebhooksNotImplemented),
    {
        Err(ConnectorError::WebhooksNotImplemented)
    }

    /// Wise webhooks are not parsed.
    pub fn get_webhook_event_type(&self, _request: &IncomingWebhookRequestDetails) -> (r: Result<
        IncomingWebhookEvent,
        ConnectorError,
    >)
        ensures
            r == Err::<IncomingWebhookEvent, ConnectorError>(
                ConnectorError::WebhooksNotImplemented,
            ),
    {
        Err(ConnectorError::WebhooksNotImplemented)
    }

    /// Wise webhooks are not parsed.
    pub fn get_webhook_resource_object(&self, _request: &IncomingWebhookRequestDetails) -> (r:
        Result<serde_json::Value, ConnectorError>)
        ensures
            r == Err::<serde_json::Value, ConnectorError>(ConnectorError::WebhooksNotImplemented),
    {
        Err(ConnectorError::WebhooksNotImplemented)
    }
}

/// Wise takes no access token: the flow that would obtain one has nothing to
/// send and changes nothing.
impl ConnectorIntegration<AccessTokenAuth, AccessTokenRequestData, AccessToken> for Wise {
    fn get_url(
        &self,
        _req: &RouterData<AccessTokenAuth, AccessTokenRequestData, AccessToken>,
        _connectors: &Connectors,
    ) -> (r: Result<String, ConnectorError>) {
        Ok(String::new())
    }

    fn get_headers(
        &self,
        _req: &RouterData<AccessTokenAuth, AccessTokenRequestData, AccessToken>,
        _connectors: &Connectors,
    ) -> (r: Result<Vec<Header>, ConnectorError>) {
        let headers: Vec<Header> = Vec::new();
        assert(headers_view(headers@) =~= Seq::empty());
        Ok(headers)
    }

    fn get_request_body(
        &self,
        _req: &RouterData<AccessTokenAuth, AccessTokenRequestData, AccessToken>,
    ) -> (r: Result<Option<String>, ConnectorError>) {
        Ok(None)
    }

    fn build_request(
        &self,
        _req: &RouterData<AccessTokenAuth, AccessTokenRequestData, AccessToken>,
        _connectors: &Connectors,
    ) -> (r: Result<Option<Request>, ConnectorError>) {
        Ok(None)
    }

    fn handle_response(
        &self,
        data: RouterData<AccessTokenAuth, AccessTokenRequestData, AccessToken>,
        _res: Response,
    ) -> (r: Result<RouterData<AccessTokenAuth, AccessTokenRequestData, AccessToken>, ConnectorError>)
    {
        Ok(data)
    }

    fn get_error_response(&self, _res: Response) -> (r: Result<ErrorResponse, ConnectorError>) {
        Ok(ErrorResponse::default())
    }

    fn pretask_request(
        &self,
        _req: &RouterData<AccessTokenAuth, AccessTokenRequestData, AccessToken>,
        _connectors: &Connectors,
        _index: u32,
    ) -> (r: Result<Option<Request>, ConnectorError>) {
        Ok(None)
    }

    fn pretask_response(
        &self,
        data: RouterData<AccessTokenAuth, AccessTokenRequestData, AccessToken>,
        _connectors: &Connectors,
        _index: u32,
        _outcome: TransportOutcome,
    ) -> (r: Result<
        RouterData<AccessTokenAuth, AccessTokenRequestData, AccessToken>,
        ConnectorError,
    >) {
        Ok(data)
    }
}

/// Wise offers no eligibility check: the flow that would ask for one has
/// nothing to send and changes nothing.
impl ConnectorIntegration<PEligibility, PayoutsData, PayoutsResponseData> for Wise {
    fn get_url(&self, _req: &PayoutsRouterData<PEligibility>, _connectors: &Connectors) -> (r:
        Result<String, ConnectorError>) {
        Ok(String::new())
    }

    fn get_headers(&self, _req: &PayoutsRouterData<PEligibility>, _connectors: &Connectors) -> (r:
        Result<Vec<Header>, ConnectorError>) {
        let headers: Vec<Header> = Vec::new();
        assert(headers_view(headers@) =~= Seq::empty());
        Ok(headers)
    }

    fn get_request_body(&self, _req: &PayoutsRouterData<PEligibility>) -> (r: Result<
        Option<String>,
        ConnectorError,
    >) {
        Ok(None)
    }

    fn build_request(
        &self,
        _req: &PayoutsRouterData<PEligibility>,
        _connectors: &Connectors,
    ) -> (r: Result<Option<Request>, ConnectorError>) {
        Ok(None)
    }

    fn handle_response(&self, data: PayoutsRouterData<PEligibility>, _res: Response) -> (r: Result<
        PayoutsRouterData<PEligibility>,
        ConnectorError,
    >) {
        Ok(data)
    }

    fn get_error_response(&self, _res: Response) -> (r: Result<ErrorResponse, ConnectorError>) {
        Ok(ErrorResponse::default())
    }

    fn pretask_request(
        &self,
        _req: &PayoutsRouterData<PEligibility>,
        _connectors: &Connectors,
        _index: u32,
    ) -> (r: Result<Option<Request>, ConnectorError>) {
        Ok(None)
    }

    fn pretask_response(
        &self,
        data: PayoutsRouterData<PEligibility>,
        _connectors: &Connectors,
        _index: u32,
        _outcome: TransportOutcome,
    ) -> (r: Result<PayoutsRouterData<PEligibility>, ConnectorError>) {
        Ok(data)
    }
}

/// The endpoint that cancels a transfer.
pub open spec fn cancel_url_model(request: &PayoutsData, connectors: &Connectors) -> Result<
    Seq<char>,
    ConnectorError,
> {
    match request.connector_payout_id {
        None => Err(ConnectorError::MissingRequiredField { field_name: "transfer_id" }),
        Some(transfer_id) => Ok(
            connectors.wise.base_url@ + "v1/transfers/"@ + transfer_id@ + "/cancel"@,
        ),
    }
}

/// The outcome of a response that carries a transfer.
pub open spec fn transfer_outcome_model(res: &Response) -> Result<
    Result<PayoutsResponseDataView, ErrorResponseView>,
    ConnectorError,
> {
    match json_document(res.response@) {
        None => Err(ConnectorError::ResponseDeserializationFailed),
        Some(tree) => decoded_payload(transformers::transfer_response_model(tree)),
    }
}

impl ConnectorIntegration<PCancel, PayoutsData, PayoutsResponseData> for Wise {
    open spec fn url_model(&self, req: &PayoutsRouterData<PCancel>, connectors: &Connectors)
        -> Result<Seq<char>, ConnectorError> {
        cancel_url_model(&req.request, connectors)
    }

    fn get_url(&self, req: &PayoutsRouterData<PCancel>, connectors: &Connectors) -> (r: Result<
        String,
        ConnectorError,
    >) {
        let transfer_id = match &req.request.connector_payout_id {
            Some(transfer_id) => transfer_id,
            None => {
                return Err(ConnectorError::MissingRequiredField { field_name: "transfer_id" });
            },
        };
        let mut url = String::from_str(self.base_url(connectors));
        url.append("v1/transfers/");
        url.append(transfer_id.as_str());
        url.append("/cancel");
        Ok(url)
    }

    open spec fn headers_model(&self, req: &PayoutsRouterData<PCancel>, connectors: &Connectors)
        -> Result<Seq<(Seq<char>, MaskableView)>, ConnectorError> {
        wise_headers_model(&req.connector_auth_type)
    }

    fn get_headers(&self, req: &PayoutsRouterData<PCancel>, connectors: &Connectors) -> (r: Result<
        Vec<Header>,
        ConnectorError,
    >) {
        self.build_headers(req, connectors)
    }

    open spec fn body_model(&self, req: &PayoutsRouterData<PCancel>) -> Result<
        Option<Seq<char>>,
        ConnectorError,
    > {
        Ok(None)
    }

    fn get_request_body(&self, req: &PayoutsRouterData<PCancel>) -> (r: Result<
        Option<String>,
        ConnectorError,
    >) {
        Ok(None)
    }

    open spec fn request_model(&self, req: &PayoutsRouterData<PCancel>, connectors: &Connectors)
        -> Result<Option<RequestView>, ConnectorError> {
        assembled_request(
            Method::Put,
            cancel_url_model(&req.request, connectors),
            wise_headers_model(&req.connector_auth_type),
            Ok(None),
        )
    }

    fn build_request(&self, req: &PayoutsRouterData<PCancel>, connectors: &Connectors) -> (r:
        Result<Option<Request>, ConnectorError>) {
        let url = match self.get_url(req, connectors) {
            Ok(url) => url,
            Err(e) => {
                return Err(e);
            },
        };
        let headers = match self.get_headers(req, connectors) {
            Ok(headers) => headers,
            Err(e) => {
                return Err(e);
            },
        };
        let request = RequestBuilder::new().method(Method::Put).url(
            url.as_str(),
        ).attach_default_headers().headers(headers).build();
        assert(request@.headers =~= default_headers_view() + headers_view(
            headers@,
        ));
        Ok(Some(request))
    }

    open spec fn response_model(&self, data: &PayoutsRouterData<PCancel>, res: &Response)
        -> Result<Result<PayoutsResponseDataView, ErrorResponseView>, ConnectorError> {
        transfer_outcome_model(res)
    }

    fn handle_response(&self, data: PayoutsRouterData<PCancel>, res: Response) -> (r: Result<
        PayoutsRouterData<PCancel>,
        ConnectorError,
    >) {
        let payload = match json_parse(res.response.as_slice()) {
            Some(value) => transformers::transfer_response(&value),
            None => None,
        };
        decode_success(data, payload)
    }

    open spec fn error_model(&self, res: &Response) -> Result<ErrorResponseView, ConnectorError> {
        error_response_model(res)
    }

    fn get_error_response(&self, res: Response) -> (r: Result<ErrorResponse, ConnectorError>) {
        self.build_error_response(res)
    }

    fn pretask_request(
        &self,
        req: &PayoutsRouterData<PCancel>,
        connectors: &Connectors,
        index: u32,
    ) -> (r: Result<Option<Request>, ConnectorError>) {
        Ok(None)
    }

    fn pretask_response(
        &self,
        data: PayoutsRouterData<PCancel>,
        connectors: &Connectors,
        index: u32,
        outcome: TransportOutcome,
    ) -> (r: Result<PayoutsRouterData<PCancel>, ConnectorError>) {
        Ok(data)
    }
}

/// The endpoint that issues quotes for the profile of the account.
pub open spec fn quote_url_model(auth_type: &ConnectorAuthType, connectors: &Connectors) -> Result<
    Seq<char>,
    ConnectorError,
> {
    match WiseAuthType::of(auth_type) {
        None => Err(ConnectorError::FailedToObtainAuthType),
        Some((api_key, profile_id)) => Ok(
            connectors.wise.base_url@ + "v3/profiles/"@ + profile_id@ + "/quotes"@,
        ),
    }
}

/// The request that obtains a quote for a payout.
pub open spec fn quote_request_model(
    auth_type: &ConnectorAuthType,
    request: &PayoutsData,
    connectors: &Connectors,
) -> Result<Option<RequestView>, ConnectorError> {
    assembled_request(
        Method::Post,
        quote_url_model(auth_type, connectors),
        wise_headers_model(auth_type),
        body_of(Ok(transformers::quote_request_tree(request))),
    )
}

/// The outcome of a response that carries a quote.
pub open spec fn quote_outcome_model(res: &Response) -> Result<
    Result<PayoutsResponseDataView, ErrorResponseView>,
    ConnectorError,
> {
    match json_document(res.response@) {
        None => Err(ConnectorError::ResponseDeserializationFailed),
        Some(tree) => decoded_payload(transformers::quote_response_model(tree)),
    }
}

impl ConnectorIntegration<PoQuote, PayoutsData, PayoutsResponseData> for Wise {
    open spec fn url_model(&self, req: &PayoutsRouterData<PoQuote>, connectors: &Connectors)
        -> Result<Seq<char>, ConnectorError> {
        quote_url_model(&req.connector_auth_type, connectors)
    }

    fn get_url(&self, req: &PayoutsRouterData<PoQuote>, connectors: &Connectors) -> (r: Result<
        String,
        ConnectorError,
    >) {
        let auth = match WiseAuthType::try_from(&req.connector_auth_type) {
            Ok(auth) => auth,
            Err(e) => {
                return Err(e);
            },
        };
        let mut url = String::from_str(self.base_url(connectors));
        url.append("v3/profiles/");
        url.append(auth.profile_id.as_str());
        url.append("/quotes");
        Ok(url)
    }

    open spec fn headers_model(&self, req: &PayoutsRouterData<PoQuote>, connectors: &Connectors)
        -> Result<Seq<(Seq<char>, MaskableView)>, ConnectorError> {
        wise_headers_model(&req.connector_auth_type)
    }

    fn get_headers(&self, req: &PayoutsRouterData<PoQuote>, connectors: &Connectors) -> (r: Result<
        Vec<Header>,
        ConnectorError,
    >) {
        self.build_headers(req, connectors)
    }

    open spec fn body_model(&self, req: &PayoutsRouterData<PoQuote>) -> Result<
        Option<Seq<char>>,
        ConnectorError,
    > {
        body_of(Ok(transformers::quote_request_tree(&req.request)))
    }

    fn get_request_body(&self, req: &PayoutsRouterData<PoQuote>) -> (r: Result<
        Option<String>,
        ConnectorError,
    >) {
        let connector_req = transformers::quote_request(&req.request);
        encode_body(connector_req)
    }

    open spec fn request_model(&self, req: &PayoutsRouterData<PoQuote>, connectors: &Connectors)
        -> Result<Option<RequestView>, ConnectorError> {
        quote_request_model(&req.connector_auth_type, &req.request, connectors)
    }

    fn build_request(&self, req: &PayoutsRouterData<PoQuote>, connectors: &Connectors) -> (r:
        Result<Option<Request>, ConnectorError>) {
        let url = match self.get_url(req, connectors) {
            Ok(url) => url,
            Err(e) => {
                return Err(e);
            },
        };
        let headers = match self.get_headers(req, connectors) {
            Ok(headers) => headers,
            Err(e) => {
                return Err(e);
            },
        };
        let body = match self.get_request_body(req) {
            Ok(body) => body,
            Err(e) => {
                return Err(e);
            },
        };
        let request = RequestBuilder::new().method(Method::Post).url(
            url.as_str(),
        ).attach_default_headers().headers(headers).body(body).build();
        assert(request@.headers =~= default_headers_view() + headers_view(
            headers@,
        ));
        Ok(Some(request))
    }

    open spec fn response_model(&self, data: &PayoutsRouterData<PoQuote>, res: &Response)
        -> Result<Result<PayoutsResponseDataView, ErrorResponseView>, ConnectorError> {
        quote_outcome_model(res)
    }

    fn handle_response(&self, data: PayoutsRouterData<PoQuote>, res: Response) -> (r: Result<
        PayoutsRouterData<PoQuote>,
        ConnectorError,
    >) {
        let payload = match json_parse(res.response.as_slice()) {
            Some(value) => transformers::quote_response(&value),
            None => None,
        };
        decode_success(data, payload)
    }

    open spec fn error_model(&self, res: &Response) -> Result<ErrorResponseView, ConnectorError> {
        error_response_model(res)
    }

    fn get_error_response(&self, res: Response) -> (r: Result<ErrorResponse, ConnectorError>) {
        self.build_error_response(res)
    }

    fn pretask_request(
        &self,
        req: &PayoutsRouterData<PoQuote>,
        connectors: &Connectors,
        index: u32,
    ) -> (r: Result<Option<Request>, ConnectorError>) {
        Ok(None)
    }

    fn pretask_response(
        &self,
        data: PayoutsRouterData<PoQuote>,
        connectors: &Connectors,
        index: u32,
        outcome: TransportOutcome,
    ) -> (r: Result<PayoutsRouterData<PoQuote>, ConnectorError>) {
        Ok(data)
    }
}

/// The endpoint that registers recipients.
pub open spec fn recipient_url_model(connectors: &Connectors) -> Result<Seq<char>, ConnectorError> {
    Ok(connectors.wise.base_url@ + "v1/accounts"@)
}

/// The outcome of a response that carries a recipient.
pub open spec fn recipient_outcome_model(res: &Response) -> Result<
    Result<PayoutsResponseDataView, ErrorResponseView>,
    ConnectorError,
> {
    match json_document(res.response@) {
        None => Err(ConnectorError::ResponseDeserializationFailed),
        Some(tree) => decoded_payload(transformers::recipient_response_model(tree)),
    }
}

impl ConnectorIntegration<PoRecipient, PayoutsData, PayoutsResponseData> for Wise {
    open spec fn url_model(&self, req: &PayoutsRouterData<PoRecipient>, connectors: &Connectors)
        -> Result<Seq<char>, ConnectorError> {
        recipient_url_model(connectors)
    }

    fn get_url(&self, _req: &PayoutsRouterData<PoRecipient>, connectors: &Connectors) -> (r:
        Result<String, ConnectorError>) {
        let mut url = String::from_str(self.base_url(connectors));
        url.append("v1/accounts");
        Ok(url)
    }

    open spec fn headers_model(&self, req: &PayoutsRouterData<PoRecipient>, connectors: &Connectors)
        -> Result<Seq<(Seq<char>, MaskableView)>, ConnectorError> {
        wise_headers_model(&req.connector_auth_type)
    }

    fn get_headers(&self, req: &PayoutsRouterData<PoRecipient>, connectors: &Connectors) -> (r: Result<
        Vec<Header>,
        ConnectorError,
    >) {
        self.build_headers(req, connectors)
    }

    open spec fn body_model(&self, req: &PayoutsRouterData<PoRecipient>) -> Result<
        Option<Seq<char>>,
        ConnectorError,
    > {
        body_of(transformers::recipient_request_tree(&req.connector_auth_type, &req.request))
    }

    fn get_request_body(&self, req: &PayoutsRouterData<PoRecipient>) -> (r: Result<
        Option<String>,
        ConnectorError,
    >) {
        let connector_req = transformers::recipient_request(&req.connector_auth_type, &req.request);
        encode_body(connector_req)
    }

    open spec fn request_model(&self, req: &PayoutsRouterData<PoRecipient>, connectors: &Connectors)
        -> Result<Option<RequestView>, ConnectorError> {
        assembled_request(
            Method::Post,
            recipient_url_model(connectors),
            wise_headers_model(&req.connector_auth_type),
            body_of(transformers::recipient_request_tree(&req.connector_auth_type, &req.request)),
        )
    }

    fn build_request(&self, req: &PayoutsRouterData<PoRecipient>, connectors: &Connectors) -> (r:
        Result<Option<Request>, ConnectorError>) {
        let url = match self.get_url(req, connectors) {
            Ok(url) => url,
            Err(e) => {
                return Err(e);
            },
        };
        let headers = match self.get_headers(req, connectors) {
            Ok(headers) => headers,
            Err(e) => {
                return Err(e);
            },
        };
        let body = match self.get_request_body(req) {
            Ok(body) => body,
            Err(e) => {
                return Err(e);
            },
        };
        let request = RequestBuilder::new().method(Method::Post).url(
            url.as_str(),
        ).attach_default_headers().headers(headers).body(body).build();
        assert(request@.headers =~= default_headers_view() + headers_view(
            headers@,
        ));
        Ok(Some(request))
    }

    open spec fn response_model(&self, data: &PayoutsRouterData<PoRecipient>, res: &Response)
        -> Result<Result<PayoutsResponseDataView, ErrorResponseView>, ConnectorError> {
        recipient_outcome_model(res)
    }

    fn handle_response(&self, data: PayoutsRouterData<PoRecipient>, res: Response) -> (r: Result<
        PayoutsRouterData<PoRecipient>,
        ConnectorError,
    >) {
        let payload = match json_parse(res.response.as_slice()) {
            Some(value) => transformers::recipient_response(&value),
            None => None,
        };
        decode_success(data, payload)
    }

    open spec fn error_model(&self, res: &Response) -> Result<ErrorResponseView, ConnectorError> {
        error_response_model(res)
    }

    fn get_error_response(&self, res: Response) -> (r: Result<ErrorResponse, ConnectorError>) {
        self.build_error_response(res)
    }

    fn pretask_request(
        &self,
        req: &PayoutsRouterData<PoRecipient>,
        connectors: &Connectors,
        index: u32,
    ) -> (r: Result<Option<Request>, ConnectorError>) {
        Ok(None)
    }

    fn pretask_response(
        &self,
        data: PayoutsRouterData<PoRecipient>,
        connectors: &Connectors,
        index: u32,
        outcome: TransportOutcome,
    ) -> (r: Result<PayoutsRouterData<PoRecipient>, ConnectorError>) {
        Ok(data)
    }
}

/// The endpoint that creates transfers.
pub open spec fn create_url_model(connectors: &Connectors) -> Result<Seq<char>, ConnectorError> {
    Ok(connectors.wise.base_url@ + "/v1/transfers"@)
}

/// What the transport's outcome of the quote call means: the quote, the
/// processor's normalized error, or the failure to read either.
pub open spec fn quote_call_model(outcome: &TransportOutcome) -> Result<
    Result<PayoutsResponseDataView, ErrorResponseView>,
    ConnectorError,
> {
    match outcome {
        TransportOutcome::Success(res) => quote_outcome_model(res),
        TransportOutcome::Failure(res) => match error_response_model(res) {
            Ok(error) => Ok(Err(error)),
            Err(e) => Err(e),
        },
        TransportOutcome::Error => Err(ConnectorError::ProcessingStepFailed),
    }
}

/// What the quote call means for the transfer that waits for it: with a
/// quote, the request goes on under the quote's identifier. Without one the
/// transfer fails: with the error of whatever could not be read, or, where
/// the processor refused the quote, as a failed processing step.
pub open spec fn create_pretask_model(request: &PayoutsData, outcome: &TransportOutcome)
    -> Result<PayoutsDataView, ConnectorError> {
    match quote_call_model(outcome) {
        Err(e) => Err(e),
        Ok(Ok(quote)) => Ok(
            PayoutsDataView { quote_id: Some(quote.connector_payout_id), ..request@ },
        ),
        Ok(Err(_)) => Err(ConnectorError::ProcessingStepFailed),
    }
}

impl ConnectorIntegration<PCreate, PayoutsData, PayoutsResponseData> for Wise {
    open spec fn url_model(&self, req: &PayoutsRouterData<PCreate>, connectors: &Connectors)
        -> Result<Seq<char>, ConnectorError> {
        create_url_model(connectors)
    }

    fn get_url(&self, _req: &PayoutsRouterData<PCreate>, connectors: &Connectors) -> (r: Result<
        String,
        ConnectorError,
    >) {
        let mut url = String::from_str(self.base_url(connectors));
        url.append("/v1/transfers");
        Ok(url)
    }

    open spec fn headers_model(&self, req: &PayoutsRouterData<PCreate>, connectors: &Connectors)
        -> Result<Seq<(Seq<char>, MaskableView)>, ConnectorError> {
        wise_headers_model(&req.connector_auth_type)
    }

    fn get_headers(&self, req: &PayoutsRouterData<PCreate>, connectors: &Connectors) -> (r: Result<
        Vec<Header>,
        ConnectorError,
    >) {
        self.build_headers(req, connectors)
    }

    open spec fn body_model(&self, req: &PayoutsRouterData<PCreate>) -> Result<
        Option<Seq<char>>,
        ConnectorError,
    > {
        body_of(transformers::create_request_tree(&req.request))
    }

    fn get_request_body(&self, req: &PayoutsRouterData<PCreate>) -> (r: Result<
        Option<String>,
        ConnectorError,
    >) {
        let connector_req = transformers::create_request(&req.request);
        encode_body(connector_req)
    }

    open spec fn request_model(&self, req: &PayoutsRouterData<PCreate>, connectors: &Connectors)
        -> Result<Option<RequestView>, ConnectorError> {
        assembled_request(
            Method::Post,
            create_url_model(connectors),
            wise_headers_model(&req.connector_auth_type),
            body_of(transformers::create_request_tree(&req.request)),
        )
    }

    fn build_request(&self, req: &PayoutsRouterData<PCreate>, connectors: &Connectors) -> (r:
        Result<Option<Request>, ConnectorError>) {
        let url = match self.get_url(req, connectors) {
            Ok(url) => url,
            Err(e) => {
                return Err(e);
            },
        };
        let headers = match self.get_headers(req, connectors) {
            Ok(headers) => headers,
            Err(e) => {
                return Err(e);
            },
        };
        let body = match self.get_request_body(req) {
            Ok(body) => body,
            Err(e) => {
                return Err(e);
            },
        };
        let request = RequestBuilder::new().method(Method::Post).url(
            url.as_str(),
        ).attach_default_headers().headers(headers).body(body).build();
        assert(request@.headers =~= default_headers_view() + headers_view(
            headers@,
        ));
        Ok(Some(request))
    }

    open spec fn response_model(&self, data: &PayoutsRouterData<PCreate>, res: &Response)
        -> Result<Result<PayoutsResponseDataView, ErrorResponseView>, ConnectorError> {
        transfer_outcome_model(res)
    }

    fn handle_response(&self, data: PayoutsRouterData<PCreate>, res: Response) -> (r: Result<
        PayoutsRouterData<PCreate>,
        ConnectorError,
    >) {
        let payload = match json_parse(res.response.as_slice()) {
            Some(value) => transformers::transfer_response(&value),
            None => None,
        };
        decode_success(data, payload)
    }

    open spec fn error_model(&self, res: &Response) -> Result<ErrorResponseView, ConnectorError> {
        error_response_model(res)
    }

    fn get_error_response(&self, res: Response) -> (r: Result<ErrorResponse, ConnectorError>) {
        self.build_error_response(res)
    }

    open spec fn pretask_request_model(
        &self,
        req: &PayoutsRouterData<PCreate>,
        connectors: &Connectors,
        index: u32,
    ) -> Result<Option<RequestView>, ConnectorError> {
        if index == 0 {
            quote_request_model(&req.connector_auth_type, &req.request, connectors)
        } else {
            Ok(None)
        }
    }

    /// The one dependent call of a transfer: its quote.
    fn pretask_request(
        &self,
        req: &PayoutsRouterData<PCreate>,
        connectors: &Connectors,
        index: u32,
    ) -> (r: Result<Option<Request>, ConnectorError>) {
        if index != 0 {
            return Ok(None);
        }
        let quote_router_data: PayoutsRouterData<PoQuote> = router_data_type_conversion(
            req,
            req.request.clone(),
            Err(ErrorResponse::default()),
        );
        match execute_connector_processing_step(
            self,
            quote_router_data,
            connectors,
            CallConnectorAction::Trigger,
        ) {
            Err(e) => Err(e),
            Ok(Progress::Send { call, request }) => Ok(Some(request)),
            Ok(Progress::Done(_)) => {
                proof {
                    assert(false);
                }
                Ok(None)
            },
        }
    }

    open spec fn pretask_model(
        &self,
        data: &PayoutsRouterData<PCreate>,
        connectors: &Connectors,
        index: u32,
        outcome: &TransportOutcome,
    ) -> Result<PayoutsDataView, ConnectorError> {
        if index == 0 {
            create_pretask_model(&data.request, outcome)
        } else {
            Ok(data.request@)
        }
    }

    /// Completes the quote call and stores the quote's identifier in the
    /// request. A quote call that failed, or that the processor refused,
    /// fails the transfer.
    fn pretask_response(
        &self,
        data: PayoutsRouterData<PCreate>,
        connectors: &Connectors,
        index: u32,
        outcome: TransportOutcome,
    ) -> (r: Result<PayoutsRouterData<PCreate>, ConnectorError>) {
        if index != 0 {
            return Ok(data);
        }
        let quote_router_data: PayoutsRouterData<PoQuote> = router_data_type_conversion(
            &data,
            data.request.clone(),
            Err(ErrorResponse::default()),
        );
        let call = PendingCall { router_data: quote_router_data, stage: Stage::Main };
        match continue_connector_processing_step(self, call, connectors, outcome) {
            Err(e) => Err(e),
            Ok(Progress::Done(quote_router_resp)) => match quote_router_resp.response {
                Ok(resp) => {
                    let mut updated = data;
                    updated.request.quote_id = Some(resp.connector_payout_id);
                    Ok(updated)
                },
                Err(_) => Err(ConnectorError::ProcessingStepFailed),
            },
            Ok(Progress::Send { call, request }) => {
                proof {
                    assert(false);
                }
                Err(ConnectorError::ProcessingStepFailed)
            },
        }
    }
}

/// The endpoint that funds a transfer of the profile of the account.
pub open spec fn fulfill_url_model(
    auth_type: &ConnectorAuthType,
    request: &PayoutsData,
    connectors: &Connectors,
) -> Result<Seq<char>, ConnectorError> {
    match WiseAuthType::of(auth_type) {
        None => Err(ConnectorError::FailedToObtainAuthType),
        Some((api_key, profile_id)) => match request.connector_payout_id {
            None => Err(ConnectorError::MissingRequiredField { field_name: "transfer_id" }),
            Some(transfer_id) => Ok(
                connectors.wise.base_url@ + "v3/profiles/"@ + profile_id@ + "/transfers/"@
                    + transfer_id@ + "/payments"@,
            ),
        },
    }
}

/// The outcome of a response to the funding of a transfer.
pub open spec fn fulfill_outcome_model(res: &Response) -> Result<
    Result<PayoutsResponseDataView, ErrorResponseView>,
    ConnectorError,
> {
    match json_document(res.response@) {
        None => Err(ConnectorError::ResponseDeserializationFailed),
        Some(tree) => decoded_payload(transformers::fulfill_response_model(tree)),
    }
}

impl ConnectorIntegration<PFulfill, PayoutsData, PayoutsResponseData> for Wise {
    open spec fn url_model(&self, req: &PayoutsRouterData<PFulfill>, connectors: &Connectors)
        -> Result<Seq<char>, ConnectorError> {
        fulfill_url_model(&req.connector_auth_type, &req.request, connectors)
    }

    fn get_url(&self, req: &PayoutsRouterData<PFulfill>, connectors: &Connectors) -> (r: Result<
        String,
        ConnectorError,
    >) {
        let auth = match WiseAuthType::try_from(&req.connector_auth_type) {
            Ok(auth) => auth,
            Err(e) => {
                return Err(e);
            },
        };
        let transfer_id = match &req.request.connector_payout_id {
            Some(transfer_id) => transfer_id,
            None => {
                return Err(ConnectorError::MissingRequiredField { field_name: "transfer_id" });
            },
        };
        let mut url = String::from_str(self.base_url(connectors));
        url.append("v3/profiles/");
        url.append(auth.profile_id.as_str());
        url.append("/transfers/");
        url.append(transfer_id.as_str());
        url.append("/payments");
        Ok(url)
    }

    open spec fn headers_model(&self, req: &PayoutsRouterData<PFulfill>, connectors: &Connectors)
        -> Result<Seq<(Seq<char>, MaskableView)>, ConnectorError> {
        wise_headers_model(&req.connector_auth_type)
    }

    fn get_headers(&self, req: &PayoutsRouterData<PFulfill>, connectors: &Connectors) -> (r: Result<
        Vec<Header>,
        ConnectorError,
    >) {
        self.build_headers(req, connectors)
    }

    open spec fn body_model(&self, req: &PayoutsRouterData<PFulfill>) -> Result<
        Option<Seq<char>>,
        ConnectorError,
    > {
        body_of(Ok(transformers::fulfill_request_tree()))
    }

    fn get_request_body(&self, req: &PayoutsRouterData<PFulfill>) -> (r: Result<
        Option<String>,
        ConnectorError,
    >) {
        let connector_req = transformers::fulfill_request();
        encode_body(connector_req)
    }

    open spec fn request_model(&self, req: &PayoutsRouterData<PFulfill>, connectors: &Connectors)
        -> Result<Option<RequestView>, ConnectorError> {
        assembled_request(
            Method::Post,
            fulfill_url_model(&req.connector_auth_type, &req.request, connectors),
            wise_headers_model(&req.connector_auth_type),
            body_of(Ok(transformers::fulfill_request_tree())),
        )
    }

    fn build_request(&self, req: &PayoutsRouterData<PFulfill>, connectors: &Connectors) -> (r:
        Result<Option<Request>, ConnectorError>) {
        let url = match self.get_url(req, connectors) {
            Ok(url) => url,
            Err(e) => {
                return Err(e);
            },
        };
        let headers = match self.get_headers(req, connectors) {
            Ok(headers) => headers,
            Err(e) => {
                return Err(e);
            },
        };
        let body = match self.get_request_body(req) {
            Ok(body) => body,
            Err(e) => {
                return Err(e);
            },
        };
        let request = RequestBuilder::new().method(Method::Post).url(
            url.as_str(),
        ).attach_default_headers().headers(headers).body(body).build();
        assert(request@.headers =~= default_headers_view() + headers_view(
            headers@,
        ));
        Ok(Some(request))
    }

    open spec fn response_model(&self, data: &PayoutsRouterData<PFulfill>, res: &Response)
        -> Result<Result<PayoutsResponseDataView, ErrorResponseView>, ConnectorError> {
        fulfill_outcome_model(res)
    }

    fn handle_response(&self, data: PayoutsRouterData<PFulfill>, res: Response) -> (r: Result<
        PayoutsRouterData<PFulfill>,
        ConnectorError,
    >) {
        let payload = match json_parse(res.response.as_slice()) {
            Some(value) => transformers::fulfill_response(&value),
            None => None,
        };
        decode_success(data, payload)
    }

    open spec fn error_model(&self, res: &Response) -> Result<ErrorResponseView, ConnectorError> {
        error_response_model(res)
    }

    fn get_error_response(&self, res: Response) -> (r: Result<ErrorResponse, ConnectorError>) {
        self.build_error_response(res)
    }

    fn pretask_request(
        &self,
        req: &PayoutsRouterData<PFulfill>,
        connectors: &Connectors,
        index: u32,
    ) -> (r: Result<Option<Request>, ConnectorError>) {
        Ok(None)
    }

    fn pretask_response(
        &self,
        data: PayoutsRouterData<PFulfill>,
        connectors: &Connectors,
        index: u32,
        outcome: TransportOutcome,
    ) -> (r: Result<PayoutsRouterData<PFulfill>, ConnectorError>) {
        Ok(data)
    }
}

/// Law: a transfer obtains its quote first, once.
///
/// Creating a transfer starts with exactly one dependent call, the quote
/// request, unless that request cannot be built. What follows the quote call
/// is never another dependent call. With a quote, the main request goes to
/// the transfers endpoint and its body names the identifier that the quote
/// response carried. Without a quote the operation fails: no main request is
/// built, and nothing completes. Where the processor refused the quote the
/// failure is that of a processing step.
pub proof fn lemma_create_obtains_its_quote_first(
    wise: &Wise,
    router_data: PayoutsRouterData<PCreate>,
    connectors: &Connectors,
    outcome: TransportOutcome,
    started: Result<Progress<PCreate, PayoutsData, PayoutsResponseData>, ConnectorError>,
    continued: Result<Progress<PCreate, PayoutsData, PayoutsResponseData>, ConnectorError>,
)
    requires
        execute_post(wise, router_data, connectors, CallConnectorAction::Trigger, started),
        started matches Ok(Progress::Send { call, request }) ==> continue_post(
            wise,
            call,
            connectors,
            outcome,
            continued,
        ),
    ensures
        match quote_request_model(&router_data.connector_auth_type, &router_data.request, connectors) {
            Err(e) => started == Err::<
                Progress<PCreate, PayoutsData, PayoutsResponseData>,
                ConnectorError,
            >(e),
            Ok(quote_request) => {
                &&& started matches Ok(Progress::Send { call, request })
                &&& call.stage == Stage::Pretask(0)
                &&& call.router_data == router_data
                &&& Some(request@) == quote_request
            },
        },
        started is Ok ==> match quote_call_model(&outcome) {
            Err(e) => continued == Err::<
                Progress<PCreate, PayoutsData, PayoutsResponseData>,
                ConnectorError,
            >(e),
            Ok(Err(_)) => continued == Err::<
                Progress<PCreate, PayoutsData, PayoutsResponseData>,
                ConnectorError,
            >(ConnectorError::ProcessingStepFailed),
            Ok(Ok(quote)) => match continued {
                Ok(Progress::Send { call, request }) => {
                    &&& call.stage == Stage::Main
                    &&& call.router_data.request@ == (PayoutsDataView {
                        quote_id: Some(quote.connector_payout_id),
                        ..router_data.request@
                    })
                    &&& request@.url == connectors.wise.base_url@ + "/v1/transfers"@
                    &&& transformers::create_request_tree(&call.router_data.request) matches Ok(
                        JsonTree::Object(members),
                    )
                    &&& members["quoteUuid"@] == JsonTree::String(quote.connector_payout_id)
                    &&& request@.payload == json_text(JsonTree::Object(members))
                },
                Ok(Progress::Done(_)) => false,
                Err(e) => e == ConnectorError::FailedToObtainAuthType || e
                    == ConnectorError::RequestEncodingFailed || e
                    == (ConnectorError::MissingRequiredField { field_name: "recipient_id" }),
            },
        },
{
    transformers::lemma_request_keys_differ();
}

} // verus!
