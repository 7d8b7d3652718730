//! The capability interface that every adapter implements, and the
//! orchestrator that drives one operation through it.
//!
//! The orchestrator performs no I/O. It runs an operation up to the point
//! where a request must go out, hands that request to the caller, and takes
//! the transport's outcome to carry on. An operation is the adapter's
//! dependent calls (pretasks), one after the other, followed by the main
//! cycle: build, send, parse.

use vstd::prelude::*;

use crate::errors::ConnectorError;
use crate::request::{
    Header, MaskableView, Method, Request, RequestView, default_headers_view, headers_view,
};
use crate::types::{
    CallConnectorAction, Connectors, ErrorResponse, ErrorResponseView, Payload, Response,
    RouterData, TransportOutcome, option_text, outcome_view,
};

verus! {

/// The view of a fallible text.
pub open spec fn text_result(r: Result<String, ConnectorError>) -> Result<
    Seq<char>,
    ConnectorError,
> {
    match r {
        Ok(text) => Ok(text@),
        Err(e) => Err(e),
    }
}

/// The view of a fallible header list.
pub open spec fn headers_result(r: Result<Vec<Header>, ConnectorError>) -> Result<
    Seq<(Seq<char>, MaskableView)>,
    ConnectorError,
> {
    match r {
        Ok(headers) => Ok(headers_view(headers@)),
        Err(e) => Err(e),
    }
}

/// The view of a fallible optional body.
pub open spec fn body_result(r: Result<Option<String>, ConnectorError>) -> Result<
    Option<Seq<char>>,
    ConnectorError,
> {
    match r {
        Ok(body) => Ok(option_text(body)),
        Err(e) => Err(e),
    }
}

/// The view of a fallible optional request.
pub open spec fn request_result(r: Result<Option<Request>, ConnectorError>) -> Result<
    Option<RequestView>,
    ConnectorError,
> {
    match r {
        Ok(Some(request)) => Ok(Some(request@)),
        Ok(None) => Ok(None),
        Err(e) => Err(e),
    }
}

/// The view of a fallible normalized error.
pub open spec fn error_result(r: Result<ErrorResponse, ConnectorError>) -> Result<
    ErrorResponseView,
    ConnectorError,
> {
    match r {
        Ok(error) => Ok(error@),
        Err(e) => Err(e),
    }
}

/// The request that method, URL, headers and body compose to, or the first
/// error among URL, headers and body, in that order. The headers that every
/// request carries come first.
pub open spec fn assembled_request(
    method: Method,
    url: Result<Seq<char>, ConnectorError>,
    headers: Result<Seq<(Seq<char>, MaskableView)>, ConnectorError>,
    body: Result<Option<Seq<char>>, ConnectorError>,
) -> Result<Option<RequestView>, ConnectorError> {
    match url {
        Err(e) => Err(e),
        Ok(url) => match headers {
            Err(e) => Err(e),
            Ok(headers) => match body {
                Err(e) => Err(e),
                Ok(payload) => Ok(
                    Some(
                        RequestView {
                            url,
                            headers: default_headers_view() + headers,
                            payload,
                            method,
                        },
                    ),
                ),
            },
        },
    }
}

/// The contract between the engine and one adapter for one flow.
///
/// Every operation comes with a model that fixes its result as a function of
/// its inputs: calling it again on the same context and the same settings
/// gives the same URL, headers, body and request. The models that an adapter
/// leaves as they are describe a flow that the adapter does not support:
/// nothing to send, nothing to change.
pub trait ConnectorIntegration<Flow, Req: Payload, Res: Payload> {
    /// The endpoint of the call. Unless an adapter says otherwise: empty.
    open spec fn url_model(
        &self,
        req: &RouterData<Flow, Req, Res>,
        connectors: &Connectors,
    ) -> Result<Seq<char>, ConnectorError> {
        Ok(Seq::empty())
    }

    /// Builds the fully-qualified endpoint.
    fn get_url(&self, req: &RouterData<Flow, Req, Res>, connectors: &Connectors) -> (r: Result<
        String,
        ConnectorError,
    >)
        ensures
            text_result(r) == self.url_model(req, connectors),
    ;

    /// The headers of the call, in order. Unless an adapter says otherwise:
    /// none.
    open spec fn headers_model(
        &self,
        req: &RouterData<Flow, Req, Res>,
        connectors: &Connectors,
    ) -> Result<Seq<(Seq<char>, MaskableView)>, ConnectorError> {
        Ok(Seq::empty())
    }

    /// Builds the headers: content type and credential.
    fn get_headers(&self, req: &RouterData<Flow, Req, Res>, connectors: &Connectors) -> (r: Result<
        Vec<Header>,
        ConnectorError,
    >)
        ensures
            headers_result(r) == self.headers_model(req, connectors),
    ;

    /// The serialized payload of the call, if it has one. Unless an adapter
    /// says otherwise: none.
    open spec fn body_model(&self, req: &RouterData<Flow, Req, Res>) -> Result<
        Option<Seq<char>>,
        ConnectorError,
    > {
        Ok(None)
    }

    /// Serializes the payload.
    fn get_request_body(&self, req: &RouterData<Flow, Req, Res>) -> (r: Result<
        Option<String>,
        ConnectorError,
    >)
        ensures
            body_result(r) == self.body_model(req),
    ;

    /// The request of the main cycle; `None` where the adapter has nothing
    /// to send for this flow. Unless an adapter says otherwise: nothing.
    open spec fn request_model(
        &self,
        req: &RouterData<Flow, Req, Res>,
        connectors: &Connectors,
    ) -> Result<Option<RequestView>, ConnectorError> {
        Ok(None)
    }

    /// Composes method, URL, headers and body into a request. Performs no I/O.
    fn build_request(&self, req: &RouterData<Flow, Req, Res>, connectors: &Connectors) -> (r:
        Result<Option<Request>, ConnectorError>)
        ensures
            request_result(r) == self.request_model(req, connectors),
    ;

    /// The outcome that a successful response gives the context. Unless an
    /// adapter says otherwise: the outcome it had.
    open spec fn response_model(
        &self,
        data: &RouterData<Flow, Req, Res>,
        res: &Response,
    ) -> Result<Result<Res::V, ErrorResponseView>, ConnectorError> {
        Ok(outcome_view(data.response))
    }

    /// Decodes a successful response and stores the payload it maps to as the
    /// context's outcome. Nothing else in the context changes.
    fn handle_response(&self, data: RouterData<Flow, Req, Res>, res: Response) -> (r: Result<
        RouterData<Flow, Req, Res>,
        ConnectorError,
    >)
        ensures
            match r {
                Ok(updated) => self.response_model(&data, &res) == Ok::<
                    Result<Res::V, ErrorResponseView>,
                    ConnectorError,
                >(outcome_view(updated.response)) && updated.same_but_response(&data),
                Err(e) => self.response_model(&data, &res) == Err::<
                    Result<Res::V, ErrorResponseView>,
                    ConnectorError,
                >(e),
            },
    ;

    /// The normalized form of an error response. Unless an adapter says
    /// otherwise: the placeholder error.
    open spec fn error_model(&self, res: &Response) -> Result<ErrorResponseView, ConnectorError> {
        Ok(ErrorResponse::default_view())
    }

    /// Decodes an error response and normalizes it.
    fn get_error_response(&self, res: Response) -> (r: Result<ErrorResponse, ConnectorError>)
        ensures
            error_result(r) == self.error_model(&res),
    ;

    /// The request of the dependent call number `index`; `None` where the
    /// operation has no such call. Unless an adapter says otherwise: none.
    open spec fn pretask_request_model(
        &self,
        req: &RouterData<Flow, Req, Res>,
        connectors: &Connectors,
        index: u32,
    ) -> Result<Option<RequestView>, ConnectorError> {
        Ok(None)
    }

    /// Builds the request of the dependent call number `index`, counted from
    /// zero. Performs no I/O.
    fn pretask_request(
        &self,
        req: &RouterData<Flow, Req, Res>,
        connectors: &Connectors,
        index: u32,
    ) -> (r: Result<Option<Request>, ConnectorError>)
        ensures
            request_result(r) == self.pretask_request_model(req, connectors, index),
    ;

    /// The request payload that the dependent call number `index` leaves the
    /// operation with, or the error that its failure ends the operation
    /// with. Unless an adapter says otherwise: the payload as it was.
    open spec fn pretask_model(
        &self,
        data: &RouterData<Flow, Req, Res>,
        connectors: &Connectors,
        index: u32,
        outcome: &TransportOutcome,
    ) -> Result<Req::V, ConnectorError> {
        Ok(data.request@)
    }

    /// Takes the outcome of the dependent call number `index`.
    ///
    /// On success the request payload is updated and nothing else. A
    /// dependent call that failed, in whatever way, is an error: the
    /// operation it belongs to ends there.
    fn pretask_response(
        &self,
        data: RouterData<Flow, Req, Res>,
        connectors: &Connectors,
        index: u32,
        outcome: TransportOutcome,
    ) -> (r: Result<RouterData<Flow, Req, Res>, ConnectorError>)
        ensures
            match r {
                Ok(updated) => self.pretask_model(&data, connectors, index, &outcome) == Ok::<
                    Req::V,
                    ConnectorError,
                >(updated.request@) && updated.same_but_request(&data),
                Err(e) => self.pretask_model(&data, connectors, index, &outcome) == Err::<
                    Req::V,
                    ConnectorError,
                >(e),
            },
    ;
}

/// Where in an operation a request goes out.
#[derive(Clone, Copy, Debug, PartialEq, Eq)]
pub enum Stage {
    /// The dependent call with this number, counted from zero.
    Pretask(u32),
    /// The main call.
    Main,
}

/// An operation that waits for the outcome of a request.
#[derive(Debug, PartialEq, Eq)]
pub struct PendingCall<Flow, Req, Res> {
    pub router_data: RouterData<Flow, Req, Res>,
    pub stage: Stage,
}

/// How far an operation has come.
#[derive(Debug, PartialEq, Eq)]
pub enum Progress<Flow, Req, Res> {
    /// The request must be sent; the operation goes on with its outcome.
    Send { call: PendingCall<Flow, Req, Res>, request: Request },
    /// The operation is complete; this is its context.
    Done(RouterData<Flow, Req, Res>),
}

/// What entering the main cycle with context `router_data` results in: the
/// builder's error, the unchanged context where there is nothing to send, or
/// the request to send.
pub open spec fn main_cycle_post<Flow, Req: Payload, Res: Payload, C: ConnectorIntegration<Flow, Req, Res>>(
    integration: &C,
    router_data: RouterData<Flow, Req, Res>,
    connectors: &Connectors,
    r: Result<Progress<Flow, Req, Res>, ConnectorError>,
) -> bool {
    match integration.request_model(&router_data, connectors) {
        Err(e) => r == Err::<Progress<Flow, Req, Res>, ConnectorError>(e),
        Ok(None) => r == Ok::<Progress<Flow, Req, Res>, ConnectorError>(
            Progress::Done(router_data),
        ),
        Ok(Some(expected)) => r matches Ok(Progress::Send { call, request }) && call.router_data
            == router_data && call.stage == Stage::Main && request@ == expected,
    }
}

/// What running the dependent calls from number `index` on results in: the
/// next dependent request, or the main cycle where none is left.
pub open spec fn pretasks_post<Flow, Req: Payload, Res: Payload, C: ConnectorIntegration<Flow, Req, Res>>(
    integration: &C,
    router_data: RouterData<Flow, Req, Res>,
    connectors: &Connectors,
    index: u32,
    r: Result<Progress<Flow, Req, Res>, ConnectorError>,
) -> bool {
    match integration.pretask_request_model(&router_data, connectors, index) {
        Err(e) => r == Err::<Progress<Flow, Req, Res>, ConnectorError>(e),
        Ok(None) => main_cycle_post(integration, router_data, connectors, r),
        Ok(Some(expected)) => r matches Ok(Progress::Send { call, request }) && call.router_data
            == router_data && call.stage == Stage::Pretask(index) && request@ == expected,
    }
}

/// What follows a dependent call that succeeded and left the context as
/// `updated`: the next dependent call, or the main cycle.
pub open spec fn after_pretask_post<
    Flow,
    Req: Payload,
    Res: Payload,
    C: ConnectorIntegration<Flow, Req, Res>,
>(
    integration: &C,
    updated: RouterData<Flow, Req, Res>,
    connectors: &Connectors,
    index: u32,
    r: Result<Progress<Flow, Req, Res>, ConnectorError>,
) -> bool {
    if index < u32::MAX {
        pretasks_post(integration, updated, connectors, (index + 1) as u32, r)
    } else {
        main_cycle_post(integration, updated, connectors, r)
    }
}

/// What starting an operation results in.
pub open spec fn execute_post<Flow, Req: Payload, Res: Payload, C: ConnectorIntegration<Flow, Req, Res>>(
    integration: &C,
    router_data: RouterData<Flow, Req, Res>,
    connectors: &Connectors,
    call_connector_action: CallConnectorAction,
    r: Result<Progress<Flow, Req, Res>, ConnectorError>,
) -> bool {
    match call_connector_action {
        CallConnectorAction::Skip => r == Ok::<Progress<Flow, Req, Res>, ConnectorError>(
            Progress::Done(router_data),
        ),
        CallConnectorAction::Trigger => pretasks_post(integration, router_data, connectors, 0, r),
    }
}

/// What the outcome of the main call results in: the parsed success or the
/// normalized error as the context's outcome, never both, or the error of
/// whichever parser ran.
pub open spec fn main_outcome_post<
    Flow,
    Req: Payload,
    Res: Payload,
    C: ConnectorIntegration<Flow, Req, Res>,
>(
    integration: &C,
    router_data: RouterData<Flow, Req, Res>,
    outcome: TransportOutcome,
    r: Result<Progress<Flow, Req, Res>, ConnectorError>,
) -> bool {
    match outcome {
        TransportOutcome::Success(res) => match integration.response_model(&router_data, &res) {
            Err(e) => r == Err::<Progress<Flow, Req, Res>, ConnectorError>(e),
            Ok(expected) => r matches Ok(Progress::Done(updated)) && outcome_view(
                updated.response,
            ) == expected && updated.same_but_response(&router_data),
        },
        TransportOutcome::Failure(res) => match integration.error_model(&res) {
            Err(e) => r == Err::<Progress<Flow, Req, Res>, ConnectorError>(e),
            Ok(expected) => r matches Ok(Progress::Done(updated)) && updated.response matches Err(
                error,
            ) && error@ == expected && updated.same_but_response(&router_data),
        },
        TransportOutcome::Error => r == Err::<Progress<Flow, Req, Res>, ConnectorError>(
            ConnectorError::ProcessingStepFailed,
        ),
    }
}

/// What the outcome of a dependent call results in: the error that the
/// adapter ends the operation with, or whatever follows with the updated
/// request payload.
pub open spec fn pretask_outcome_post<
    Flow,
    Req: Payload,
    Res: Payload,
    C: ConnectorIntegration<Flow, Req, Res>,
>(
    integration: &C,
    router_data: RouterData<Flow, Req, Res>,
    connectors: &Connectors,
    index: u32,
    outcome: TransportOutcome,
    r: Result<Progress<Flow, Req, Res>, ConnectorError>,
) -> bool {
    match integration.pretask_model(&router_data, connectors, index, &outcome) {
        Err(e) => r == Err::<Progress<Flow, Req, Res>, ConnectorError>(e),
        Ok(request) => exists|updated: RouterData<Flow, Req, Res>|
            updated.request@ == request && updated.same_but_request(&router_data)
                && #[trigger] after_pretask_post(integration, updated, connectors, index, r),
    }
}

/// What handing an outcome to a waiting operation results in.
pub open spec fn continue_post<Flow, Req: Payload, Res: Payload, C: ConnectorIntegration<Flow, Req, Res>>(
    integration: &C,
    call: PendingCall<Flow, Req, Res>,
    connectors: &Connectors,
    outcome: TransportOutcome,
    r: Result<Progress<Flow, Req, Res>, ConnectorError>,
) -> bool {
    match call.stage {
        Stage::Main => main_outcome_post(integration, call.router_data, outcome, r),
        Stage::Pretask(index) => pretask_outcome_post(
            integration,
            call.router_data,
            connectors,
            index,
            outcome,
            r,
        ),
    }
}

fn enter_main_cycle<Flow, Req: Payload, Res: Payload, C: ConnectorIntegration<Flow, Req, Res>>(
    integration: &C,
    router_data: RouterData<Flow, Req, Res>,
    connectors: &Connectors,
) -> (r: Result<Progress<Flow, Req, Res>, ConnectorError>)
    ensures
        main_cycle_post(integration, router_data, connectors, r),
{
    match integration.build_request(&router_data, connectors) {
        Err(e) => Err(e),
        Ok(None) => Ok(Progress::Done(router_data)),
        Ok(Some(request)) => Ok(
            Progress::Send { call: PendingCall { router_data, stage: Stage::Main }, request },
        ),
    }
}

fn run_pretasks<Flow, Req: Payload, Res: Payload, C: ConnectorIntegration<Flow, Req, Res>>(
    integration: &C,
    router_data: RouterData<Flow, Req, Res>,
    connectors: &Connectors,
    index: u32,
) -> (r: Result<Progress<Flow, Req, Res>, ConnectorError>)
    ensures
        pretasks_post(integration, router_data, connectors, index, r),
{
    match integration.pretask_request(&router_data, connectors, index) {
        Err(e) => Err(e),
        Ok(None) => enter_main_cycle(integration, router_data, connectors),
        Ok(Some(request)) => Ok(
            Progress::Send {
                call: PendingCall { router_data, stage: Stage::Pretask(index) },
                request,
            },
        ),
    }
}

/// Starts one logical operation.
///
/// With [`CallConnectorAction::Skip`] nothing is built and nothing is to be
/// sent: the context comes back unchanged. With
/// [`CallConnectorAction::Trigger`] the operation runs up to its first
/// request: that of the first dependent call if the adapter has one, else
/// that of the main call. Any builder's error ends the operation before
/// anything is sent.
pub fn execute_connector_processing_step<
    Flow,
    Req: Payload,
    Res: Payload,
    C: ConnectorIntegration<Flow, Req, Res>,
>(
    integration: &C,
    router_data: RouterData<Flow, Req, Res>,
    connectors: &Connectors,
    call_connector_action: CallConnectorAction,
) -> (r: Result<Progress<Flow, Req, Res>, ConnectorError>)
    ensures
        execute_post(integration, router_data, connectors, call_connector_action, r),
        call_connector_action == CallConnectorAction::Skip ==> r == Ok::<
            Progress<Flow, Req, Res>,
            ConnectorError,
        >(Progress::Done(router_data)),
{
    match call_connector_action {
        CallConnectorAction::Skip => Ok(Progress::Done(router_data)),
        CallConnectorAction::Trigger => run_pretasks(integration, router_data, connectors, 0),
    }
}

/// Carries a waiting operation on with the outcome of its request.
///
/// After the main call exactly one parser runs: the success parser for a
/// successful outcome, the error normalizer for a failed one. After a
/// dependent call the adapter updates the request payload and the operation
/// moves to its next request; a dependent call that failed ends the
/// operation with an error before any further call is made.
pub fn continue_connector_processing_step<
    Flow,
    Req: Payload,
    Res: Payload,
    C: ConnectorIntegration<Flow, Req, Res>,
>(
    integration: &C,
    call: PendingCall<Flow, Req, Res>,
    connectors: &Connectors,
    outcome: TransportOutcome,
) -> (r: Result<Progress<Flow, Req, Res>, ConnectorError>)
    ensures
        continue_post(integration, call, connectors, outcome, r),
{
    let PendingCall { router_data, stage } = call;
    match stage {
        Stage::Main => match outcome {
            TransportOutcome::Success(res) => match integration.handle_response(router_data, res) {
                Ok(updated) => Ok(Progress::Done(updated)),
                Err(e) => Err(e),
            },
            TransportOutcome::Failure(res) => match integration.get_error_response(res) {
                Ok(error) => {
                    let mut updated = router_data;
                    updated.response = Err(error);
                    Ok(Progress::Done(updated))
                },
                Err(e) => Err(e),
            },
            TransportOutcome::Error => Err(ConnectorError::ProcessingStepFailed),
        },
        Stage::Pretask(index) => match integration.pretask_response(
            router_data,
            connectors,
            index,
            outcome,
        ) {
            Err(e) => Err(e),
            Ok(updated) => {
                let r = if index < u32::MAX {
                    run_pretasks(integration, updated, connectors, index + 1)
                } else {
                    enter_main_cycle(integration, updated, connectors)
                };
                assert(after_pretask_post(integration, updated, connectors, index, r));
                r
            },
        },
    }
}

/// Law: the builders are deterministic. Whatever two invocations of the URL,
/// header and body builders return on identical contexts and identical
/// settings, they return the same URL, the same headers and the same body.
pub proof fn lemma_builders_are_deterministic<
    Flow,
    Req: Payload,
    Res: Payload,
    C: ConnectorIntegration<Flow, Req, Res>,
>(
    integration: &C,
    req: &RouterData<Flow, Req, Res>,
    connectors: &Connectors,
    first_url: Result<String, ConnectorError>,
    second_url: Result<String, ConnectorError>,
    first_headers: Result<Vec<Header>, ConnectorError>,
    second_headers: Result<Vec<Header>, ConnectorError>,
    first_body: Result<Option<String>, ConnectorError>,
    second_body: Result<Option<String>, ConnectorError>,
)
    requires
        text_result(first_url) == integration.url_model(req, connectors),
        text_result(second_url) == integration.url_model(req, connectors),
        headers_result(first_headers) == integration.headers_model(req, connectors),
        headers_result(second_headers) == integration.headers_model(req, connectors),
        body_result(first_body) == integration.body_model(req),
        body_result(second_body) == integration.body_model(req),
    ensures
        text_result(first_url) == text_result(second_url),
        headers_result(first_headers) == headers_result(second_headers),
        body_result(first_body) == body_result(second_body),
{
}

/// Law: skipping sends nothing. An operation started with
/// [`CallConnectorAction::Skip`] is complete at once, with the context it
/// was given.
pub proof fn lemma_skip_returns_the_context<
    Flow,
    Req: Payload,
    Res: Payload,
    C: ConnectorIntegration<Flow, Req, Res>,
>(
    integration: &C,
    router_data: RouterData<Flow, Req, Res>,
    connectors: &Connectors,
    r: Result<Progress<Flow, Req, Res>, ConnectorError>,
)
    requires
        execute_post(integration, router_data, connectors, CallConnectorAction::Skip, r),
    ensures
        r == Ok::<Progress<Flow, Req, Res>, ConnectorError>(Progress::Done(router_data)),
{
}

/// Law: a build failure sends nothing. Where a builder of the first request
/// of an operation fails, the operation ends with that error and no request.
pub proof fn lemma_build_failure_sends_nothing<
    Flow,
    Req: Payload,
    Res: Payload,
    C: ConnectorIntegration<Flow, Req, Res>,
>(
    integration: &C,
    router_data: RouterData<Flow, Req, Res>,
    connectors: &Connectors,
    r: Result<Progress<Flow, Req, Res>, ConnectorError>,
)
    requires
        execute_post(integration, router_data, connectors, CallConnectorAction::Trigger, r),
    ensures
        integration.pretask_request_model(&router_data, connectors, 0) matches Err(e) ==> r
            == Err::<Progress<Flow, Req, Res>, ConnectorError>(e),
        integration.pretask_request_model(&router_data, connectors, 0) == Ok::<
            Option<RequestView>,
            ConnectorError,
        >(None) ==> (integration.request_model(&router_data, connectors) matches Err(e) ==> r
            == Err::<Progress<Flow, Req, Res>, ConnectorError>(e)),
{
}

/// Law: one parser per cycle. After the main call the context's outcome is
/// a success exactly where the transport reported success and the success
/// parser gave one, and the normalized error exactly where the transport
/// reported failure; a transport that did not complete gives neither.
pub proof fn lemma_one_parser_per_cycle<
    Flow,
    Req: Payload,
    Res: Payload,
    C: ConnectorIntegration<Flow, Req, Res>,
>(
    integration: &C,
    call: PendingCall<Flow, Req, Res>,
    connectors: &Connectors,
    outcome: TransportOutcome,
    r: Result<Progress<Flow, Req, Res>, ConnectorError>,
)
    requires
        call.stage == Stage::Main,
        continue_post(integration, call, connectors, outcome, r),
    ensures
        !(r matches Ok(Progress::Send { call, request })),
        outcome matches TransportOutcome::Success(res) ==> (r matches Ok(Progress::Done(updated))
            ==> integration.response_model(&call.router_data, &res) == Ok::<
            Result<Res::V, ErrorResponseView>,
            ConnectorError,
        >(outcome_view(updated.response))),
        outcome matches TransportOutcome::Failure(res) ==> (r matches Ok(Progress::Done(updated))
            ==> (updated.response matches Err(error) && integration.error_model(&res) == Ok::<
            ErrorResponseView,
            ConnectorError,
        >(error@))),
        outcome is Error ==> r == Err::<Progress<Flow, Req, Res>, ConnectorError>(
            ConnectorError::ProcessingStepFailed,
        ),
{
}

/// Law: a failed dependent call fails the operation. Where the adapter
/// reports an error for the outcome of a dependent call, the operation ends
/// with that error: no further request is handed out and no context comes
/// back as complete.
pub proof fn lemma_failed_pretask_fails_the_operation<
    Flow,
    Req: Payload,
    Res: Payload,
    C: ConnectorIntegration<Flow, Req, Res>,
>(
    integration: &C,
    call: PendingCall<Flow, Req, Res>,
    connectors: &Connectors,
    outcome: TransportOutcome,
    r: Result<Progress<Flow, Req, Res>, ConnectorError>,
)
    requires
        call.stage matches Stage::Pretask(index) && integration.pretask_model(
            &call.router_data,
            connectors,
            index,
            &outcome,
        ) is Err,
        continue_post(integration, call, connectors, outcome, r),
    ensures
        call.stage matches Stage::Pretask(index) && r == Err::<
            Progress<Flow, Req, Res>,
            ConnectorError,
        >(integration.pretask_model(&call.router_data, connectors, index, &outcome)->Err_0),
{
}

} // verus!
