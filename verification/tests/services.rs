use std::marker::PhantomData;

use router::errors::ConnectorError;
use router::request::{Header, Maskable, Method, Request, RequestBuilder};
use router::services::{
    continue_connector_processing_step, execute_connector_processing_step, ConnectorIntegration,
    PendingCall, Progress, Stage,
};
use router::types::{
    router_data_type_conversion, AccessToken, AccessTokenAuth, AccessTokenRequestData, Authorize,
    CallConnectorAction, ConnectorAuthType, ConnectorParams, Connectors, CustomerDetails,
    ErrorResponse, PCancel, PCreate, PEligibility, PaymentMethod, PayoutStatus, PayoutsData,
    PayoutsResponseData, PayoutsRouterData, PoQuote, Response, RouterData, TransportOutcome,
};
use router::wise::Wise;

fn connectors() -> Connectors {
    Connectors { wise: ConnectorParams { base_url: "https://wise.test/".to_string() } }
}

fn body_key() -> ConnectorAuthType {
    ConnectorAuthType::BodyKey { api_key: "key-1".to_string(), key1: "profile-9".to_string() }
}

fn payout_request() -> PayoutsData {
    PayoutsData {
        payout_id: "payout_1".to_string(),
        amount: 100,
        connector_payout_id: None,
        destination_currency: "EUR".to_string(),
        source_currency: "USD".to_string(),
        customer_details: Some(CustomerDetails { name: Some("John Doe".to_string()) }),
        recipient_id: Some("148563324".to_string()),
        quote_id: None,
    }
}

fn router_data<F>(auth: ConnectorAuthType, request: PayoutsData) -> PayoutsRouterData<F> {
    PayoutsRouterData {
        flow: PhantomData,
        merchant_id: "merchant_1".to_string(),
        connector: "wise".to_string(),
        connector_auth_type: auth,
        payment_method: PaymentMethod::BankTransfer,
        access_token: None,
        request,
        response: Err(ErrorResponse::default()),
    }
}

fn response(status_code: u16, body: &str) -> Response {
    Response { response: body.as_bytes().to_vec(), status_code }
}

const QUOTE_BODY: &str = "{\"payOut\":\"BALANCE\",\"sourceAmount\":100,\"sourceCurrency\":\"USD\",\"targetAmount\":null,\"targetCurrency\":\"EUR\"}";

/// An adapter with two dependent calls before its main call.
struct TwoSteps;

impl ConnectorIntegration<Authorize, AccessTokenRequestData, AccessToken> for TwoSteps {
    fn get_url(
        &self,
        _req: &RouterData<Authorize, AccessTokenRequestData, AccessToken>,
        _connectors: &Connectors,
    ) -> Result<String, ConnectorError> {
        Ok("https://two.test/main".to_string())
    }

    fn get_headers(
        &self,
        _req: &RouterData<Authorize, AccessTokenRequestData, AccessToken>,
        _connectors: &Connectors,
    ) -> Result<Vec<Header>, ConnectorError> {
        Ok(vec![])
    }

    fn get_request_body(
        &self,
        req: &RouterData<Authorize, AccessTokenRequestData, AccessToken>,
    ) -> Result<Option<String>, ConnectorError> {
        Ok(req.request.old_access_token.as_ref().map(|token| token.token.clone()))
    }

    fn build_request(
        &self,
        req: &RouterData<Authorize, AccessTokenRequestData, AccessToken>,
        connectors: &Connectors,
    ) -> Result<Option<Request>, ConnectorError> {
        Ok(Some(
            RequestBuilder::new()
                .method(Method::Post)
                .url(&self.get_url(req, connectors)?)
                .headers(self.get_headers(req, connectors)?)
                .body(self.get_request_body(req)?)
                .build(),
        ))
    }

    fn handle_response(
        &self,
        data: RouterData<Authorize, AccessTokenRequestData, AccessToken>,
        res: Response,
    ) -> Result<RouterData<Authorize, AccessTokenRequestData, AccessToken>, ConnectorError> {
        let mut data = data;
        data.response = Ok(AccessToken {
            token: String::from_utf8(res.response).map_err(|_| ConnectorError::ResponseHandlingFailed)?,
            expires: 60,
            refresh_token_created_at: None,
        });
        Ok(data)
    }

    fn get_error_response(&self, res: Response) -> Result<ErrorResponse, ConnectorError> {
        Ok(ErrorResponse {
            code: "E".to_string(),
            message: "failed".to_string(),
            reason: None,
            status_code: res.status_code,
        })
    }

    fn pretask_request(
        &self,
        _req: &RouterData<Authorize, AccessTokenRequestData, AccessToken>,
        _connectors: &Connectors,
        index: u32,
    ) -> Result<Option<Request>, ConnectorError> {
        if index < 2 {
            Ok(Some(RequestBuilder::new().url(&format!("https://two.test/step/{index}")).build()))
        } else {
            Ok(None)
        }
    }

    fn pretask_response(
        &self,
        data: RouterData<Authorize, AccessTokenRequestData, AccessToken>,
        _connectors: &Connectors,
        index: u32,
        outcome: TransportOutcome,
    ) -> Result<RouterData<Authorize, AccessTokenRequestData, AccessToken>, ConnectorError> {
        let mut data = data;
        match outcome {
            TransportOutcome::Success(res) => {
                let mut text = data
                    .request
                    .old_access_token
                    .take()
                    .map(|token| token.token)
                    .unwrap_or_default();
                text.push_str(&format!("{index}:{};", String::from_utf8_lossy(&res.response)));
                data.request.old_access_token =
                    Some(AccessToken { token: text, expires: 0, refresh_token_created_at: None });
                Ok(data)
            }
            TransportOutcome::Failure(_) => Err(ConnectorError::ResponseHandlingFailed),
            TransportOutcome::Error => Err(ConnectorError::ProcessingStepFailed),
        }
    }
}

fn two_steps_context() -> RouterData<Authorize, AccessTokenRequestData, AccessToken> {
    RouterData {
        flow: PhantomData,
        merchant_id: "merchant_1".to_string(),
        connector: "two".to_string(),
        connector_auth_type: ConnectorAuthType::NoKey,
        payment_method: PaymentMethod::Card,
        access_token: None,
        request: AccessTokenRequestData { old_access_token: None },
        response: Err(ErrorResponse::default()),
    }
}

#[test]
fn skip_returns_the_context_unchanged() {
    let data = router_data::<PoQuote>(body_key(), payout_request());
    let progress =
        execute_connector_processing_step(&Wise, data, &connectors(), CallConnectorAction::Skip);
    assert_eq!(progress, Ok(Progress::Done(router_data::<PoQuote>(body_key(), payout_request()))));
}

#[test]
fn skip_does_not_even_build() {
    // The context lacks what the builders need; with Skip nobody asks them.
    let data = router_data::<PCancel>(ConnectorAuthType::NoKey, payout_request());
    let progress =
        execute_connector_processing_step(&Wise, data, &connectors(), CallConnectorAction::Skip);
    assert_eq!(
        progress,
        Ok(Progress::Done(router_data::<PCancel>(ConnectorAuthType::NoKey, payout_request())))
    );
}

#[test]
fn skip_runs_no_pretask() {
    let progress = execute_connector_processing_step(
        &TwoSteps,
        two_steps_context(),
        &connectors(),
        CallConnectorAction::Skip,
    );
    assert_eq!(progress, Ok(Progress::Done(two_steps_context())));
}

#[test]
fn trigger_hands_out_the_main_request() {
    let data = router_data::<PoQuote>(body_key(), payout_request());
    let progress =
        execute_connector_processing_step(&Wise, data, &connectors(), CallConnectorAction::Trigger)
            .expect("progress");
    match progress {
        Progress::Send { call, request } => {
            assert_eq!(call.stage, Stage::Main);
            assert_eq!(call.router_data, router_data::<PoQuote>(body_key(), payout_request()));
            assert_eq!(request.method, Method::Post);
            assert_eq!(request.url, "https://wise.test/v3/profiles/profile-9/quotes");
            assert_eq!(request.payload, Some(QUOTE_BODY.to_string()));
        }
        Progress::Done(_) => panic!("a request was expected"),
    }
}

#[test]
fn construction_error_ends_the_operation_before_any_call() {
    let data = router_data::<PCancel>(body_key(), payout_request());
    assert_eq!(
        execute_connector_processing_step(&Wise, data, &connectors(), CallConnectorAction::Trigger),
        Err(ConnectorError::MissingRequiredField { field_name: "transfer_id" })
    );
    let data = router_data::<PoQuote>(ConnectorAuthType::NoKey, payout_request());
    assert_eq!(
        execute_connector_processing_step(&Wise, data, &connectors(), CallConnectorAction::Trigger),
        Err(ConnectorError::FailedToObtainAuthType)
    );
}

#[test]
fn success_is_parsed_by_the_success_parser() {
    let call = PendingCall {
        router_data: router_data::<PoQuote>(body_key(), payout_request()),
        stage: Stage::Main,
    };
    let progress = continue_connector_processing_step(
        &Wise,
        call,
        &connectors(),
        TransportOutcome::Success(response(200, "{\"id\":\"quote-1\"}")),
    )
    .expect("progress");
    let mut expected = router_data::<PoQuote>(body_key(), payout_request());
    expected.response = Ok(PayoutsResponseData {
        status: Some(PayoutStatus::RequiresCreation),
        connector_payout_id: "quote-1".to_string(),
        payout_eligible: None,
    });
    assert_eq!(progress, Progress::Done(expected));
}

#[test]
fn failure_is_parsed_by_the_error_normalizer() {
    let call = PendingCall {
        router_data: router_data::<PoQuote>(body_key(), payout_request()),
        stage: Stage::Main,
    };
    // The body would pass for a quote; the transport's verdict decides which parser runs.
    let progress = continue_connector_processing_step(
        &Wise,
        call,
        &connectors(),
        TransportOutcome::Failure(response(422, "{\"id\":\"quote-1\",\"status\":7,\"message\":\"top\"}")),
    )
    .expect("progress");
    let mut expected = router_data::<PoQuote>(body_key(), payout_request());
    expected.response = Err(ErrorResponse {
        code: "7".to_string(),
        message: "top".to_string(),
        reason: None,
        status_code: 422,
    });
    assert_eq!(progress, Progress::Done(expected));
}

#[test]
fn malformed_bodies_are_fatal_for_either_parser() {
    let call = PendingCall {
        router_data: router_data::<PoQuote>(body_key(), payout_request()),
        stage: Stage::Main,
    };
    assert_eq!(
        continue_connector_processing_step(
            &Wise,
            call,
            &connectors(),
            TransportOutcome::Success(response(200, "<html>")),
        ),
        Err(ConnectorError::ResponseDeserializationFailed)
    );
    let call = PendingCall {
        router_data: router_data::<PoQuote>(body_key(), payout_request()),
        stage: Stage::Main,
    };
    assert_eq!(
        continue_connector_processing_step(
            &Wise,
            call,
            &connectors(),
            TransportOutcome::Failure(response(500, "<html>")),
        ),
        Err(ConnectorError::ResponseDeserializationFailed)
    );
}

#[test]
fn transport_error_fails_the_step() {
    let call = PendingCall {
        router_data: router_data::<PoQuote>(body_key(), payout_request()),
        stage: Stage::Main,
    };
    assert_eq!(
        continue_connector_processing_step(&Wise, call, &connectors(), TransportOutcome::Error),
        Err(ConnectorError::ProcessingStepFailed)
    );
}

#[test]
fn create_issues_one_quote_call_then_the_transfer() {
    let data = router_data::<PCreate>(body_key(), payout_request());
    let settings = connectors();
    let mut sent: Vec<Request> = Vec::new();

    let progress =
        execute_connector_processing_step(&Wise, data, &settings, CallConnectorAction::Trigger)
            .expect("started");
    let call = match progress {
        Progress::Send { call, request } => {
            assert_eq!(call.stage, Stage::Pretask(0));
            sent.push(request);
            call
        }
        Progress::Done(_) => panic!("the quote request was expected"),
    };
    assert_eq!(sent[0].url, "https://wise.test/v3/profiles/profile-9/quotes");
    assert_eq!(sent[0].method, Method::Post);
    assert_eq!(sent[0].payload, Some(QUOTE_BODY.to_string()));

    let progress = continue_connector_processing_step(
        &Wise,
        call,
        &settings,
        TransportOutcome::Success(response(200, "{\"id\":\"quote-77\",\"status\":\"PENDING\"}")),
    )
    .expect("continued");
    let call = match progress {
        Progress::Send { call, request } => {
            assert_eq!(call.stage, Stage::Main);
            assert_eq!(call.router_data.request.quote_id, Some("quote-77".to_string()));
            sent.push(request);
            call
        }
        Progress::Done(_) => panic!("the transfer request was expected"),
    };
    assert_eq!(sent.len(), 2);
    assert_eq!(sent[1].url, "https://wise.test//v1/transfers");
    assert_eq!(
        sent[1].payload,
        Some(
            "{\"customerTransactionId\":\"payout_1\",\"quoteUuid\":\"quote-77\",\"targetAccount\":148563324}"
                .to_string()
        )
    );

    let progress = continue_connector_processing_step(
        &Wise,
        call,
        &settings,
        TransportOutcome::Success(response(200, "{\"id\":16521632,\"status\":\"incoming_payment_waiting\"}")),
    )
    .expect("finished");
    let mut expected_request = payout_request();
    expected_request.quote_id = Some("quote-77".to_string());
    let mut expected = router_data::<PCreate>(body_key(), expected_request);
    expected.response = Ok(PayoutsResponseData {
        status: Some(PayoutStatus::RequiresFulfillment),
        connector_payout_id: "16521632".to_string(),
        payout_eligible: None,
    });
    assert_eq!(progress, Progress::Done(expected));
}

#[test]
fn create_replaces_an_earlier_quote() {
    let mut request = payout_request();
    request.quote_id = Some("stale".to_string());
    let call = PendingCall {
        router_data: router_data::<PCreate>(body_key(), request),
        stage: Stage::Pretask(0),
    };
    let progress = continue_connector_processing_step(
        &Wise,
        call,
        &connectors(),
        TransportOutcome::Success(response(200, "{\"id\":\"fresh\"}")),
    )
    .expect("continued");
    match progress {
        Progress::Send { call, request } => {
            assert_eq!(call.router_data.request.quote_id, Some("fresh".to_string()));
            assert!(request.payload.expect("body").contains("\"quoteUuid\":\"fresh\""));
        }
        Progress::Done(_) => panic!("the transfer request was expected"),
    }
}

#[test]
fn failed_quote_ends_the_transfer_before_the_main_call() {
    let mut request = payout_request();
    request.quote_id = Some("stale".to_string());
    let call = PendingCall {
        router_data: router_data::<PCreate>(body_key(), request),
        stage: Stage::Pretask(0),
    };
    let progress = continue_connector_processing_step(
        &Wise,
        call,
        &connectors(),
        TransportOutcome::Failure(response(
            422,
            "{\"errors\":[{\"code\":\"NOT_VALID\",\"message\":\"No such currency\"}]}",
        )),
    );
    assert_eq!(progress, Err(ConnectorError::ProcessingStepFailed));
}

#[test]
fn refused_quote_fails_the_transfer_without_an_earlier_quote_too() {
    let call = PendingCall {
        router_data: router_data::<PCreate>(body_key(), payout_request()),
        stage: Stage::Pretask(0),
    };
    let progress = continue_connector_processing_step(
        &Wise,
        call,
        &connectors(),
        TransportOutcome::Failure(response(400, "{\"status\":400,\"message\":\"Bad request\"}")),
    );
    assert_eq!(progress, Err(ConnectorError::ProcessingStepFailed));
}

#[test]
fn refused_quote_with_a_malformed_body_is_a_deserialization_failure() {
    let call = PendingCall {
        router_data: router_data::<PCreate>(body_key(), payout_request()),
        stage: Stage::Pretask(0),
    };
    let progress = continue_connector_processing_step(
        &Wise,
        call,
        &connectors(),
        TransportOutcome::Failure(response(502, "<html>")),
    );
    assert_eq!(progress, Err(ConnectorError::ResponseDeserializationFailed));
}

#[test]
fn eligibility_has_nothing_to_send() {
    let data = router_data::<PEligibility>(body_key(), payout_request());
    let progress =
        execute_connector_processing_step(&Wise, data, &connectors(), CallConnectorAction::Trigger);
    assert_eq!(
        progress,
        Ok(Progress::Done(router_data::<PEligibility>(body_key(), payout_request())))
    );
    let data = router_data::<PEligibility>(body_key(), payout_request());
    assert_eq!(Wise.build_request(&data, &connectors()), Ok(None));
    assert_eq!(Wise.get_url(&data, &connectors()), Ok(String::new()));
    assert_eq!(Wise.get_headers(&data, &connectors()), Ok(vec![]));
    assert_eq!(Wise.get_request_body(&data), Ok(None));
    assert_eq!(
        Wise.handle_response(data, response(200, "{}")),
        Ok(router_data::<PEligibility>(body_key(), payout_request()))
    );
    assert_eq!(
        <Wise as ConnectorIntegration<PEligibility, PayoutsData, PayoutsResponseData>>::get_error_response(
            &Wise,
            response(500, "{}")
        ),
        Ok(ErrorResponse::default())
    );
}

#[test]
fn broken_quote_call_aborts_the_transfer() {
    let call = PendingCall {
        router_data: router_data::<PCreate>(body_key(), payout_request()),
        stage: Stage::Pretask(0),
    };
    assert_eq!(
        continue_connector_processing_step(&Wise, call, &connectors(), TransportOutcome::Error),
        Err(ConnectorError::ProcessingStepFailed)
    );
    let call = PendingCall {
        router_data: router_data::<PCreate>(body_key(), payout_request()),
        stage: Stage::Pretask(0),
    };
    assert_eq!(
        continue_connector_processing_step(
            &Wise,
            call,
            &connectors(),
            TransportOutcome::Success(response(200, "{\"uuid\":\"quote-77\"}")),
        ),
        Err(ConnectorError::ResponseDeserializationFailed)
    );
}

#[test]
fn quote_is_obtained_but_transfer_cannot_be_built() {
    let mut request = payout_request();
    request.recipient_id = None;
    let call = PendingCall {
        router_data: router_data::<PCreate>(body_key(), request),
        stage: Stage::Pretask(0),
    };
    assert_eq!(
        continue_connector_processing_step(
            &Wise,
            call,
            &connectors(),
            TransportOutcome::Success(response(200, "{\"id\":\"quote-77\"}")),
        ),
        Err(ConnectorError::MissingRequiredField { field_name: "recipient_id" })
    );
}

#[test]
fn dependent_calls_run_one_after_the_other() {
    let settings = connectors();
    let mut urls: Vec<String> = Vec::new();
    let mut progress = execute_connector_processing_step(
        &TwoSteps,
        two_steps_context(),
        &settings,
        CallConnectorAction::Trigger,
    )
    .expect("started");
    let mut stages: Vec<Stage> = Vec::new();
    let done = loop {
        match progress {
            Progress::Send { call, request } => {
                stages.push(call.stage);
                urls.push(request.url.clone());
                let answer = format!("answer to {}", request.url);
                progress = continue_connector_processing_step(
                    &TwoSteps,
                    call,
                    &settings,
                    TransportOutcome::Success(response(200, &answer)),
                )
                .expect("continued");
            }
            Progress::Done(data) => break data,
        }
    };
    assert_eq!(stages, vec![Stage::Pretask(0), Stage::Pretask(1), Stage::Main]);
    assert_eq!(
        urls,
        vec![
            "https://two.test/step/0".to_string(),
            "https://two.test/step/1".to_string(),
            "https://two.test/main".to_string(),
        ]
    );
    assert_eq!(
        done.request.old_access_token.expect("collected").token,
        "0:answer to https://two.test/step/0;1:answer to https://two.test/step/1;"
    );
    assert_eq!(done.response.expect("token").token, "answer to https://two.test/main");
}

#[test]
fn failing_dependent_call_stops_the_chain() {
    let settings = connectors();
    let progress = execute_connector_processing_step(
        &TwoSteps,
        two_steps_context(),
        &settings,
        CallConnectorAction::Trigger,
    )
    .expect("started");
    let call = match progress {
        Progress::Send { call, .. } => call,
        Progress::Done(_) => panic!("a request was expected"),
    };
    let progress = continue_connector_processing_step(
        &TwoSteps,
        call,
        &settings,
        TransportOutcome::Failure(response(503, "down")),
    );
    assert_eq!(progress, Err(ConnectorError::ResponseHandlingFailed));
}

#[test]
fn last_possible_dependent_call_is_followed_by_the_main_call() {
    let call = PendingCall { router_data: two_steps_context(), stage: Stage::Pretask(u32::MAX) };
    let progress = continue_connector_processing_step(
        &TwoSteps,
        call,
        &connectors(),
        TransportOutcome::Success(response(200, "x")),
    )
    .expect("continued");
    match progress {
        Progress::Send { call, request } => {
            assert_eq!(call.stage, Stage::Main);
            assert_eq!(request.url, "https://two.test/main");
        }
        Progress::Done(_) => panic!("the main request was expected"),
    }
}

#[test]
fn conversion_carries_shared_fields_over() {
    let mut source = router_data::<PCreate>(body_key(), payout_request());
    source.access_token =
        Some(AccessToken { token: "t".to_string(), expires: 5, refresh_token_created_at: Some(1) });
    let converted: RouterData<AccessTokenAuth, AccessTokenRequestData, AccessToken> =
        router_data_type_conversion(
            &source,
            AccessTokenRequestData { old_access_token: None },
            Err(ErrorResponse::default()),
        );
    assert_eq!(converted.merchant_id, "merchant_1");
    assert_eq!(converted.connector, "wise");
    assert_eq!(converted.connector_auth_type, body_key());
    assert_eq!(converted.payment_method, PaymentMethod::BankTransfer);
    assert_eq!(converted.access_token, source.access_token);
    assert_eq!(converted.request, AccessTokenRequestData { old_access_token: None });
    assert_eq!(converted.response, Err(ErrorResponse::default()));
}

#[test]
fn default_error_is_the_placeholder() {
    assert_eq!(
        ErrorResponse::default(),
        ErrorResponse {
            code: "HE_00".to_string(),
            message: "Something went wrong".to_string(),
            reason: None,
            status_code: 500,
        }
    );
}

#[test]
fn request_builder_collects_parts_in_order() {
    let request = RequestBuilder::new()
        .method(Method::Put)
        .url("https://example.test/a")
        .attach_default_headers()
        .header("X-One", "1")
        .headers(vec![("X-Two".to_string(), Maskable::new_masked("2".to_string()))])
        .body(Some("{}".to_string()))
        .build();
    assert_eq!(
        request,
        Request {
            url: "https://example.test/a".to_string(),
            headers: vec![
                ("Via".to_string(), Maskable::Normal("HyperSwitch".to_string())),
                ("X-One".to_string(), Maskable::Normal("1".to_string())),
                ("X-Two".to_string(), Maskable::Masked("2".to_string())),
            ],
            payload: Some("{}".to_string()),
            method: Method::Put,
        }
    );
}

#[test]
fn request_builder_starts_empty() {
    assert_eq!(
        RequestBuilder::new().build(),
        Request { url: String::new(), headers: vec![], payload: None, method: Method::Get }
    );
}
