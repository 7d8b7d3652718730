use std::marker::PhantomData;

use router::errors::ConnectorError;
use router::request::{Maskable, Method};
use router::services::ConnectorIntegration;
use router::types::{
    ConnectorAuthType, ConnectorParams, Connectors, CustomerDetails, ErrorResponse,
    IncomingWebhookRequestDetails, PCancel, PCreate, PFulfill, PaymentMethod, PayoutStatus,
    PayoutsData, PayoutsResponseData, PayoutsRouterData, PoQuote, PoRecipient, Response,
};
use router::wise::transformers::{ErrorResponse as WiseErrorResponse, SubError, WiseAuthType, WiseStatus};
use router::wise::{normalize_error_response, Wise};

fn connectors() -> Connectors {
    Connectors { wise: ConnectorParams { base_url: "https://api.sandbox.transferwise.tech/".to_string() } }
}

fn body_key() -> ConnectorAuthType {
    ConnectorAuthType::BodyKey { api_key: "Bearer key-1".to_string(), key1: "profile-9".to_string() }
}

fn payout_request() -> PayoutsData {
    PayoutsData {
        payout_id: "payout_1".to_string(),
        amount: 100,
        connector_payout_id: None,
        destination_currency: "EUR".to_string(),
        source_currency: "USD".to_string(),
        customer_details: Some(CustomerDetails { name: Some("John Doe".to_string()) }),
        recipient_id: None,
        quote_id: None,
    }
}

fn router_data<F>(auth: ConnectorAuthType, request: PayoutsData) -> PayoutsRouterData<F> {
    PayoutsRouterData {
        flow: PhantomData,
        merchant_id: "merchant_1".to_string(),
        connector: "wise".to_string(),
        connector_auth_type: auth,
        payment_method: PaymentMethod::BankTransfer,
        access_token: None,
        request,
        response: Err(ErrorResponse::default()),
    }
}

fn response(status_code: u16, body: &str) -> Response {
    Response { response: body.as_bytes().to_vec(), status_code }
}

fn json(text: &str) -> serde_json::Value {
    serde_json::from_str(text).expect("test document")
}

#[test]
fn id_is_wise() {
    assert_eq!(Wise.id(), "wise");
}

#[test]
fn base_url_comes_from_settings() {
    assert_eq!(Wise.base_url(&connectors()), "https://api.sandbox.transferwise.tech/");
}

#[test]
fn auth_type_reads_body_key() {
    let auth = WiseAuthType::try_from(&body_key());
    assert_eq!(
        auth,
        Ok(WiseAuthType { api_key: "Bearer key-1".to_string(), profile_id: "profile-9".to_string() })
    );
}

#[test]
fn auth_type_refuses_other_shapes() {
    let header = ConnectorAuthType::HeaderKey { api_key: "k".to_string() };
    let signature = ConnectorAuthType::SignatureKey {
        api_key: "k".to_string(),
        key1: "p".to_string(),
        api_secret: "s".to_string(),
    };
    assert_eq!(WiseAuthType::try_from(&header), Err(ConnectorError::FailedToObtainAuthType));
    assert_eq!(WiseAuthType::try_from(&signature), Err(ConnectorError::FailedToObtainAuthType));
    assert_eq!(
        WiseAuthType::try_from(&ConnectorAuthType::NoKey),
        Err(ConnectorError::FailedToObtainAuthType)
    );
}

#[test]
fn auth_header_holds_the_key() {
    assert_eq!(
        Wise.get_auth_header(&body_key()),
        Ok(vec![("Authorization".to_string(), Maskable::Normal("Bearer key-1".to_string()))])
    );
    assert_eq!(
        Wise.get_auth_header(&ConnectorAuthType::NoKey),
        Err(ConnectorError::FailedToObtainAuthType)
    );
}

#[test]
fn build_headers_puts_content_type_first() {
    let req = router_data::<PoQuote>(body_key(), payout_request());
    assert_eq!(
        Wise.build_headers(&req, &connectors()),
        Ok(vec![
            ("Content-Type".to_string(), Maskable::Normal("application/json".to_string())),
            ("Authorization".to_string(), Maskable::Normal("Bearer key-1".to_string())),
        ])
    );
}

#[test]
fn build_headers_fails_without_body_key() {
    let req = router_data::<PoQuote>(ConnectorAuthType::NoKey, payout_request());
    assert_eq!(Wise.build_headers(&req, &connectors()), Err(ConnectorError::FailedToObtainAuthType));
}

#[test]
fn cancel_url_embeds_transfer_id() {
    let mut request = payout_request();
    request.connector_payout_id = Some("4711".to_string());
    let req = router_data::<PCancel>(body_key(), request);
    assert_eq!(
        Wise.get_url(&req, &connectors()),
        Ok("https://api.sandbox.transferwise.tech/v1/transfers/4711/cancel".to_string())
    );
}

#[test]
fn cancel_url_needs_transfer_id() {
    let req = router_data::<PCancel>(body_key(), payout_request());
    assert_eq!(
        Wise.get_url(&req, &connectors()),
        Err(ConnectorError::MissingRequiredField { field_name: "transfer_id" })
    );
}

#[test]
fn quote_url_embeds_profile() {
    let req = router_data::<PoQuote>(body_key(), payout_request());
    assert_eq!(
        Wise.get_url(&req, &connectors()),
        Ok("https://api.sandbox.transferwise.tech/v3/profiles/profile-9/quotes".to_string())
    );
}

#[test]
fn quote_url_needs_body_key() {
    let req = router_data::<PoQuote>(ConnectorAuthType::NoKey, payout_request());
    assert_eq!(Wise.get_url(&req, &connectors()), Err(ConnectorError::FailedToObtainAuthType));
}

#[test]
fn recipient_url_is_accounts() {
    let req = router_data::<PoRecipient>(ConnectorAuthType::NoKey, payout_request());
    assert_eq!(
        Wise.get_url(&req, &connectors()),
        Ok("https://api.sandbox.transferwise.tech/v1/accounts".to_string())
    );
}

#[test]
fn create_url_is_transfers() {
    let req = router_data::<PCreate>(body_key(), payout_request());
    assert_eq!(
        Wise.get_url(&req, &connectors()),
        Ok("https://api.sandbox.transferwise.tech//v1/transfers".to_string())
    );
}

#[test]
fn fulfill_url_embeds_profile_and_transfer() {
    let mut request = payout_request();
    request.connector_payout_id = Some("4711".to_string());
    let req = router_data::<PFulfill>(body_key(), request);
    assert_eq!(
        Wise.get_url(&req, &connectors()),
        Ok("https://api.sandbox.transferwise.tech/v3/profiles/profile-9/transfers/4711/payments"
            .to_string())
    );
}

#[test]
fn fulfill_url_checks_credential_before_transfer_id() {
    let req = router_data::<PFulfill>(ConnectorAuthType::NoKey, payout_request());
    assert_eq!(Wise.get_url(&req, &connectors()), Err(ConnectorError::FailedToObtainAuthType));
    let req = router_data::<PFulfill>(body_key(), payout_request());
    assert_eq!(
        Wise.get_url(&req, &connectors()),
        Err(ConnectorError::MissingRequiredField { field_name: "transfer_id" })
    );
}

#[test]
fn builders_repeat_their_output() {
    let mut request = payout_request();
    request.connector_payout_id = Some("4711".to_string());
    let req = router_data::<PFulfill>(body_key(), request);
    let settings = connectors();
    assert_eq!(Wise.get_url(&req, &settings), Wise.get_url(&req, &settings));
    assert_eq!(Wise.get_headers(&req, &settings), Wise.get_headers(&req, &settings));
    assert_eq!(Wise.get_request_body(&req), Wise.get_request_body(&req));
    assert_eq!(Wise.build_request(&req, &settings), Wise.build_request(&req, &settings));
}

#[test]
fn quote_body_is_compact_json() {
    let req = router_data::<PoQuote>(body_key(), payout_request());
    assert_eq!(
        Wise.get_request_body(&req),
        Ok(Some(
            "{\"payOut\":\"BALANCE\",\"sourceAmount\":100,\"sourceCurrency\":\"USD\",\"targetAmount\":null,\"targetCurrency\":\"EUR\"}"
                .to_string()
        ))
    );
}

#[test]
fn quote_body_escapes_text() {
    let mut request = payout_request();
    request.source_currency = "U\"S\\D".to_string();
    let req = router_data::<PoQuote>(body_key(), request);
    let body = Wise.get_request_body(&req).expect("body").expect("some body");
    assert_eq!(
        json(&body),
        json("{\"payOut\":\"BALANCE\",\"sourceAmount\":100,\"sourceCurrency\":\"U\\\"S\\\\D\",\"targetAmount\":null,\"targetCurrency\":\"EUR\"}")
    );
}

#[test]
fn quote_request_document() {
    let mut request = payout_request();
    request.amount = -5;
    assert_eq!(
        router::wise::transformers::quote_request(&request),
        Ok(json("{\"sourceCurrency\":\"USD\",\"targetCurrency\":\"EUR\",\"sourceAmount\":-5,\"targetAmount\":null,\"payOut\":\"BALANCE\"}"))
    );
}

#[test]
fn recipient_body_names_profile_and_holder() {
    let req = router_data::<PoRecipient>(body_key(), payout_request());
    assert_eq!(
        Wise.get_request_body(&req),
        Ok(Some(
            "{\"accountHolderName\":\"John Doe\",\"currency\":\"EUR\",\"profile\":\"profile-9\"}"
                .to_string()
        ))
    );
}

#[test]
fn recipient_body_reports_what_is_missing() {
    let req = router_data::<PoRecipient>(ConnectorAuthType::NoKey, payout_request());
    assert_eq!(
        Wise.get_request_body(&req),
        Err(ConnectorError::MissingRequiredField {
            field_name: "source_id for PayoutRecipient creation"
        })
    );
    let mut request = payout_request();
    request.customer_details = None;
    let req = router_data::<PoRecipient>(body_key(), request);
    assert_eq!(
        Wise.get_request_body(&req),
        Err(ConnectorError::MissingRequiredField {
            field_name: "customer_details for PayoutRecipient creation"
        })
    );
    let mut request = payout_request();
    request.customer_details = Some(CustomerDetails { name: None });
    let req = router_data::<PoRecipient>(body_key(), request);
    assert_eq!(
        Wise.get_request_body(&req),
        Err(ConnectorError::MissingRequiredField {
            field_name: "customer_details.name for PayoutRecipient creation"
        })
    );
}

#[test]
fn create_body_names_recipient_and_quote() {
    let mut request = payout_request();
    request.recipient_id = Some("148563324".to_string());
    request.quote_id = Some("quote-uuid-1".to_string());
    let req = router_data::<PCreate>(body_key(), request);
    assert_eq!(
        Wise.get_request_body(&req),
        Ok(Some(
            "{\"customerTransactionId\":\"payout_1\",\"quoteUuid\":\"quote-uuid-1\",\"targetAccount\":148563324}"
                .to_string()
        ))
    );
}

#[test]
fn create_body_reports_what_is_missing() {
    let mut request = payout_request();
    request.quote_id = Some("quote-uuid-1".to_string());
    let req = router_data::<PCreate>(body_key(), request);
    assert_eq!(
        Wise.get_request_body(&req),
        Err(ConnectorError::MissingRequiredField { field_name: "recipient_id" })
    );
    let mut request = payout_request();
    request.recipient_id = Some("1".to_string());
    let req = router_data::<PCreate>(body_key(), request);
    assert_eq!(
        Wise.get_request_body(&req),
        Err(ConnectorError::MissingRequiredField { field_name: "quote_id" })
    );
}

#[test]
fn create_body_needs_a_numeric_recipient() {
    for recipient in ["", "abc", "12a", "1.5", "9223372036854775808"] {
        let mut request = payout_request();
        request.recipient_id = Some(recipient.to_string());
        request.quote_id = Some("quote-uuid-1".to_string());
        let req = router_data::<PCreate>(body_key(), request);
        assert_eq!(
            Wise.get_request_body(&req),
            Err(ConnectorError::RequestEncodingFailed),
            "recipient {recipient:?}"
        );
    }
    // A missing quote is reported before the recipient is read.
    let mut request = payout_request();
    request.recipient_id = Some("abc".to_string());
    let req = router_data::<PCreate>(body_key(), request);
    assert_eq!(
        Wise.get_request_body(&req),
        Err(ConnectorError::MissingRequiredField { field_name: "quote_id" })
    );
}

#[test]
fn registered_recipient_can_be_paid() {
    let data = router_data::<PoRecipient>(body_key(), payout_request());
    let registered = Wise
        .handle_response(data, response(200, "{\"id\":-42}"))
        .expect("parsed")
        .response
        .expect("payload");
    let mut request = payout_request();
    request.recipient_id = Some(registered.connector_payout_id);
    request.quote_id = Some("q".to_string());
    let req = router_data::<PCreate>(body_key(), request);
    assert_eq!(
        Wise.get_request_body(&req),
        Ok(Some(
            "{\"customerTransactionId\":\"payout_1\",\"quoteUuid\":\"q\",\"targetAccount\":-42}"
                .to_string()
        ))
    );
}

#[test]
fn fulfill_body_funds_from_balance() {
    let req = router_data::<PFulfill>(body_key(), payout_request());
    assert_eq!(Wise.get_request_body(&req), Ok(Some("{\"type\":\"BALANCE\"}".to_string())));
}

#[test]
fn cancel_has_no_body() {
    let req = router_data::<PCancel>(body_key(), payout_request());
    assert_eq!(Wise.get_request_body(&req), Ok(None));
}

#[test]
fn quote_request_is_assembled_in_order() {
    let req = router_data::<PoQuote>(body_key(), payout_request());
    let request = Wise.build_request(&req, &connectors()).expect("request").expect("some request");
    assert_eq!(request.method, Method::Post);
    assert_eq!(request.url, "https://api.sandbox.transferwise.tech/v3/profiles/profile-9/quotes");
    assert_eq!(
        request.headers,
        vec![
            ("Via".to_string(), Maskable::Normal("HyperSwitch".to_string())),
            ("Content-Type".to_string(), Maskable::Normal("application/json".to_string())),
            ("Authorization".to_string(), Maskable::Normal("Bearer key-1".to_string())),
        ]
    );
    assert_eq!(
        request.payload,
        Some(
            "{\"payOut\":\"BALANCE\",\"sourceAmount\":100,\"sourceCurrency\":\"USD\",\"targetAmount\":null,\"targetCurrency\":\"EUR\"}"
                .to_string()
        )
    );
}

#[test]
fn cancel_request_is_a_put_without_body() {
    let mut request = payout_request();
    request.connector_payout_id = Some("4711".to_string());
    let req = router_data::<PCancel>(body_key(), request);
    let request = Wise.build_request(&req, &connectors()).expect("request").expect("some request");
    assert_eq!(request.method, Method::Put);
    assert_eq!(request.url, "https://api.sandbox.transferwise.tech/v1/transfers/4711/cancel");
    assert_eq!(request.payload, None);
    assert_eq!(request.headers.len(), 3);
}

#[test]
fn build_request_reports_the_first_failing_step() {
    // URL before headers.
    let req = router_data::<PCancel>(ConnectorAuthType::NoKey, payout_request());
    assert_eq!(
        Wise.build_request(&req, &connectors()),
        Err(ConnectorError::MissingRequiredField { field_name: "transfer_id" })
    );
    // Headers before body.
    let req = router_data::<PCreate>(ConnectorAuthType::NoKey, payout_request());
    assert_eq!(Wise.build_request(&req, &connectors()), Err(ConnectorError::FailedToObtainAuthType));
    // Body last.
    let req = router_data::<PCreate>(body_key(), payout_request());
    assert_eq!(
        Wise.build_request(&req, &connectors()),
        Err(ConnectorError::MissingRequiredField { field_name: "recipient_id" })
    );
}

#[test]
fn quote_response_gives_the_quote_id() {
    let data = router_data::<PoQuote>(body_key(), payout_request());
    let updated = Wise
        .handle_response(
            data,
            response(200, "{\"id\":\"11144c35-9fe8-4c32-b7fd-d05c2a7734bf\",\"sourceAmount\":1.0,\"status\":\"PENDING\"}"),
        )
        .expect("parsed");
    assert_eq!(
        updated.response,
        Ok(PayoutsResponseData {
            status: Some(PayoutStatus::RequiresCreation),
            connector_payout_id: "11144c35-9fe8-4c32-b7fd-d05c2a7734bf".to_string(),
            payout_eligible: None,
        })
    );
    assert_eq!(updated.request, payout_request());
    assert_eq!(updated.merchant_id, "merchant_1");
    assert_eq!(updated.connector_auth_type, body_key());
}

#[test]
fn quote_response_needs_a_string_id() {
    for body in ["{\"id\":5}", "{}", "[]", "null", "{\"id\":null}", "not json", "", "{\"id\":\"a\"} x"] {
        let data = router_data::<PoQuote>(body_key(), payout_request());
        assert_eq!(
            Wise.handle_response(data, response(200, body)),
            Err(ConnectorError::ResponseDeserializationFailed),
            "body {body:?}"
        );
    }
}

#[test]
fn recipient_response_gives_the_account_number() {
    let data = router_data::<PoRecipient>(body_key(), payout_request());
    let updated = Wise
        .handle_response(data, response(200, "{\"id\":148563324,\"currency\":\"EUR\"}"))
        .expect("parsed");
    assert_eq!(
        updated.response,
        Ok(PayoutsResponseData {
            status: Some(PayoutStatus::RequiresCreation),
            connector_payout_id: "148563324".to_string(),
            payout_eligible: None,
        })
    );
}

#[test]
fn recipient_response_needs_an_integer_id() {
    for body in ["{\"id\":\"148563324\"}", "{\"id\":1.5}", "{\"id\":18446744073709551615}", "{}"] {
        let data = router_data::<PoRecipient>(body_key(), payout_request());
        assert_eq!(
            Wise.handle_response(data, response(200, body)),
            Err(ConnectorError::ResponseDeserializationFailed),
            "body {body:?}"
        );
    }
}

#[test]
fn recipient_response_takes_negative_and_extreme_ids() {
    let data = router_data::<PoRecipient>(body_key(), payout_request());
    let updated = Wise
        .handle_response(data, response(200, "{\"id\":-9223372036854775808}"))
        .expect("parsed");
    assert_eq!(
        updated.response.expect("payload").connector_payout_id,
        "-9223372036854775808"
    );
}

#[test]
fn create_response_awaits_funding() {
    let data = router_data::<PCreate>(body_key(), payout_request());
    let updated = Wise
        .handle_response(data, response(200, "{\"id\":16521632,\"status\":\"incoming_payment_waiting\"}"))
        .expect("parsed");
    assert_eq!(
        updated.response,
        Ok(PayoutsResponseData {
            status: Some(PayoutStatus::RequiresFulfillment),
            connector_payout_id: "16521632".to_string(),
            payout_eligible: None,
        })
    );
}

#[test]
fn cancel_response_is_cancelled() {
    let data = router_data::<PCancel>(body_key(), payout_request());
    let updated = Wise
        .handle_response(data, response(200, "{\"id\":16521632,\"status\":\"cancelled\"}"))
        .expect("parsed");
    assert_eq!(
        updated.response,
        Ok(PayoutsResponseData {
            status: Some(PayoutStatus::Cancelled),
            connector_payout_id: "16521632".to_string(),
            payout_eligible: None,
        })
    );
}

#[test]
fn transfer_response_needs_a_known_status() {
    for body in [
        "{\"id\":1,\"status\":\"CANCELLED\"}",
        "{\"id\":1,\"status\":\"unknown\"}",
        "{\"id\":1}",
        "{\"status\":\"PENDING\"}",
        "{\"id\":1,\"status\":7}",
    ] {
        let data = router_data::<PCreate>(body_key(), payout_request());
        assert_eq!(
            Wise.handle_response(data, response(200, body)),
            Err(ConnectorError::ResponseDeserializationFailed),
            "body {body:?}"
        );
    }
}

#[test]
fn fulfill_response_maps_every_status() {
    let cases = [
        ("COMPLETED", PayoutStatus::Success),
        ("PENDING", PayoutStatus::Pending),
        ("REJECTED", PayoutStatus::Failed),
        ("cancelled", PayoutStatus::Cancelled),
        ("processing", PayoutStatus::Pending),
        ("incoming_payment_waiting", PayoutStatus::Pending),
    ];
    for (text, status) in cases {
        let data = router_data::<PFulfill>(body_key(), payout_request());
        let updated = Wise
            .handle_response(data, response(200, &format!("{{\"status\":\"{text}\"}}")))
            .expect("parsed");
        assert_eq!(
            updated.response,
            Ok(PayoutsResponseData {
                status: Some(status),
                connector_payout_id: String::new(),
                payout_eligible: None,
            })
        );
    }
}

#[test]
fn wise_status_parses_its_six_names() {
    assert_eq!(WiseStatus::parse(&"COMPLETED".to_string()), Some(WiseStatus::Completed));
    assert_eq!(WiseStatus::parse(&"PENDING".to_string()), Some(WiseStatus::Pending));
    assert_eq!(WiseStatus::parse(&"REJECTED".to_string()), Some(WiseStatus::Rejected));
    assert_eq!(WiseStatus::parse(&"cancelled".to_string()), Some(WiseStatus::Cancelled));
    assert_eq!(WiseStatus::parse(&"processing".to_string()), Some(WiseStatus::Processing));
    assert_eq!(
        WiseStatus::parse(&"incoming_payment_waiting".to_string()),
        Some(WiseStatus::IncomingPaymentWaiting)
    );
    assert_eq!(WiseStatus::parse(&"completed".to_string()), None);
    assert_eq!(WiseStatus::parse(&String::new()), None);
}

#[test]
fn first_sub_error_wins() {
    let schema = WiseErrorResponse {
        errors: Some(vec![
            SubError { code: "c1".to_string(), message: "m1".to_string() },
            SubError { code: "c2".to_string(), message: "m2".to_string() },
        ]),
        status: Some(7),
        message: Some("top".to_string()),
    };
    assert_eq!(
        normalize_error_response(422, schema),
        ErrorResponse {
            code: "c1".to_string(),
            message: "m1".to_string(),
            reason: None,
            status_code: 422,
        }
    );
}

#[test]
fn single_sub_error_with_status() {
    let schema = WiseErrorResponse {
        errors: Some(vec![SubError { code: "c1".to_string(), message: "m1".to_string() }]),
        status: Some(7),
        message: None,
    };
    let normalized = normalize_error_response(400, schema);
    assert_eq!(normalized.code, "c1");
    assert_eq!(normalized.message, "m1");
    assert_eq!(normalized.status_code, 400);
    assert_eq!(normalized.reason, None);
}

#[test]
fn empty_error_list_falls_back_to_status_and_message() {
    let schema = WiseErrorResponse { errors: Some(vec![]), status: Some(7), message: Some("top".to_string()) };
    assert_eq!(
        normalize_error_response(500, schema),
        ErrorResponse {
            code: "7".to_string(),
            message: "top".to_string(),
            reason: None,
            status_code: 500,
        }
    );
}

#[test]
fn empty_schema_falls_back_to_defaults() {
    let schema = WiseErrorResponse { errors: None, status: None, message: None };
    assert_eq!(
        normalize_error_response(503, schema),
        ErrorResponse { code: "0".to_string(), message: String::new(), reason: None, status_code: 503 }
    );
}

#[test]
fn negative_status_is_rendered_with_its_sign() {
    let schema = WiseErrorResponse { errors: None, status: Some(i32::MIN), message: None };
    assert_eq!(normalize_error_response(400, schema).code, "-2147483648");
    let schema = WiseErrorResponse { errors: None, status: Some(i32::MAX), message: None };
    assert_eq!(normalize_error_response(400, schema).code, "2147483647");
}

#[test]
fn error_response_is_read_from_json() {
    let body = "{\"timestamp\":\"2023-01-01\",\"errors\":[{\"code\":\"c1\",\"message\":\"m1\",\"path\":\"p\"}],\"status\":7}";
    assert_eq!(
        Wise.build_error_response(response(422, body)),
        Ok(ErrorResponse {
            code: "c1".to_string(),
            message: "m1".to_string(),
            reason: None,
            status_code: 422,
        })
    );
    let body = "{\"errors\":[],\"status\":7,\"message\":\"top\"}";
    assert_eq!(
        Wise.build_error_response(response(404, body)),
        Ok(ErrorResponse {
            code: "7".to_string(),
            message: "top".to_string(),
            reason: None,
            status_code: 404,
        })
    );
    let body = "{\"errors\":null,\"status\":null,\"message\":null}";
    assert_eq!(
        Wise.build_error_response(response(500, body)),
        Ok(ErrorResponse { code: "0".to_string(), message: String::new(), reason: None, status_code: 500 })
    );
    assert_eq!(
        Wise.build_error_response(response(401, "{}")),
        Ok(ErrorResponse { code: "0".to_string(), message: String::new(), reason: None, status_code: 401 })
    );
}

#[test]
fn malformed_error_response_is_a_deserialization_failure() {
    for body in [
        "",
        "<html>",
        "[]",
        "7",
        "\"text\"",
        "{\"errors\":{}}",
        "{\"errors\":[{\"code\":\"c1\"}]}",
        "{\"errors\":[{\"code\":1,\"message\":\"m\"}]}",
        "{\"errors\":[7]}",
        "{\"status\":\"7\"}",
        "{\"status\":7.5}",
        "{\"status\":2147483648}",
        "{\"status\":-2147483649}",
        "{\"message\":7}",
    ] {
        assert_eq!(
            Wise.build_error_response(response(400, body)),
            Err(ConnectorError::ResponseDeserializationFailed),
            "body {body:?}"
        );
    }
}

#[test]
fn error_schema_is_decoded_from_a_document() {
    let document = json("{\"errors\":[{\"code\":\"a\",\"message\":\"b\"},{\"code\":\"c\",\"message\":\"d\"}],\"status\":-3,\"message\":\"m\"}");
    assert_eq!(
        WiseErrorResponse::decode(&document),
        Some(WiseErrorResponse {
            errors: Some(vec![
                SubError { code: "a".to_string(), message: "b".to_string() },
                SubError { code: "c".to_string(), message: "d".to_string() },
            ]),
            status: Some(-3),
            message: Some("m".to_string()),
        })
    );
    assert_eq!(
        WiseErrorResponse::decode(&json("{\"status\":2147483647}")),
        Some(WiseErrorResponse { errors: None, status: Some(2147483647), message: None })
    );
    assert_eq!(WiseErrorResponse::decode(&json("[1,2]")), None);
}

#[test]
fn every_flow_normalizes_errors_alike() {
    let body = "{\"errors\":[{\"code\":\"NOT_VALID\",\"message\":\"Invalid quote\"}]}";
    let expected = Ok(ErrorResponse {
        code: "NOT_VALID".to_string(),
        message: "Invalid quote".to_string(),
        reason: None,
        status_code: 422,
    });
    assert_eq!(
        <Wise as ConnectorIntegration<PCancel, PayoutsData, PayoutsResponseData>>::get_error_response(
            &Wise,
            response(422, body)
        ),
        expected
    );
    assert_eq!(
        <Wise as ConnectorIntegration<PoQuote, PayoutsData, PayoutsResponseData>>::get_error_response(
            &Wise,
            response(422, body)
        ),
        expected
    );
    assert_eq!(
        <Wise as ConnectorIntegration<PoRecipient, PayoutsData, PayoutsResponseData>>::get_error_response(
            &Wise,
            response(422, body)
        ),
        expected
    );
    assert_eq!(
        <Wise as ConnectorIntegration<PCreate, PayoutsData, PayoutsResponseData>>::get_error_response(
            &Wise,
            response(422, body)
        ),
        expected
    );
    assert_eq!(
        <Wise as ConnectorIntegration<PFulfill, PayoutsData, PayoutsResponseData>>::get_error_response(
            &Wise,
            response(422, body)
        ),
        expected
    );
}

#[test]
fn webhooks_are_not_implemented() {
    let request = IncomingWebhookRequestDetails { headers: vec![], body: b"{}".to_vec() };
    assert_eq!(
        Wise.get_webhook_object_reference_id(&request),
        Err(ConnectorError::WebhooksNotImplemented)
    );
    assert_eq!(Wise.get_webhook_event_type(&request), Err(ConnectorError::WebhooksNotImplemented));
    assert_eq!(
        Wise.get_webhook_resource_object(&request),
        Err(ConnectorError::WebhooksNotImplemented)
    );
}
