//! The schemas of the Wise API that the adapter writes and reads, and their
//! mapping to the engine's payloads.

use vstd::prelude::*;
use vstd::string::*;

use crate::decimal::{
    decimal_i64, decimal_text, i64_to_string, lemma_reading_inverts_rendering, parse_i64,
};
use crate::errors::ConnectorError;
use crate::json::{
    JsonTree, integer_field, json_as_array, json_integer, json_is_null, json_is_object,
    json_member, json_null, json_object, json_string, json_tree, json_trees, member_keys,
    optional_integer_field, optional_text_field, push_member, read_i64, read_optional_i32,
    read_optional_text, read_text, text_field, tree_member,
};
use crate::types::{
    ConnectorAuthType, PayoutStatus, PayoutsData, PayoutsResponseData, PayoutsResponseDataView,
    option_text,
};

verus! {

/// The credential of a Wise account: the API key and the profile it acts for.
#[derive(Debug, PartialEq, Eq)]
pub struct WiseAuthType {
    pub api_key: String,
    pub profile_id: String,
}

impl WiseAuthType {
    /// The credential that a bundle holds: only a body key.
    pub open spec fn of(auth_type: &ConnectorAuthType) -> Option<(String, String)> {
        match auth_type {
            ConnectorAuthType::BodyKey { api_key, key1 } => Some((*api_key, *key1)),
            _ => None,
        }
    }

    /// Reads the credential from a bundle; any shape but a body key is
    /// refused.
    pub fn try_from(auth_type: &ConnectorAuthType) -> (r: Result<Self, ConnectorError>)
        ensures
            match r {
                Ok(auth) => Self::of(auth_type) == Some((auth.api_key, auth.profile_id)),
                Err(e) => Self::of(auth_type) is None && e
                    == ConnectorError::FailedToObtainAuthType,
            },
    {
        match auth_type {
            ConnectorAuthType::BodyKey { api_key, key1 } => Ok(
                WiseAuthType { api_key: api_key.clone(), profile_id: key1.clone() },
            ),
            _ => Err(ConnectorError::FailedToObtainAuthType),
        }
    }
}

/// The member names of the request schemas differ from each other.
pub proof fn lemma_request_keys_differ()
    ensures
        "sourceCurrency"@ != "targetCurrency"@,
        "sourceCurrency"@ != "sourceAmount"@,
        "sourceCurrency"@ != "targetAmount"@,
        "sourceCurrency"@ != "payOut"@,
        "targetCurrency"@ != "sourceAmount"@,
        "targetCurrency"@ != "targetAmount"@,
        "targetCurrency"@ != "payOut"@,
        "sourceAmount"@ != "targetAmount"@,
        "sourceAmount"@ != "payOut"@,
        "targetAmount"@ != "payOut"@,
        "currency"@ != "profile"@,
        "currency"@ != "accountHolderName"@,
        "profile"@ != "accountHolderName"@,
        "targetAccount"@ != "quoteUuid"@,
        "targetAccount"@ != "customerTransactionId"@,
        "quoteUuid"@ != "customerTransactionId"@,
{
    reveal_strlit("sourceCurrency");
    reveal_strlit("targetCurrency");
    reveal_strlit("sourceAmount");
    reveal_strlit("targetAmount");
    reveal_strlit("payOut");
    reveal_strlit("currency");
    reveal_strlit("profile");
    reveal_strlit("accountHolderName");
    reveal_strlit("targetAccount");
    reveal_strlit("quoteUuid");
    reveal_strlit("customerTransactionId");
    assert("sourceCurrency"@.len() == 14 && "sourceCurrency"@[0] == 's');
    assert("targetCurrency"@.len() == 14 && "targetCurrency"@[0] == 't');
    assert("sourceAmount"@.len() == 12 && "sourceAmount"@[0] == 's');
    assert("targetAmount"@.len() == 12 && "targetAmount"@[0] == 't');
    assert("payOut"@.len() == 6);
    assert("currency"@.len() == 8);
    assert("profile"@.len() == 7);
    assert("accountHolderName"@.len() == 17);
    assert("targetAccount"@.len() == 13);
    assert("quoteUuid"@.len() == 9);
    assert("customerTransactionId"@.len() == 21);
}

/// The quote request for a payout: pay `amount` of the source currency out
/// of the account's balance into the destination currency.
pub open spec fn quote_request_tree(request: &PayoutsData) -> JsonTree {
    JsonTree::Object(
        Map::empty().insert("sourceCurrency"@, JsonTree::String(request.source_currency@)).insert(
            "targetCurrency"@,
            JsonTree::String(request.destination_currency@),
        ).insert("sourceAmount"@, JsonTree::Integer(request.amount as int)).insert(
            "targetAmount"@,
            JsonTree::Null,
        ).insert("payOut"@, JsonTree::String("BALANCE"@)),
    )
}

/// Builds the quote request.
pub fn quote_request(request: &PayoutsData) -> (r: Result<
    serde_json::Value,
    ConnectorError,
>)
    ensures
        r matches Ok(value) && json_tree(value) == quote_request_tree(request),
{
    proof {
        lemma_request_keys_differ();
    }
    let mut members: Vec<(String, serde_json::Value)> = Vec::new();
    assert(member_keys(members@) =~= Seq::empty());
    push_member(&mut members, "sourceCurrency", json_string(request.source_currency.clone()));
    push_member(&mut members, "targetCurrency", json_string(request.destination_currency.clone()));
    push_member(&mut members, "sourceAmount", json_integer(request.amount));
    push_member(&mut members, "targetAmount", json_null());
    push_member(&mut members, "payOut", json_string(String::from_str("BALANCE")));
    Ok(json_object(members))
}

/// The request that registers the recipient of a payout under the profile
/// of the account, or the field that is missing for it.
pub open spec fn recipient_request_tree(
    auth_type: &ConnectorAuthType,
    request: &PayoutsData,
) -> Result<JsonTree, ConnectorError> {
    match auth_type {
        ConnectorAuthType::BodyKey { api_key, key1 } => match request.customer_details {
            None => Err(
                ConnectorError::MissingRequiredField {
                    field_name: "customer_details for PayoutRecipient creation",
                },
            ),
            Some(details) => match details.name {
                None => Err(
                    ConnectorError::MissingRequiredField {
                        field_name: "customer_details.name for PayoutRecipient creation",
                    },
                ),
                Some(name) => Ok(
                    JsonTree::Object(
                        Map::empty().insert(
                            "currency"@,
                            JsonTree::String(request.destination_currency@),
                        ).insert("profile"@, JsonTree::String(key1@)).insert(
                            "accountHolderName"@,
                            JsonTree::String(name@),
                        ),
                    ),
                ),
            },
        },
        _ => Err(
            ConnectorError::MissingRequiredField {
                field_name: "source_id for PayoutRecipient creation",
            },
        ),
    }
}

/// Builds the request that registers a recipient.
pub fn recipient_request(auth_type: &ConnectorAuthType, request: &PayoutsData) -> (r:
    Result<serde_json::Value, ConnectorError>)
    ensures
        match r {
            Ok(value) => recipient_request_tree(auth_type, request) == Ok::<
                JsonTree,
                ConnectorError,
            >(json_tree(value)),
            Err(e) => recipient_request_tree(auth_type, request) == Err::<JsonTree, ConnectorError>(
                e,
            ),
        },
{
    let profile = match auth_type {
        ConnectorAuthType::BodyKey { api_key: _, key1 } => key1,
        _ => {
            return Err(
                ConnectorError::MissingRequiredField {
                    field_name: "source_id for PayoutRecipient creation",
                },
            );
        },
    };
    let details = match &request.customer_details {
        Some(details) => details,
        None => {
            return Err(
                ConnectorError::MissingRequiredField {
                    field_name: "customer_details for PayoutRecipient creation",
                },
            );
        },
    };
    let name = match &details.name {
        Some(name) => name,
        None => {
            return Err(
                ConnectorError::MissingRequiredField {
                    field_name: "customer_details.name for PayoutRecipient creation",
                },
            );
        },
    };
    proof {
        lemma_request_keys_differ();
    }
    let mut members: Vec<(String, serde_json::Value)> = Vec::new();
    assert(member_keys(members@) =~= Seq::empty());
    push_member(&mut members, "currency", json_string(request.destination_currency.clone()));
    push_member(&mut members, "profile", json_string(profile.clone()));
    push_member(&mut members, "accountHolderName", json_string(name.clone()));
    Ok(json_object(members))
}

/// The request that creates a transfer to a registered recipient under an
/// obtained quote, or the reason why there is none: a missing field, or a
/// recipient identifier that is no account number.
pub open spec fn create_request_tree(request: &PayoutsData) -> Result<JsonTree, ConnectorError> {
    match request.recipient_id {
        None => Err(ConnectorError::MissingRequiredField { field_name: "recipient_id" }),
        Some(recipient_id) => match request.quote_id {
            None => Err(ConnectorError::MissingRequiredField { field_name: "quote_id" }),
            Some(quote_id) => match decimal_i64(recipient_id@) {
                None => Err(ConnectorError::RequestEncodingFailed),
                Some(target_account) => Ok(
                    JsonTree::Object(
                        Map::empty().insert(
                            "targetAccount"@,
                            JsonTree::Integer(target_account as int),
                        ).insert("quoteUuid"@, JsonTree::String(quote_id@)).insert(
                            "customerTransactionId"@,
                            JsonTree::String(request.payout_id@),
                        ),
                    ),
                ),
            },
        },
    }
}

/// Builds the request that creates a transfer.
pub fn create_request(request: &PayoutsData) -> (r: Result<
    serde_json::Value,
    ConnectorError,
>)
    ensures
        match r {
            Ok(value) => create_request_tree(request) == Ok::<JsonTree, ConnectorError>(
                json_tree(value),
            ),
            Err(e) => create_request_tree(request) == Err::<JsonTree, ConnectorError>(e),
        },
{
    let recipient_id = match &request.recipient_id {
        Some(recipient_id) => recipient_id,
        None => {
            return Err(ConnectorError::MissingRequiredField { field_name: "recipient_id" });
        },
    };
    let quote_id = match &request.quote_id {
        Some(quote_id) => quote_id,
        None => {
            return Err(ConnectorError::MissingRequiredField { field_name: "quote_id" });
        },
    };
    let target_account: i64 = match parse_i64(recipient_id.as_str()) {
        Some(target_account) => target_account,
        None => {
            return Err(ConnectorError::RequestEncodingFailed);
        },
    };
    proof {
        lemma_request_keys_differ();
    }
    let mut members: Vec<(String, serde_json::Value)> = Vec::new();
    assert(member_keys(members@) =~= Seq::empty());
    push_member(&mut members, "targetAccount", json_integer(target_account));
    push_member(&mut members, "quoteUuid", json_string(quote_id.clone()));
    push_member(&mut members, "customerTransactionId", json_string(request.payout_id.clone()));
    Ok(json_object(members))
}

/// The request that funds a transfer from the account's balance.
pub open spec fn fulfill_request_tree() -> JsonTree {
    JsonTree::Object(Map::empty().insert("type"@, JsonTree::String("BALANCE"@)))
}

/// Builds the request that funds a transfer.
pub fn fulfill_request() -> (r: Result<serde_json::Value, ConnectorError>)
    ensures
        r matches Ok(value) && json_tree(value) == fulfill_request_tree(),
{
    let mut members: Vec<(String, serde_json::Value)> = Vec::new();
    assert(member_keys(members@) =~= Seq::empty());
    push_member(&mut members, "type", json_string(String::from_str("BALANCE")));
    Ok(json_object(members))
}

/// The state of a quote or transfer as Wise reports it.
#[derive(Clone, Copy, Debug, PartialEq, Eq)]
pub enum WiseStatus {
    Completed,
    Pending,
    Rejected,
    Cancelled,
    Processing,
    IncomingPaymentWaiting,
}

/// The state that a status text names, if it names one.
pub open spec fn wise_status_of(text: Seq<char>) -> Option<WiseStatus> {
    if text == "COMPLETED"@ {
        Some(WiseStatus::Completed)
    } else if text == "PENDING"@ {
        Some(WiseStatus::Pending)
    } else if text == "REJECTED"@ {
        Some(WiseStatus::Rejected)
    } else if text == "cancelled"@ {
        Some(WiseStatus::Cancelled)
    } else if text == "processing"@ {
        Some(WiseStatus::Processing)
    } else if text == "incoming_payment_waiting"@ {
        Some(WiseStatus::IncomingPaymentWaiting)
    } else {
        None
    }
}

fn text_is(text: &String, literal: &str) -> (r: bool)
    ensures
        r == (text@ == literal@),
{
    let literal = String::from_str(literal);
    *text == literal
}

impl WiseStatus {
    /// Reads a status text.
    pub fn parse(text: &String) -> (r: Option<WiseStatus>)
        ensures
            r == wise_status_of(text@),
    {
        if text_is(text, "COMPLETED") {
            Some(WiseStatus::Completed)
        } else if text_is(text, "PENDING") {
            Some(WiseStatus::Pending)
        } else if text_is(text, "REJECTED") {
            Some(WiseStatus::Rejected)
        } else if text_is(text, "cancelled") {
            Some(WiseStatus::Cancelled)
        } else if text_is(text, "processing") {
            Some(WiseStatus::Processing)
        } else if text_is(text, "incoming_payment_waiting") {
            Some(WiseStatus::IncomingPaymentWaiting)
        } else {
            None
        }
    }

    /// The payout status that a Wise status stands for.
    pub open spec fn payout_status(self) -> PayoutStatus {
        match self {
            WiseStatus::Completed => PayoutStatus::Success,
            WiseStatus::Rejected => PayoutStatus::Failed,
            WiseStatus::Cancelled => PayoutStatus::Cancelled,
            WiseStatus::Pending | WiseStatus::Processing | WiseStatus::IncomingPaymentWaiting => {
                PayoutStatus::Pending
            },
        }
    }

    /// Maps a Wise status to a payout status.
    pub fn to_payout_status(self) -> (r: PayoutStatus)
        ensures
            r == self.payout_status(),
    {
        match self {
            WiseStatus::Completed => PayoutStatus::Success,
            WiseStatus::Rejected => PayoutStatus::Failed,
            WiseStatus::Cancelled => PayoutStatus::Cancelled,
            WiseStatus::Pending | WiseStatus::Processing | WiseStatus::IncomingPaymentWaiting => {
                PayoutStatus::Pending
            },
        }
    }
}

/// The payload that a quote response maps to: the quote's identifier, with
/// the payout still to be created. `None` where the document is no quote
/// response.
pub open spec fn quote_response_model(tree: JsonTree) -> Option<PayoutsResponseDataView> {
    match text_field(tree, "id"@) {
        Some(id) => Some(
            PayoutsResponseDataView {
                status: Some(PayoutStatus::RequiresCreation),
                connector_payout_id: id,
                payout_eligible: None,
            },
        ),
        None => None,
    }
}

/// Decodes a quote response.
pub fn quote_response(value: &serde_json::Value) -> (r: Option<PayoutsResponseData>)
    ensures
        match r {
            Some(payload) => quote_response_model(json_tree(*value)) == Some(payload@),
            None => quote_response_model(json_tree(*value)) is None,
        },
{
    match read_text(value, "id") {
        Some(id) => Some(
            PayoutsResponseData {
                status: Some(PayoutStatus::RequiresCreation),
                connector_payout_id: id,
                payout_eligible: None,
            },
        ),
        None => None,
    }
}

/// The payload that a recipient response maps to: the recipient account's
/// number in decimal, with the payout still to be created. `None` where the
/// document is no recipient response.
pub open spec fn recipient_response_model(tree: JsonTree) -> Option<PayoutsResponseDataView> {
    match integer_field(tree, "id"@) {
        Some(id) => Some(
            PayoutsResponseDataView {
                status: Some(PayoutStatus::RequiresCreation),
                connector_payout_id: decimal_text(id),
                payout_eligible: None,
            },
        ),
        None => None,
    }
}

/// Decodes a recipient response.
pub fn recipient_response(value: &serde_json::Value) -> (r: Option<PayoutsResponseData>)
    ensures
        match r {
            Some(payload) => recipient_response_model(json_tree(*value)) == Some(payload@),
            None => recipient_response_model(json_tree(*value)) is None,
        },
{
    match read_i64(value, "id") {
        Some(id) => Some(
            PayoutsResponseData {
                status: Some(PayoutStatus::RequiresCreation),
                connector_payout_id: i64_to_string(id),
                payout_eligible: None,
            },
        ),
        None => None,
    }
}

/// Law: a registered recipient can be paid. The identifier that a recipient
/// response gives is accepted by the request that creates a transfer: with
/// it and a quote the request is built, and the account it names is the one
/// that the response carried.
pub proof fn lemma_registered_recipient_is_accepted(response: JsonTree, request: &PayoutsData)
    requires
        recipient_response_model(response) is Some,
        request.recipient_id matches Some(recipient_id) && recipient_id@
            == recipient_response_model(response)->Some_0.connector_payout_id,
        request.quote_id is Some,
    ensures
        integer_field(response, "id"@) is Some,
        create_request_tree(request) matches Ok(JsonTree::Object(members)) && members["targetAccount"@]
            == JsonTree::Integer(integer_field(response, "id"@)->Some_0),
{
    lemma_reading_inverts_rendering(integer_field(response, "id"@)->Some_0);
    lemma_request_keys_differ();
}

/// The state of a transfer after a call that created or cancelled it: a
/// cancelled transfer is cancelled, any other awaits funding.
pub open spec fn transfer_status(status: WiseStatus) -> PayoutStatus {
    if status.payout_status() == PayoutStatus::Cancelled {
        PayoutStatus::Cancelled
    } else {
        PayoutStatus::RequiresFulfillment
    }
}

/// The payload that a transfer response maps to: the transfer's number in
/// decimal and its state. `None` where the document is no transfer response.
pub open spec fn transfer_response_model(tree: JsonTree) -> Option<PayoutsResponseDataView> {
    match (integer_field(tree, "id"@), text_field(tree, "status"@)) {
        (Some(id), Some(status)) => match wise_status_of(status) {
            Some(status) => Some(
                PayoutsResponseDataView {
                    status: Some(transfer_status(status)),
                    connector_payout_id: decimal_text(id),
                    payout_eligible: None,
                },
            ),
            None => None,
        },
        _ => None,
    }
}

/// Decodes a transfer response.
pub fn transfer_response(value: &serde_json::Value) -> (r: Option<PayoutsResponseData>)
    ensures
        match r {
            Some(payload) => transfer_response_model(json_tree(*value)) == Some(payload@),
            None => transfer_response_model(json_tree(*value)) is None,
        },
{
    let id: i64 = match read_i64(value, "id") {
        Some(id) => id,
        None => {
            return None;
        },
    };
    let status = match read_text(value, "status") {
        Some(status) => status,
        None => {
            return None;
        },
    };
    match WiseStatus::parse(&status) {
        Some(status) => {
            let status = match status.to_payout_status() {
                PayoutStatus::Cancelled => PayoutStatus::Cancelled,
                _ => PayoutStatus::RequiresFulfillment,
            };
            Some(
                PayoutsResponseData {
                    status: Some(status),
                    connector_payout_id: i64_to_string(id),
                    payout_eligible: None,
                },
            )
        },
        None => None,
    }
}

/// The payload that a funding response maps to: the state it reports, and
/// no identifier. `None` where the document is no funding response.
pub open spec fn fulfill_response_model(tree: JsonTree) -> Option<PayoutsResponseDataView> {
    match text_field(tree, "status"@) {
        Some(status) => match wise_status_of(status) {
            Some(status) => Some(
                PayoutsResponseDataView {
                    status: Some(status.payout_status()),
                    connector_payout_id: Seq::empty(),
                    payout_eligible: None,
                },
            ),
            None => None,
        },
        None => None,
    }
}

/// Decodes a funding response.
pub fn fulfill_response(value: &serde_json::Value) -> (r: Option<PayoutsResponseData>)
    ensures
        match r {
            Some(payload) => fulfill_response_model(json_tree(*value)) == Some(payload@),
            None => fulfill_response_model(json_tree(*value)) is None,
        },
{
    let status = match read_text(value, "status") {
        Some(status) => status,
        None => {
            return None;
        },
    };
    match WiseStatus::parse(&status) {
        Some(status) => Some(
            PayoutsResponseData {
                status: Some(status.to_payout_status()),
                connector_payout_id: String::new(),
                payout_eligible: None,
            },
        ),
        None => None,
    }
}

/// One entry of the error list of an error response.
#[derive(Debug, PartialEq, Eq)]
pub struct SubError {
    pub code: String,
    pub message: String,
}

pub struct SubErrorView {
    pub code: Seq<char>,
    pub message: Seq<char>,
}

impl View for SubError {
    type V = SubErrorView;

    open spec fn view(&self) -> SubErrorView {
        SubErrorView { code: self.code@, message: self.message@ }
    }
}

/// The error schema of the Wise API, as far as the engine reads it.
#[derive(Debug, PartialEq, Eq)]
pub struct ErrorResponse {
    pub errors: Option<Vec<SubError>>,
    pub status: Option<i32>,
    pub message: Option<String>,
}

pub struct ErrorResponseView {
    pub errors: Option<Seq<SubErrorView>>,
    pub status: Option<i32>,
    pub message: Option<Seq<char>>,
}

/// The views of a list of entries.
pub open spec fn sub_errors_view(errors: Seq<SubError>) -> Seq<SubErrorView> {
    Seq::new(errors.len(), |i: int| errors[i]@)
}

impl View for ErrorResponse {
    type V = ErrorResponseView;

    open spec fn view(&self) -> ErrorResponseView {
        ErrorResponseView {
            errors: match self.errors {
                Some(errors) => Some(sub_errors_view(errors@)),
                None => None,
            },
            status: self.status,
            message: option_text(self.message),
        }
    }
}

/// The entry that a document denotes: an object with a string `code` and a
/// string `message`.
pub open spec fn sub_error_of(tree: JsonTree) -> Option<SubErrorView> {
    match (text_field(tree, "code"@), text_field(tree, "message"@)) {
        (Some(code), Some(message)) => Some(SubErrorView { code, message }),
        _ => None,
    }
}

/// The entries that a list of documents denotes, if each denotes one.
pub open spec fn sub_errors_of(items: Seq<JsonTree>) -> Option<Seq<SubErrorView>> {
    if forall|i: int| 0 <= i < items.len() ==> (#[trigger] sub_error_of(items[i])) is Some {
        Some(Seq::new(items.len(), |i: int| sub_error_of(items[i])->Some_0))
    } else {
        None
    }
}

/// The `errors` field of an error response: absent or `null`, or a list of
/// entries; anything else is a mismatch.
pub open spec fn errors_field(tree: JsonTree) -> Result<Option<Seq<SubErrorView>>, ()> {
    match tree_member(tree, "errors"@) {
        None => Ok(None),
        Some(JsonTree::Null) => Ok(None),
        Some(JsonTree::Array(items)) => match sub_errors_of(items) {
            Some(errors) => Ok(Some(errors)),
            None => Err(()),
        },
        Some(_) => Err(()),
    }
}

/// The error response that a document denotes: an object whose `errors`,
/// `status` and `message`, where present, have the types of the schema.
/// Other members are not read.
pub open spec fn error_response_of(tree: JsonTree) -> Option<ErrorResponseView> {
    if !(tree is Object) {
        None
    } else {
        match (
            errors_field(tree),
            optional_integer_field(tree, "status"@, i32::MIN as int, i32::MAX as int),
            optional_text_field(tree, "message"@),
        ) {
            (Ok(errors), Ok(status), Ok(message)) => Some(
                ErrorResponseView {
                    errors,
                    status: match status {
                        Some(n) => Some(n as i32),
                        None => None,
                    },
                    message,
                },
            ),
            _ => None,
        }
    }
}

fn decode_sub_error(value: &serde_json::Value) -> (r: Option<SubError>)
    ensures
        match r {
            Some(entry) => sub_error_of(json_tree(*value)) == Some(entry@),
            None => sub_error_of(json_tree(*value)) is None,
        },
{
    let code = match read_text(value, "code") {
        Some(code) => code,
        None => {
            return None;
        },
    };
    match read_text(value, "message") {
        Some(message) => Some(SubError { code, message }),
        None => None,
    }
}

fn decode_sub_errors(values: &Vec<serde_json::Value>) -> (r: Option<Vec<SubError>>)
    ensures
        match r {
            Some(errors) => sub_errors_of(json_trees(values@)) == Some(sub_errors_view(errors@)),
            None => sub_errors_of(json_trees(values@)) is None,
        },
{
    let mut errors: Vec<SubError> = Vec::new();
    let mut i: usize = 0;
    while i < values.len()
        invariant
            i <= values.len(),
            errors@.len() == i,
            forall|k: int|
                0 <= k < i ==> sub_error_of(json_trees(values@)[k]) == Some(#[trigger] errors@[k]@),
        decreases values.len() - i,
    {
        match decode_sub_error(&values[i]) {
            Some(entry) => {
                errors.push(entry);
            },
            None => {
                assert(sub_error_of(json_trees(values@)[i as int]) is None);
                return None;
            },
        }
        i += 1;
    }
    proof {
        let items = json_trees(values@);
        assert forall|k: int| 0 <= k < items.len() implies (#[trigger] sub_error_of(
            items[k],
        )) is Some by {
            assert(sub_error_of(items[k]) == Some(errors@[k]@));
        }
        assert(sub_errors_of(items)->Some_0 =~= sub_errors_view(errors@));
    }
    Some(errors)
}

fn decode_errors_field(value: &serde_json::Value) -> (r: Result<Option<Vec<SubError>>, ()>)
    ensures
        match r {
            Ok(Some(errors)) => errors_field(json_tree(*value)) == Ok::<
                Option<Seq<SubErrorView>>,
                (),
            >(Some(sub_errors_view(errors@))),
            Ok(None) => errors_field(json_tree(*value)) == Ok::<Option<Seq<SubErrorView>>, ()>(
                None,
            ),
            Err(_) => errors_field(json_tree(*value)) is Err,
        },
{
    match json_member(value, "errors") {
        None => Ok(None),
        Some(member) => {
            if json_is_null(member) {
                Ok(None)
            } else {
                match json_as_array(member) {
                    Some(values) => match decode_sub_errors(values) {
                        Some(errors) => Ok(Some(errors)),
                        None => Err(()),
                    },
                    None => Err(()),
                }
            }
        },
    }
}

impl ErrorResponse {
    /// Decodes an error response from a parsed document.
    pub fn decode(value: &serde_json::Value) -> (r: Option<ErrorResponse>)
        ensures
            match r {
                Some(response) => error_response_of(json_tree(*value)) == Some(response@),
                None => error_response_of(json_tree(*value)) is None,
            },
    {
        if !json_is_object(value) {
            return None;
        }
        let errors = match decode_errors_field(value) {
            Ok(errors) => errors,
            Err(_) => {
                return None;
            },
        };
        let status = match read_optional_i32(value, "status") {
            Ok(status) => status,
            Err(_) => {
                return None;
            },
        };
        match read_optional_text(value, "message") {
            Ok(message) => Some(ErrorResponse { errors, status, message }),
            Err(_) => None,
        }
    }
}

} // verus!
