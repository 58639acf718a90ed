use std::cell::RefCell;

use token_minting_module::{
    DecodeFault, TokenMintingError, TokenMintingModule, TokenMintingRequest, TokenMintingResponse,
    Value,
};

fn text(content: &str) -> Value {
    Value::Text(String::from(content))
}

fn request_value(amount: i128, recipient: &str) -> Value {
    Value::Dict(vec![
        (text("amount"), Value::Integer(amount)),
        (text("recipient"), text(recipient)),
    ])
}

fn decode(value: &Value) -> Result<TokenMintingRequest, TokenMintingError> {
    TokenMintingRequest::from_value(value)
}

fn fault(value: &Value) -> DecodeFault {
    match decode(value) {
        Err(TokenMintingError::SerdeError(fault)) => fault,
        other => panic!("expected a decode fault, got {:?}", other),
    }
}

#[test]
fn field_finds_the_first_entry_under_a_text_key() {
    let value = Value::Dict(vec![
        (Value::Integer(1), text("by number")),
        (Value::Bytes(vec![b'k']), text("by bytes")),
        (text("k"), text("first")),
        (text("k"), text("second")),
    ]);
    assert_eq!(value.field("k"), Some(&text("first")));
    assert_eq!(value.field("K"), None);
    assert_eq!(value.field(""), None);
}

#[test]
fn field_of_a_value_that_is_no_dictionary_is_none() {
    assert_eq!(Value::Null.field("amount"), None);
    assert_eq!(text("amount").field("amount"), None);
    assert_eq!(Value::Array(vec![text("amount"), Value::Integer(1)]).field("amount"), None);
    assert_eq!(Value::Dict(Vec::new()).field("amount"), None);
    assert_eq!(Value::Tag(1, Box::new(request_value(1, "a"))).field("amount"), None);
}

#[test]
fn value_builders_make_text_and_single_entry() {
    assert_eq!(Value::text("abc"), text("abc"));
    assert_eq!(
        Value::single_entry("key", Value::Bool(true)),
        Value::Dict(vec![(text("key"), Value::Bool(true))])
    );
}

#[test]
fn request_is_read_from_a_dictionary() {
    let request = decode(&request_value(100, "alice")).unwrap();
    assert_eq!(request, TokenMintingRequest::new(100, String::from("alice")));
    assert_eq!(request.amount, 100);
    assert_eq!(request.recipient, "alice");
}

#[test]
fn request_with_zero_amount_and_empty_recipient_is_read() {
    let request = decode(&request_value(0, "")).unwrap();
    assert_eq!(request, TokenMintingRequest::new(0, String::new()));
}

#[test]
fn request_with_the_largest_amount_is_read() {
    let request = decode(&request_value(u64::MAX as i128, "max")).unwrap();
    assert_eq!(request.amount, u64::MAX);
}

#[test]
fn request_fields_may_come_in_any_order_among_others() {
    let value = Value::Dict(vec![
        (text("memo"), text("ignored")),
        (text("recipient"), text("bob")),
        (Value::Integer(7), Value::Null),
        (text("amount"), Value::Integer(42)),
        (text("extra"), Value::Array(vec![Value::Float(0x3ff0_0000_0000_0000)])),
    ]);
    assert_eq!(decode(&value).unwrap(), TokenMintingRequest::new(42, String::from("bob")));
}

#[test]
fn request_that_is_no_dictionary_is_a_fault() {
    assert_eq!(fault(&Value::Null), DecodeFault::NotADictionary);
    assert_eq!(fault(&text("amount")), DecodeFault::NotADictionary);
    assert_eq!(
        fault(&Value::Array(vec![Value::Integer(100), text("alice")])),
        DecodeFault::NotADictionary
    );
}

#[test]
fn request_without_amount_is_a_fault() {
    let value = Value::Dict(vec![(text("recipient"), text("alice"))]);
    assert_eq!(fault(&value), DecodeFault::MissingAmount);
    assert_eq!(fault(&Value::Dict(Vec::new())), DecodeFault::MissingAmount);
}

#[test]
fn request_without_recipient_is_a_fault() {
    let value = Value::Dict(vec![(text("amount"), Value::Integer(100))]);
    assert_eq!(fault(&value), DecodeFault::MissingRecipient);
}

#[test]
fn request_with_an_amount_out_of_range_is_a_fault() {
    assert_eq!(fault(&request_value(-1, "alice")), DecodeFault::InvalidAmount);
    assert_eq!(fault(&request_value(u64::MAX as i128 + 1, "alice")), DecodeFault::InvalidAmount);
    assert_eq!(fault(&request_value(i128::MIN, "alice")), DecodeFault::InvalidAmount);
    assert_eq!(fault(&request_value(i128::MAX, "alice")), DecodeFault::InvalidAmount);
}

#[test]
fn request_with_an_amount_that_is_no_integer_is_a_fault() {
    let value = Value::Dict(vec![(text("amount"), text("100")), (text("recipient"), text("alice"))]);
    assert_eq!(fault(&value), DecodeFault::InvalidAmount);
}

#[test]
fn request_with_a_recipient_that_is_no_text_is_a_fault() {
    let value = Value::Dict(vec![
        (text("amount"), Value::Integer(100)),
        (text("recipient"), Value::Bytes(b"alice".to_vec())),
    ]);
    assert_eq!(fault(&value), DecodeFault::InvalidRecipient);
}

#[test]
fn request_faults_report_the_amount_first() {
    let value = Value::Dict(vec![(text("amount"), Value::Null), (text("recipient"), Value::Null)]);
    assert_eq!(fault(&value), DecodeFault::InvalidAmount);
}

#[test]
fn request_value_reads_back_as_the_request() {
    for (amount, recipient) in [(100u64, "alice"), (0, ""), (u64::MAX, "a \"b\"")] {
        let request = TokenMintingRequest::new(amount, String::from(recipient));
        let value = request.to_value();
        assert_eq!(value, request_value(amount as i128, recipient));
        assert_eq!(decode(&value).unwrap(), request);
    }
}

#[test]
fn response_value_nests_the_identifier_under_result() {
    let response = TokenMintingResponse { tx_hash: String::from("000000000000000000000000deadbeef") };
    assert_eq!(
        response.to_value(),
        Value::Dict(vec![(
            text("result"),
            Value::Dict(vec![(text("tx_hash"), text("000000000000000000000000deadbeef"))]),
        )])
    );
}

#[test]
fn handle_answers_with_the_identifier_that_was_sent() {
    let sent: RefCell<Vec<String>> = RefCell::new(Vec::new());
    let module = TokenMintingModule::new(|payload: String| -> Result<(), String> {
        sent.borrow_mut().push(payload);
        Ok(())
    });
    let reply = module.handle(request_value(100, "alice")).unwrap();
    let sent = sent.borrow();
    assert_eq!(sent.len(), 1);
    let envelope: serde_json::Value = serde_json::from_str(&sent[0]).unwrap();
    let tx_hash = envelope["data"]["tx_hash"].as_str().unwrap();
    assert_eq!(tx_hash.len(), 32);
    assert!(tx_hash.chars().all(|c| matches!(c, '0'..='9' | 'a'..='f')));
    assert_eq!(envelope["type"].as_str(), Some("token_minting"));
    assert_eq!(envelope["data"]["amount"].as_u64(), Some(100));
    assert_eq!(envelope["data"]["recipient"].as_str(), Some("alice"));
    assert_eq!(
        reply,
        Value::Dict(vec![(text("result"), Value::Dict(vec![(text("tx_hash"), text(tx_hash))]))])
    );
}

#[test]
fn handle_rejects_a_value_without_amount_before_any_call() {
    let module = TokenMintingModule::new(|_payload: String| -> Result<(), String> {
        panic!("the client must not be called")
    });
    let reply = module.handle(Value::Dict(vec![(text("recipient"), text("alice"))]));
    assert_eq!(reply, Err(TokenMintingError::SerdeError(DecodeFault::MissingAmount)));
}

#[test]
fn handle_rejects_a_value_without_recipient_before_any_call() {
    let module = TokenMintingModule::new(|_payload: String| -> Result<(), String> {
        panic!("the client must not be called")
    });
    let reply = module.handle(Value::Dict(vec![(text("amount"), Value::Integer(100))]));
    assert_eq!(reply, Err(TokenMintingError::SerdeError(DecodeFault::MissingRecipient)));
}

#[test]
fn handle_rejects_malformed_values_before_any_call() {
    let module = TokenMintingModule::new(|_payload: String| -> Result<(), String> {
        panic!("the client must not be called")
    });
    assert_eq!(
        module.handle(Value::Null),
        Err(TokenMintingError::SerdeError(DecodeFault::NotADictionary))
    );
    assert_eq!(
        module.handle(request_value(-5, "alice")),
        Err(TokenMintingError::SerdeError(DecodeFault::InvalidAmount))
    );
    assert_eq!(
        module.handle(Value::Dict(vec![
            (text("amount"), Value::Integer(1)),
            (text("recipient"), Value::Integer(2)),
        ])),
        Err(TokenMintingError::SerdeError(DecodeFault::InvalidRecipient))
    );
}

#[test]
fn handle_reports_a_broadcast_failure() {
    let module = TokenMintingModule::new(|_payload: String| -> Result<(), String> {
        Err(String::from("rejected by the ledger"))
    });
    assert_eq!(
        module.handle(request_value(100, "alice")),
        Err(TokenMintingError::BroadcastError(String::from("rejected by the ledger")))
    );
}

#[test]
fn handle_accepts_zero_amount_and_empty_recipient() {
    let module = TokenMintingModule::new(|_payload: String| -> Result<(), String> { Ok(()) });
    let reply = module.handle(request_value(0, "")).unwrap();
    match reply.field("result").and_then(|result| result.field("tx_hash")) {
        Some(Value::Text(tx_hash)) => assert_eq!(tx_hash.len(), 32),
        other => panic!("no identifier in the reply: {:?}", other),
    }
}

#[test]
fn error_messages_name_what_failed_and_the_cause() {
    assert_eq!(
        TokenMintingError::BroadcastError(String::from("timed out")).message(),
        "Failed to broadcast transaction: timed out"
    );
    assert_eq!(
        TokenMintingError::SerdeError(DecodeFault::MissingAmount).message(),
        "Failed to serialize token minting request: missing field `amount`"
    );
    assert_eq!(
        TokenMintingError::SerdeError(DecodeFault::MissingRecipient).message(),
        "Failed to serialize token minting request: missing field `recipient`"
    );
}

#[test]
fn decode_faults_describe_themselves() {
    assert_eq!(DecodeFault::NotADictionary.describe(), "expected a dictionary");
    assert_eq!(DecodeFault::MissingAmount.describe(), "missing field `amount`");
    assert_eq!(
        DecodeFault::InvalidAmount.describe(),
        "field `amount` is not an unsigned 64-bit integer"
    );
    assert_eq!(DecodeFault::MissingRecipient.describe(), "missing field `recipient`");
    assert_eq!(DecodeFault::InvalidRecipient.describe(), "field `recipient` is not a text");
}
