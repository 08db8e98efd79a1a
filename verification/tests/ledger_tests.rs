use txrp::ledger::{
    account_info_params, balance_drops_text, current_ledger_index, empty_params,
    last_ledger_sequence, minimum_fee_text, open_ledger_fee_text, rpc_request_body,
    sequence_from_account_info, transaction_hash, JsonNumber, JsonValue,
};

fn object(members: Vec<(&str, JsonValue)>) -> JsonValue {
    JsonValue::Object(members.into_iter().map(|(k, v)| (k.to_string(), v)).collect())
}

fn text(s: &str) -> JsonValue {
    JsonValue::String(s.to_string())
}

fn account_info_reply(balance: JsonValue, sequence: JsonValue) -> JsonValue {
    object(vec![("result", object(vec![("account_data", object(vec![("Balance", balance), ("Sequence", sequence)]))]))])
}

#[test]
fn account_info_request_shape() {
    match account_info_params("rAddr") {
        JsonValue::Object(m) => {
            assert_eq!(m.len(), 2);
            assert_eq!(m[0].0, "account");
            assert!(matches!(&m[0].1, JsonValue::String(s) if s == "rAddr"));
            assert_eq!(m[1].0, "ledger_index");
            assert!(matches!(&m[1].1, JsonValue::String(s) if s == "validated"));
        }
        _ => panic!("not an object"),
    }
    match rpc_request_body("fee", empty_params()) {
        JsonValue::Object(m) => {
            assert_eq!(m[0].0, "method");
            assert!(matches!(&m[0].1, JsonValue::String(s) if s == "fee"));
            assert_eq!(m[1].0, "params");
            assert!(matches!(&m[1].1, JsonValue::Array(items) if items.len() == 1));
        }
        _ => panic!("not an object"),
    }
}

#[test]
fn balance_and_sequence_from_account_info() {
    let reply = account_info_reply(text("25000000"), JsonValue::Number(JsonNumber::PosInt(42)));
    assert_eq!(balance_drops_text(&reply), "25000000");
    assert_eq!(sequence_from_account_info(&reply), Some(42));
    let odd = account_info_reply(JsonValue::Number(JsonNumber::PosInt(5)), JsonValue::Number(JsonNumber::NegInt(-1)));
    assert_eq!(balance_drops_text(&odd), "0");
    assert_eq!(sequence_from_account_info(&odd), None);
    assert_eq!(balance_drops_text(&JsonValue::Null), "0");
    assert_eq!(sequence_from_account_info(&object(vec![("result", JsonValue::Bool(true))])), None);
}

#[test]
fn first_member_wins() {
    let reply = object(vec![
        ("result", object(vec![("ledger_current_index", JsonValue::Number(JsonNumber::PosInt(90)))])),
        ("result", object(vec![("ledger_current_index", JsonValue::Number(JsonNumber::PosInt(1)))])),
    ]);
    assert_eq!(current_ledger_index(&reply), Some(90));
    assert_eq!(current_ledger_index(&object(vec![])), None);
}

#[test]
fn last_ledger_sequence_truncates_then_adds() {
    assert_eq!(last_ledger_sequence(100, 5), 105);
    assert_eq!(last_ledger_sequence(0x1_0000_0007, 5), 12);
}

#[test]
fn fees_and_hash() {
    let fee = object(vec![("result", object(vec![("drops", object(vec![
        ("minimum_fee", text("10")),
        ("open_ledger_fee", text("12")),
    ]))]))]);
    assert_eq!(minimum_fee_text(&fee), Some("10".to_string()));
    assert_eq!(open_ledger_fee_text(&fee), Some("12".to_string()));
    assert_eq!(transaction_hash(&fee), None);
    let submitted = object(vec![("result", object(vec![("tx_json", object(vec![("hash", text("ABCD"))]))]))]);
    assert_eq!(transaction_hash(&submitted), Some("ABCD".to_string()));
    let float_fee = object(vec![("result", object(vec![("drops", object(vec![("minimum_fee", JsonValue::Number(JsonNumber::Float))]))]))]);
    assert_eq!(minimum_fee_text(&float_fee), None);
}
