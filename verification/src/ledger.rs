//! The JSON-RPC exchanges with the XRP Ledger: the request bodies this
//! library sends and the fields it reads from the replies.

use vstd::prelude::*;
use crate::text::str_eq;

verus! {

/// A JSON number, as far as the ledger replies are read: an integer is
/// kept, a number with a fraction or exponent is only marked.
#[derive(Clone, Debug)]
pub enum JsonNumber {
    /// A non-negative integer.
    PosInt(u64),
    /// A negative integer.
    NegInt(i64),
    /// Any other number.
    Float,
}

/// A JSON value; an object lists its members in order.
#[derive(Debug)]
pub enum JsonValue {
    Null,
    Bool(bool),
    Number(JsonNumber),
    String(String),
    Array(Vec<JsonValue>),
    Object(Vec<(String, JsonValue)>),
}

/// The value of the first member named `key` among `entries`.
pub open spec fn member(entries: Seq<(String, JsonValue)>, key: Seq<char>) -> Option<JsonValue>
    decreases entries.len(),
{
    if entries.len() == 0 {
        None
    } else if entries[0].0@ == key {
        Some(entries[0].1)
    } else {
        member(entries.drop_first(), key)
    }
}

/// The member found under `key` is the first one of that name: `member`
/// gives the value of an entry named `key` none of whose predecessors has
/// that name, and `None` exactly where no entry is named `key`.
pub proof fn lemma_member_is_first_of_its_name(entries: Seq<(String, JsonValue)>, key: Seq<char>)
    ensures
        member(entries, key) matches Some(v) ==> exists|i: int| {
            &&& 0 <= i < entries.len()
            &&& #[trigger] entries[i].0@ == key
            &&& entries[i].1 == v
            &&& forall|j: int| 0 <= j < i ==> (#[trigger] entries[j]).0@ != key
        },
        member(entries, key) is None <==> forall|i: int| 0 <= i < entries.len() ==> (#[trigger] entries[i]).0@ != key,
    decreases entries.len(),
{
    if entries.len() > 0 {
        let rest = entries.drop_first();
        lemma_member_is_first_of_its_name(rest, key);
        if entries[0].0@ == key {
            assert(entries[0].0@ == key);
        } else {
            if let Some(v) = member(entries, key) {
                let i = choose|i: int| {
                    &&& 0 <= i < rest.len()
                    &&& #[trigger] rest[i].0@ == key
                    &&& rest[i].1 == v
                    &&& forall|j: int| 0 <= j < i ==> (#[trigger] rest[j]).0@ != key
                };
                assert(entries[i + 1] == rest[i]);
                assert forall|j: int| 0 <= j < i + 1 implies (#[trigger] entries[j]).0@ != key by {
                    if j > 0 {
                        assert(entries[j] == rest[j - 1]);
                    }
                }
                assert(entries[i + 1].0@ == key);
            }
            assert((forall|i: int| 0 <= i < entries.len() ==> (#[trigger] entries[i]).0@ != key)
                <==> (forall|i: int| 0 <= i < rest.len() ==> (#[trigger] rest[i]).0@ != key)) by {
                if forall|i: int| 0 <= i < rest.len() ==> (#[trigger] rest[i]).0@ != key {
                    assert forall|i: int| 0 <= i < entries.len() implies (#[trigger] entries[i]).0@ != key by {
                        if i > 0 {
                            assert(entries[i] == rest[i - 1]);
                        }
                    }
                }
                if forall|i: int| 0 <= i < entries.len() ==> (#[trigger] entries[i]).0@ != key {
                    assert forall|i: int| 0 <= i < rest.len() implies (#[trigger] rest[i]).0@ != key by {
                        assert(rest[i] == entries[i + 1]);
                    }
                }
            }
        }
    }
}

/// The member named `key` of an object; `None` for a missing member or a
/// value that is not an object.
pub open spec fn member_of(value: JsonValue, key: Seq<char>) -> Option<JsonValue> {
    match value {
        JsonValue::Object(entries) => member(entries@, key),
        _ => None,
    }
}

/// `value[key]` as serde_json reads it: the member of an object named `key`,
/// and null for a missing member or a value that is not an object.
pub open spec fn index(value: JsonValue, key: Seq<char>) -> JsonValue {
    match member_of(value, key) {
        Some(v) => v,
        None => JsonValue::Null,
    }
}

/// `value.as_str()`: the text of a string.
pub open spec fn as_text(value: JsonValue) -> Option<Seq<char>> {
    match value {
        JsonValue::String(s) => Some(s@),
        _ => None,
    }
}

/// `value.as_u64()`: a non-negative integer.
pub open spec fn as_u64(value: JsonValue) -> Option<u64> {
    match value {
        JsonValue::Number(JsonNumber::PosInt(n)) => Some(n),
        _ => None,
    }
}

/// The member named `key`, or `None` for a missing member or a value that
/// is not an object.
pub fn get<'a>(value: &'a JsonValue, key: &str) -> (res: Option<&'a JsonValue>)
    ensures
        match res {
            Some(v) => member_of(*value, key@) == Some(*v),
            None => member_of(*value, key@) is None,
        },
{
    match value {
        JsonValue::Object(entries) => {
            let mut i: usize = 0;
            assert(entries@.skip(0) =~= entries@);
            while i < entries.len()
                invariant
                    i <= entries@.len(),
                    member_of(*value, key@) == member(entries@, key@),
                    member(entries@, key@) == member(entries@.skip(i as int), key@),
                decreases entries@.len() - i,
            {
                let ghost rest = entries@.skip(i as int);
                assert(rest.drop_first() =~= entries@.skip(i + 1));
                let pair = &entries[i];
                if str_eq(pair.0.as_str(), key) {
                    assert(rest[0] == entries@[i as int]);
                    return Some(&pair.1);
                }
                i = i + 1;
            }
            assert(entries@.skip(i as int).len() == 0);
            None
        },
        _ => None,
    }
}

/// `value[k0][k1][k2]` as serde_json reads it.
pub open spec fn index3(value: JsonValue, k0: Seq<char>, k1: Seq<char>, k2: Seq<char>) -> JsonValue {
    index(index(index(value, k0), k1), k2)
}

/// Follows the members `k0`, `k1`, `k2`; `None` where `index3` is null
/// because a member is missing or a value is not an object.
fn get3<'a>(value: &'a JsonValue, k0: &str, k1: &str, k2: &str) -> (res: Option<&'a JsonValue>)
    ensures
        match res {
            Some(v) => index3(*value, k0@, k1@, k2@) == *v,
            None => index3(*value, k0@, k1@, k2@) == JsonValue::Null,
        },
{
    match get(value, k0) {
        None => None,
        Some(v0) => match get(v0, k1) {
            None => None,
            Some(v1) => get(v1, k2),
        },
    }
}

/// The text of a string value.
fn text_value(value: Option<&JsonValue>) -> (res: Option<String>)
    ensures
        match value {
            Some(v) => match res {
                Some(t) => as_text(*v) == Some(t@),
                None => as_text(*v) is None,
            },
            None => res is None,
        },
{
    match value {
        Some(JsonValue::String(s)) => Some(s.clone()),
        _ => None,
    }
}

/// The non-negative integer of a number value.
fn u64_value(value: Option<&JsonValue>) -> (res: Option<u64>)
    ensures
        match value {
            Some(v) => res == as_u64(*v),
            None => res is None,
        },
{
    match value {
        Some(JsonValue::Number(JsonNumber::PosInt(n))) => Some(*n),
        _ => None,
    }
}

/// A string value.
fn text(s: &str) -> (res: JsonValue)
    ensures
        as_text(res) == Some(s@),
{
    JsonValue::String(s.to_string())
}

/// The members of an object have distinct names, as in a JSON object that
/// serde_json reads, so the first member of a name is the only one.
pub open spec fn distinct_members(value: JsonValue) -> bool {
    match value {
        JsonValue::Object(entries) => forall|i: int, j: int|
            0 <= i < j < entries@.len() ==> #[trigger] entries@[i].0@ != #[trigger] entries@[j].0@,
        _ => true,
    }
}

/// The parameters of an `account_info` request: the account and the
/// validated ledger.
pub open spec fn is_account_info_params(value: JsonValue, address: Seq<char>) -> bool {
    &&& value matches JsonValue::Object(entries)
    &&& entries@.len() == 2
    &&& entries@[0].0@ == "account"@
    &&& as_text(entries@[0].1) == Some(address)
    &&& entries@[1].0@ == "ledger_index"@
    &&& as_text(entries@[1].1) == Some("validated"@)
}

/// The parameters `{"account": address, "ledger_index": "validated"}` of an
/// `account_info` request.
pub fn account_info_params(address: &str) -> (res: JsonValue)
    ensures
        is_account_info_params(res, address@),
        distinct_members(res),
{
    proof {
        reveal_strlit("account");
        reveal_strlit("ledger_index");
    }
    let mut entries: Vec<(String, JsonValue)> = Vec::new();
    entries.push((String::from_str("account"), text(address)));
    entries.push((String::from_str("ledger_index"), text("validated")));
    assert(entries@[0].0@.len() != entries@[1].0@.len());
    JsonValue::Object(entries)
}

/// The parameters of a `submit` request: the signed transaction.
pub open spec fn is_submit_params(value: JsonValue, tx_json: JsonValue) -> bool {
    &&& value matches JsonValue::Object(entries)
    &&& entries@.len() == 1
    &&& entries@[0].0@ == "tx_json"@
    &&& entries@[0].1 == tx_json
}

/// The parameters `{"tx_json": tx_json}` of a `submit` request.
pub fn submit_params(tx_json: JsonValue) -> (res: JsonValue)
    ensures
        is_submit_params(res, tx_json),
        distinct_members(res),
{
    let mut entries: Vec<(String, JsonValue)> = Vec::new();
    entries.push((String::from_str("tx_json"), tx_json));
    JsonValue::Object(entries)
}

/// The empty parameters `{}`.
pub fn empty_params() -> (res: JsonValue)
    ensures
        res matches JsonValue::Object(entries) && entries@.len() == 0,
        distinct_members(res),
{
    JsonValue::Object(Vec::new())
}

/// The body of a JSON-RPC call of `method` with `params`.
pub open spec fn is_rpc_request_body(value: JsonValue, method: Seq<char>, params: JsonValue) -> bool {
    &&& value matches JsonValue::Object(entries)
    &&& entries@.len() == 2
    &&& entries@[0].0@ == "method"@
    &&& as_text(entries@[0].1) == Some(method)
    &&& entries@[1].0@ == "params"@
    &&& entries@[1].1 matches JsonValue::Array(items)
    &&& items@ == seq![params]
}

/// The body `{"method": method, "params": [params]}` of a JSON-RPC call.
pub fn rpc_request_body(method: &str, params: JsonValue) -> (res: JsonValue)
    ensures
        is_rpc_request_body(res, method@, params),
        distinct_members(res),
{
    proof {
        reveal_strlit("method");
        reveal_strlit("params");
    }
    let mut items: Vec<JsonValue> = Vec::new();
    items.push(params);
    let mut entries: Vec<(String, JsonValue)> = Vec::new();
    entries.push((String::from_str("method"), text(method)));
    entries.push((String::from_str("params"), JsonValue::Array(items)));
    assert(entries@[0].0@[0] != entries@[1].0@[0]);
    JsonValue::Object(entries)
}

/// The account balance in drops that an `account_info` reply states:
/// `result.account_data.Balance` where it is a string, `"0"` otherwise.
pub fn balance_drops_text(response: &JsonValue) -> (res: String)
    ensures
        res@ == (match as_text(index3(*response, "result"@, "account_data"@, "Balance"@)) {
            Some(t) => t,
            None => "0"@,
        }),
{
    match text_value(get3(response, "result", "account_data", "Balance")) {
        Some(t) => t,
        None => String::from_str("0"),
    }
}

/// The account sequence that an `account_info` reply states:
/// `result.account_data.Sequence` where it is a non-negative integer.
pub fn sequence_from_account_info(response: &JsonValue) -> (res: Option<u64>)
    ensures
        res == as_u64(index3(*response, "result"@, "account_data"@, "Sequence"@)),
{
    match get3(response, "result", "account_data", "Sequence") {
        Some(v) => u64_value(Some(v)),
        None => None,
    }
}

/// The index of the current ledger that a `ledger_current` reply states:
/// `result.ledger_current_index` where it is a non-negative integer.
pub fn current_ledger_index(response: &JsonValue) -> (res: Option<u64>)
    ensures
        res == as_u64(index(index(*response, "result"@), "ledger_current_index"@)),
{
    match get(response, "result") {
        None => None,
        Some(result) => match get(result, "ledger_current_index") {
            Some(v) => u64_value(Some(v)),
            None => None,
        },
    }
}

/// The last ledger in which a transaction may be included: the current
/// index, cut to 32 bits, plus `advance`.
pub fn last_ledger_sequence(current: u64, advance: u32) -> (res: u32)
    requires
        current % 0x1_0000_0000 + advance <= u32::MAX,
    ensures
        res == current % 0x1_0000_0000 + advance,
{
    let truncated: u32 = #[verifier::truncate] (current as u32);
    assert(truncated == current % 0x1_0000_0000) by (bit_vector)
        requires
            truncated == current as u32,
    ;
    truncated + advance
}

/// The minimum fee, in drops, that a `fee` reply states:
/// `result.drops.minimum_fee` where it is a string.
pub fn minimum_fee_text(response: &JsonValue) -> (res: Option<String>)
    ensures
        match res {
            Some(t) => as_text(index3(*response, "result"@, "drops"@, "minimum_fee"@)) == Some(t@),
            None => as_text(index3(*response, "result"@, "drops"@, "minimum_fee"@)) is None,
        },
{
    text_value(get3(response, "result", "drops", "minimum_fee"))
}

/// The open-ledger fee, in drops, that a `fee` reply states:
/// `result.drops.open_ledger_fee` where it is a string.
pub fn open_ledger_fee_text(response: &JsonValue) -> (res: Option<String>)
    ensures
        match res {
            Some(t) => as_text(index3(*response, "result"@, "drops"@, "open_ledger_fee"@)) == Some(t@),
            None => as_text(index3(*response, "result"@, "drops"@, "open_ledger_fee"@)) is None,
        },
{
    text_value(get3(response, "result", "drops", "open_ledger_fee"))
}

/// The hash of a submitted transaction that a `submit` reply states:
/// `result.tx_json.hash` where it is a string.
pub fn transaction_hash(response: &JsonValue) -> (res: Option<String>)
    ensures
        match res {
            Some(t) => as_text(index3(*response, "result"@, "tx_json"@, "hash"@)) == Some(t@),
            None => as_text(index3(*response, "result"@, "tx_json"@, "hash"@)) is None,
        },
{
    text_value(get3(response, "result", "tx_json", "hash"))
}

} // verus!
