//! The device's response envelope and command payloads.
//!
//! A device response is a JSON object; the library models it as an
//! ordered list of fields whose values keep exactly what the envelope
//! logic reads: an integer, a string, or the fact that the value was
//! neither. The envelope rule: the object must carry an `error_code`
//! field, numeric or numeric-string; `0` means success and the
//! remaining fields are the payload; anything else is a device
//! rejection carrying the code.

use vstd::prelude::*;

use crate::error::PixooError;
use crate::commands::PixooCommand;
use crate::numbers::int_str_val;
use crate::numbers::parse_i64;
use crate::numbers::valid_int_str;
use crate::text::str_eq;

verus! {

/// What a device-response field holds, as far as the envelope logic
/// reads it.
#[derive(Clone, Debug, PartialEq, Eq)]
pub enum FieldValue {
    /// A JSON number with an exact `i64` value.
    Int(i64),
    /// A JSON number with no `i64` value (too large, or fractional).
    BigNumber,
    /// A JSON string.
    Text(String),
    /// Null, a boolean, an array or a nested object.
    Other,
}

/// One field of a device response: a key and what it holds.
#[derive(Clone, Debug, PartialEq, Eq)]
pub struct ResponseField {
    pub key: String,
    pub value: FieldValue,
}

/// A device response with the status field stripped.
pub type PixooResponse = Vec<ResponseField>;

/// The index of the first field with key `k`, or `-1`.
pub open spec fn find_key(fields: Seq<ResponseField>, k: Seq<char>) -> int
    decreases fields.len(),
{
    if fields.len() == 0 {
        -1
    } else if fields[0].key@ == k {
        0
    } else if find_key(fields.subrange(1, fields.len() as int), k) == -1 {
        -1
    } else {
        find_key(fields.subrange(1, fields.len() as int), k) + 1
    }
}

proof fn lemma_find_key_none(fields: Seq<ResponseField>, k: Seq<char>)
    requires
        forall|j: int| 0 <= j < fields.len() ==> fields[j].key@ != k,
    ensures
        find_key(fields, k) == -1,
    decreases fields.len(),
{
    if fields.len() > 0 {
        lemma_find_key_none(fields.subrange(1, fields.len() as int), k);
    }
}

proof fn lemma_find_key_first(fields: Seq<ResponseField>, k: Seq<char>, i: int)
    requires
        0 <= i < fields.len(),
        fields[i].key@ == k,
        forall|j: int| 0 <= j < i ==> fields[j].key@ != k,
    ensures
        find_key(fields, k) == i,
    decreases i,
{
    if i > 0 {
        lemma_find_key_first(fields.subrange(1, fields.len() as int), k, i - 1);
    }
}

/// Finds the first field with the given key.
fn find_field(fields: &Vec<ResponseField>, key: &str) -> (r: Option<usize>)
    ensures
        match r {
            Some(i) => i < fields@.len() && find_key(fields@, key@) == i,
            None => find_key(fields@, key@) == -1,
        },
{
    let n = fields.len();
    let mut i: usize = 0;
    while i < n
        invariant
            0 <= i <= n,
            n == fields@.len(),
            forall|j: int| 0 <= j < i ==> fields@[j].key@ != key@,
        decreases n - i,
    {
        if str_eq(fields[i].key.as_str(), key) {
            proof {
                lemma_find_key_first(fields@, key@, i as int);
            }
            return Some(i);
        }
        i = i + 1;
    }
    proof {
        lemma_find_key_none(fields@, key@);
    }
    None
}

/// The `i64` a field value denotes: the value of a number, or of a
/// numeric string in range, read exactly as the device's integer
/// fields are.
pub open spec fn spec_field_i64(v: FieldValue) -> Option<i64> {
    match v {
        FieldValue::Int(i) => Some(i),
        FieldValue::Text(t) => if valid_int_str(t@) && i64::MIN <= int_str_val(t@)
            && int_str_val(t@) <= i64::MAX {
            Some(int_str_val(t@) as i64)
        } else {
            None
        },
        FieldValue::BigNumber => None,
        FieldValue::Other => None,
    }
}

/// Reads a field value as an `i64`, accepting a number or a numeric
/// string, as the device writes its integer fields.
pub fn field_i64(v: &FieldValue) -> (r: Option<i64>)
    ensures
        r == spec_field_i64(*v),
{
    match v {
        FieldValue::Int(i) => Some(*i),
        FieldValue::Text(t) => parse_i64(t.as_str()),
        FieldValue::BigNumber => None,
        FieldValue::Other => None,
    }
}

/// How the envelope classifies a response object.
pub enum ResponseOutcome {
    /// No `error_code` field.
    MissingStatus,
    /// An `error_code` field that holds no integer.
    InvalidStatus(FieldValue),
    /// A nonzero status: the device rejected the command.
    Rejected { code: i64, payload: Seq<ResponseField> },
    /// Status zero: the remaining fields are the payload.
    Accepted { payload: Seq<ResponseField> },
}

/// The envelope rule over a parsed response object.
pub open spec fn spec_parse_response(fields: Seq<ResponseField>) -> ResponseOutcome {
    let i = find_key(fields, "error_code"@);
    if i == -1 {
        ResponseOutcome::MissingStatus
    } else {
        match spec_field_i64(fields[i].value) {
            Option::None => ResponseOutcome::InvalidStatus(fields[i].value),
            Option::Some(code) => if code != 0 {
                ResponseOutcome::Rejected { code, payload: fields.remove(i) }
            } else {
                ResponseOutcome::Accepted { payload: fields.remove(i) }
            },
        }
    }
}

/// Classifies a parsed response object by the envelope rule: the first
/// `error_code` field is removed and read as an integer; status zero
/// hands back the remaining fields, anything else is an error.
pub fn parse_response_fields(fields: Vec<ResponseField>) -> (r: Result<
    PixooResponse,
    PixooError,
>)
    ensures
        match spec_parse_response(fields@) {
            ResponseOutcome::MissingStatus => r == Result::<PixooResponse, PixooError>::Err(
                PixooError::MissingErrorCode,
            ),
            ResponseOutcome::InvalidStatus(v) => r matches Err(PixooError::InvalidErrorCode(w))
                && w == v,
            ResponseOutcome::Rejected { code, payload } => r matches Err(
                PixooError::DeviceError { code: c, payload: p },
            ) && c == code && p@ == payload,
            ResponseOutcome::Accepted { payload } => r matches Ok(p) && p@ == payload,
        },
{
    let mut fields = fields;
    let idx = match find_field(&fields, "error_code") {
        Some(i) => i,
        None => {
            return Err(PixooError::MissingErrorCode);
        },
    };
    let field = fields.remove(idx);
    match field_i64(&field.value) {
        None => Err(PixooError::InvalidErrorCode(field.value)),
        Some(code) => if code != 0 {
            Err(PixooError::DeviceError { code, payload: fields })
        } else {
            Ok(fields)
        },
    }
}

/// Names what `parse_json_object` hands back for a given body: the
/// fields of the body's JSON object, in order, or nothing when the body
/// is not a JSON object.
pub uninterp spec fn json_object_fields(body: Seq<char>) -> Option<Seq<ResponseField>>;

/// Relies on `serde_json::from_str`, `serde_json::Map` iteration and
/// `serde_json::Number::as_i64`: a body either parses to a JSON object,
/// whose entries come out in order with each value read as an exact
/// `i64`, a string, or neither, or it does not.
#[verifier::external_body]
fn parse_json_object(body: &str) -> (r: Option<Vec<ResponseField>>)
    ensures
        match r {
            Some(fields) => json_object_fields(body@) == Some(fields@),
            None => json_object_fields(body@) is None,
        },
{
    let value: serde_json::Value = match serde_json::from_str(body) {
        Ok(v) => v,
        Err(_) => return None,
    };
    let serde_json::Value::Object(map) = value else { return None };
    Some(map.into_iter().map(|(k, v)| ResponseField { key: k, value: match v {
        serde_json::Value::Number(n) => n.as_i64().map_or(FieldValue::BigNumber, FieldValue::Int),
        serde_json::Value::String(s) => FieldValue::Text(s),
        _ => FieldValue::Other,
    } }).collect())
}

/// Parses a 2xx response body: it must be a JSON object, and the
/// envelope rule of `parse_response_fields` then applies.
pub fn parse_response(body: &str) -> (r: Result<PixooResponse, PixooError>)
    ensures
        match json_object_fields(body@) {
            Option::None => r matches Err(PixooError::InvalidResponse(_)),
            Option::Some(fields) => match spec_parse_response(fields) {
                ResponseOutcome::MissingStatus => r == Result::<PixooResponse, PixooError>::Err(
                    PixooError::MissingErrorCode,
                ),
                ResponseOutcome::InvalidStatus(v) => r matches Err(
                    PixooError::InvalidErrorCode(w),
                ) && w == v,
                ResponseOutcome::Rejected { code, payload } => r matches Err(
                    PixooError::DeviceError { code: c, payload: p },
                ) && c == code && p@ == payload,
                ResponseOutcome::Accepted { payload } => r matches Ok(p) && p@ == payload,
            },
        },
{
    match parse_json_object(body) {
        None => Err(PixooError::InvalidResponse(String::from_str("expected a JSON object"))),
        Some(fields) => parse_response_fields(fields),
    }
}

/// The picture id a begin-animation response carries: the `PicId`
/// field read as an integer.
pub open spec fn spec_pic_id(fields: Seq<ResponseField>) -> Option<i64> {
    let i = find_key(fields, "PicId"@);
    if i == -1 {
        Option::None
    } else {
        spec_field_i64(fields[i].value)
    }
}

/// Extracts the picture id from a begin-animation response payload.
/// `None` when the field is absent or holds no integer; an animation
/// dispatch then fails as a whole.
pub fn pic_id_from_response(response: &PixooResponse) -> (r: Option<i64>)
    ensures
        r == spec_pic_id(response@),
{
    match find_field(response, "PicId") {
        None => None,
        Some(i) => field_i64(&response[i].value),
    }
}

/// The value of an outgoing command argument.
#[derive(Clone, Debug, PartialEq, Eq)]
pub enum ArgValue {
    Int(i64),
    Text(String),
}

/// One field of an outgoing command payload.
#[derive(Clone, Debug, PartialEq, Eq)]
pub struct CommandArg {
    pub key: String,
    pub value: ArgValue,
}

/// The arguments with every entry under key `k` removed, order kept.
pub open spec fn strip_key(args: Seq<CommandArg>, k: Seq<char>) -> Seq<CommandArg>
    decreases args.len(),
{
    if args.len() == 0 {
        Seq::empty()
    } else if args[0].key@ == k {
        strip_key(args.subrange(1, args.len() as int), k)
    } else {
        seq![args[0]] + strip_key(args.subrange(1, args.len() as int), k)
    }
}

proof fn lemma_strip_key_snoc(args: Seq<CommandArg>, a: CommandArg, k: Seq<char>)
    ensures
        a.key@ == k ==> strip_key(args.push(a), k) == strip_key(args, k),
        a.key@ != k ==> strip_key(args.push(a), k) == strip_key(args, k) + seq![a],
    decreases args.len(),
{
    let snoc = args.push(a);
    if args.len() == 0 {
        let tail = snoc.subrange(1, snoc.len() as int);
        assert(tail =~= Seq::<CommandArg>::empty());
        assert(strip_key(tail, k) =~= Seq::<CommandArg>::empty());
        assert(strip_key(args, k) =~= Seq::<CommandArg>::empty());
        if a.key@ == k {
            assert(strip_key(snoc, k) =~= strip_key(args, k));
        } else {
            assert(strip_key(snoc, k) =~= strip_key(args, k) + seq![a]);
        }
    } else {
        let args_rest = args.subrange(1, args.len() as int);
        assert(snoc.subrange(1, snoc.len() as int) =~= args_rest.push(a));
        lemma_strip_key_snoc(args_rest, a, k);
        if a.key@ == k {
            assert(strip_key(snoc, k) =~= strip_key(args, k));
        } else {
            if args[0].key@ == k {
                assert(strip_key(snoc, k) =~= strip_key(args, k) + seq![a]);
            } else {
                assert(strip_key(snoc, k) =~= seq![args[0]] + (strip_key(args_rest, k)
                    + seq![a]));
                assert(strip_key(snoc, k) =~= strip_key(args, k) + seq![a]);
            }
        }
    }
}

/// Builds the payload of a command: the command's wire string stands
/// first under the fixed `Command` key, and the arguments follow in
/// order — except that a caller-supplied `Command` argument is
/// dropped, so the wire string always wins.
pub fn build_payload(command: &PixooCommand, args: Vec<CommandArg>) -> (payload: Vec<CommandArg>)
    ensures
        payload@.len() >= 1,
        payload@[0].key@ == "Command"@,
        payload@[0].value matches ArgValue::Text(t) && t@ == command.wire_spec(),
        payload@.subrange(1, payload@.len() as int) == strip_key(args@, "Command"@),
{
    let ghost orig = args@;
    let mut payload: Vec<CommandArg> = Vec::new();
    payload.push(
        CommandArg {
            key: String::from_str("Command"),
            value: ArgValue::Text(String::from_str(command.as_str())),
        },
    );
    let mut args = args;
    while args.len() > 0
        invariant
            args@.len() <= orig.len(),
            args@ =~= orig.subrange(orig.len() - args@.len(), orig.len() as int),
            payload@.len() >= 1,
            payload@[0].key@ == "Command"@,
            payload@[0].value matches ArgValue::Text(t) && t@ == command.wire_spec(),
            payload@.subrange(1, payload@.len() as int) == strip_key(
                orig.subrange(0, orig.len() - args@.len()),
                "Command"@,
            ),
        decreases args@.len(),
    {
        let ghost consumed = orig.len() - args@.len();
        let a = args.remove(0);
        proof {
            assert(a == orig[consumed]);
            assert(args@ =~= orig.subrange(orig.len() - args@.len(), orig.len() as int));
            assert(orig.subrange(0, consumed + 1) =~= orig.subrange(0, consumed).push(a));
            lemma_strip_key_snoc(orig.subrange(0, consumed), a, "Command"@);
        }
        if !str_eq(a.key.as_str(), "Command") {
            payload.push(a);
        }
        proof {
            assert(payload@.subrange(1, payload@.len() as int) =~= strip_key(
                orig.subrange(0, consumed + 1),
                "Command"@,
            ));
        }
    }
    proof {
        assert(orig.subrange(0, orig.len() as int) =~= orig);
    }
    payload
}

/// Law: the status of a response reads the same whether the device
/// writes it as the number `0` or as the string `"0"`; either way the
/// response is accepted and the payload is the remaining fields,
/// identically.
pub proof fn lemma_status_representation_irrelevant(
    fields_num: Seq<ResponseField>,
    fields_text: Seq<ResponseField>,
    i: int,
)
    requires
        0 <= i < fields_num.len(),
        fields_num.len() == fields_text.len(),
        forall|j: int| 0 <= j < fields_num.len() && j != i ==> fields_num[j] == fields_text[j],
        forall|j: int| 0 <= j < i ==> fields_num[j].key@ != "error_code"@,
        fields_num[i].key@ == "error_code"@,
        fields_text[i].key@ == "error_code"@,
        fields_num[i].value == FieldValue::Int(0),
        fields_text[i].value matches FieldValue::Text(t) && t@ == "0"@,
    ensures
        spec_parse_response(fields_num) matches ResponseOutcome::Accepted { payload }
            && payload == fields_num.remove(i),
        spec_parse_response(fields_text) matches ResponseOutcome::Accepted { payload }
            && payload == fields_num.remove(i),
{
    lemma_find_key_first(fields_num, "error_code"@, i);
    lemma_find_key_first(fields_text, "error_code"@, i);
    let t = fields_text[i].value->Text_0;
    assert(t@ =~= "0"@);
    proof_status_zero_string(t@);
    assert(fields_num.remove(i) =~= fields_text.remove(i));
}

/// The string `"0"` denotes the integer 0.
proof fn proof_status_zero_string(s: Seq<char>)
    requires
        s == "0"@,
    ensures
        valid_int_str(s),
        int_str_val(s) == 0,
{
    reveal_strlit("0");
    assert(s.len() == 1);
    assert(s[0] == '0');
    assert(crate::numbers::all_digits(s));
    assert(crate::numbers::digits_val(s) == crate::numbers::digits_val(s.drop_last()) * 10
        + crate::numbers::digit_val(s.last()));
    assert(s.drop_last().len() == 0);
}

} // verus!
