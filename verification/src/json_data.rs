//! The trusted seam to the JSON decoder. Response bodies arrive as
//! text; what a body decodes to is a pure function of that text, so
//! each decode operation gets an uninterpreted name and a wrapper over
//! `serde_json` whose contract speaks of that name. Which keys to read
//! for which provider shape is the library's own logic and stays in
//! verified code.

use vstd::prelude::*;

verus! {

/// What decoding `body` as an object holding, under `outer`, an array
/// of objects each holding a string under `inner`, yields: the strings
/// in array order, or a decode message.
pub uninterp spec fn spec_decoded_string_list(
    body: Seq<char>,
    outer: Seq<char>,
    inner: Seq<char>,
) -> Result<Seq<Seq<char>>, Seq<char>>;

/// What reading the string at `body[k1][k2]` yields.
pub uninterp spec fn spec_decoded_string_at(
    body: Seq<char>,
    k1: Seq<char>,
    k2: Seq<char>,
) -> Option<Seq<char>>;

/// What reading the string at `body[outer][0][k1][k2]` yields.
pub uninterp spec fn spec_decoded_string_in_first(
    body: Seq<char>,
    outer: Seq<char>,
    k1: Seq<char>,
    k2: Seq<char>,
) -> Option<Seq<char>>;

/// What reading the string at `body[key]` yields.
pub uninterp spec fn spec_decoded_string_field(body: Seq<char>, key: Seq<char>) -> Option<
    Seq<char>,
>;

/// Collects the strings under `inner` from the array under `outer`.
///
/// Relies on `serde_json::from_str` to parse `body` and on
/// `Value::get`, `Value::as_array` and `Value::as_str` to walk the
/// result; all of them are pure functions of their input, so the
/// outcome is a function of the three texts alone. The error text is
/// serde's own message for a parse failure, or names the key that was
/// missing or had the wrong shape.
#[verifier::external_body]
pub fn decode_string_list(body: &str, outer: &str, inner: &str) -> (r: Result<Vec<String>, String>)
    ensures
        match r {
            Ok(v) => spec_decoded_string_list(body@, outer@, inner@) == Ok::<
                Seq<Seq<char>>,
                Seq<char>,
            >(v.deep_view()),
            Err(e) => spec_decoded_string_list(body@, outer@, inner@) == Err::<
                Seq<Seq<char>>,
                Seq<char>,
            >(e@),
        },
{
    let v: serde_json::Value = serde_json::from_str(body).map_err(|e| e.to_string())?;
    let arr = v.get(outer).and_then(serde_json::Value::as_array).ok_or_else(
        || format!("missing `{}` array", outer),
    )?;
    let mut out: Vec<String> = Vec::new();
    for item in arr {
        let s = item.get(inner).and_then(serde_json::Value::as_str).ok_or_else(
            || format!("missing `{}` string", inner),
        )?;
        out.push(s.to_string());
    }
    Ok(out)
}

/// Reads the string at `body[k1][k2]`, if the body parses and the path
/// leads to a string.
///
/// Relies on `serde_json::from_str`, `Value::get` and `Value::as_str`,
/// pure functions of their input.
#[verifier::external_body]
pub fn decode_string_at(body: &str, k1: &str, k2: &str) -> (r: Option<String>)
    ensures
        match r {
            Some(s) => spec_decoded_string_at(body@, k1@, k2@) == Some(s@),
            None => spec_decoded_string_at(body@, k1@, k2@) is None,
        },
{
    let v: serde_json::Value = serde_json::from_str(body).ok()?;
    Some(v.get(k1)?.get(k2)?.as_str()?.to_string())
}

/// Reads the string at `body[outer][0][k1][k2]`, if the body parses
/// and the path leads to a string.
///
/// Relies on `serde_json::from_str`, `Value::get` (with a key and with
/// the index of the array's first element) and `Value::as_str`, pure
/// functions of their input.
#[verifier::external_body]
pub fn decode_string_in_first(body: &str, outer: &str, k1: &str, k2: &str) -> (r: Option<String>)
    ensures
        match r {
            Some(s) => spec_decoded_string_in_first(body@, outer@, k1@, k2@) == Some(s@),
            None => spec_decoded_string_in_first(body@, outer@, k1@, k2@) is None,
        },
{
    let v: serde_json::Value = serde_json::from_str(body).ok()?;
    Some(v.get(outer)?.get(0)?.get(k1)?.get(k2)?.as_str()?.to_string())
}

/// Reads the string at `body[key]`, if the body parses and the key
/// holds a string.
///
/// Relies on `serde_json::from_str`, `Value::get` and `Value::as_str`,
/// pure functions of their input.
#[verifier::external_body]
pub fn decode_string_field(body: &str, key: &str) -> (r: Option<String>)
    ensures
        match r {
            Some(s) => spec_decoded_string_field(body@, key@) == Some(s@),
            None => spec_decoded_string_field(body@, key@) is None,
        },
{
    let v: serde_json::Value = serde_json::from_str(body).ok()?;
    Some(v.get(key)?.as_str()?.to_string())
}

} // verus!
