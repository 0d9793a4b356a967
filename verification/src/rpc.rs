//! Reading the two JSON-RPC response bodies that the checks consume.
//!
//! The bodies arrive as raw bytes; what a well-formed body contains is
//! decided by the JSON parser. The two readers below are the library's only
//! window on it: each names its result, so that the callers' contracts can
//! speak of the body's content exactly.

use vstd::prelude::*;

verus! {

/// The length of the `result` array of a JSON-RPC response body, if the body
/// is valid JSON whose `result` field is an array; `None` otherwise.
pub uninterp spec fn peer_list_len(body: Seq<u8>) -> Option<u64>;

/// Relies on serde_json::from_slice, Value::get and Value::as_array: returns
/// the length of the body's `result` array, and `None` when the body does
/// not parse or `result` is missing or not an array. The result depends on
/// the bytes alone.
#[verifier::external_body]
pub(crate) fn extract_peer_count(body: &[u8]) -> (r: Option<u64>)
    ensures
        r == peer_list_len(body@),
{
    let parsed: Result<serde_json::Value, serde_json::Error> = serde_json::from_slice(body);
    match parsed {
        Ok(v) => match v.get("result") {
            Some(res) => match res.as_array() {
                Some(a) => Some(a.len() as u64),
                None => None,
            },
            None => None,
        },
        Err(_) => None,
    }
}

/// The bytes of the `result.number` string of a JSON-RPC response body, if
/// the body is valid JSON and that field is a string; `None` otherwise.
pub uninterp spec fn tip_number_field(body: Seq<u8>) -> Option<Seq<u8>>;

/// Relies on serde_json::from_slice, Value::get and Value::as_str: returns
/// the bytes of the body's `result.number` string, and `None` when the body
/// does not parse or the field is missing or not a string. The result
/// depends on the bytes alone.
#[verifier::external_body]
pub(crate) fn extract_tip_number(body: &[u8]) -> (r: Option<Vec<u8>>)
    ensures
        (r is Some) == (tip_number_field(body@) is Some),
        r matches Some(v) ==> tip_number_field(body@) == Some(v@),
{
    let parsed: Result<serde_json::Value, serde_json::Error> = serde_json::from_slice(body);
    let v = match parsed {
        Ok(v) => v,
        Err(_) => return None,
    };
    let num = match v.get("result") {
        Some(res) => res.get("number"),
        None => None,
    };
    match num {
        Some(nv) => nv.as_str().map(|st| st.as_bytes().to_vec()),
        None => None,
    }
}

} // verus!
