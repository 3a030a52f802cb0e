//! Decoding a secret payload into environment entries: the payload bytes
//! are parsed as JSON, the top-level object's entries are read, and each
//! entry must map a key to a string value.

use vstd::prelude::*;
use crate::errors::GoogleError;

verus! {

/// What parsing the payload bytes as JSON yields, as far as this decoding
/// reads it: `None` when the bytes are not valid JSON or the top level is
/// not an object; otherwise the object's entries in order, each value given
/// as `Some` of its characters when it is a JSON string and `None`
/// otherwise.
pub uninterp spec fn json_object_entries(bytes: Seq<u8>) -> Option<Seq<(Seq<char>, Option<Seq<char>>)>>;

/// The view of parsed entries: each key and optional string value as
/// character sequences.
pub open spec fn entries_view(e: Seq<(String, Option<String>)>) -> Seq<(Seq<char>, Option<Seq<char>>)> {
    e.map_values(|p: (String, Option<String>)| (p.0@, match p.1 {
        Some(s) => Some(s@),
        None => None,
    }))
}

/// Relies on `serde_json::from_slice::<serde_json::Value>`: it parses the
/// bytes as JSON, and its result depends on the bytes alone (the object is
/// held in a map ordered by key). The body only converts that result: the
/// object's entries are handed out in the map's order, a string value as
/// `Some`, any other value as `None`; an error is returned when the bytes
/// are not JSON, or when the document's top level is not an object.
#[verifier::external_body]
fn parse_top_level_object(bytes: &Vec<u8>) -> (r: Result<Vec<(String, Option<String>)>, String>)
    ensures
        r is Ok <==> json_object_entries(bytes@) is Some,
        r matches Ok(e) ==> Some(entries_view(e@)) == json_object_entries(bytes@),
{
    match serde_json::from_slice::<serde_json::Value>(bytes) {
        Ok(serde_json::Value::Object(entries)) => Ok(entries
            .into_iter()
            .map(|(key, value)| match value {
                serde_json::Value::String(s) => (key, Some(s)),
                _ => (key, None),
            })
            .collect()),
        Ok(_) => Err("the payload is not a JSON object".to_string()),
        Err(e) => Err(e.to_string()),
    }
}

/// Whether every entry carries a string value.
pub open spec fn all_string_values(entries: Seq<(Seq<char>, Option<Seq<char>>)>) -> bool {
    forall|i: int| 0 <= i < entries.len() ==> entries[i].1 is Some
}

/// The environment pairs read off entries that all carry string values.
pub open spec fn env_pairs(entries: Seq<(Seq<char>, Option<Seq<char>>)>) -> Seq<(Seq<char>, Seq<char>)> {
    entries.map_values(|p: (Seq<char>, Option<Seq<char>>)| (p.0, p.1.unwrap()))
}

/// The view of decoded environment pairs.
pub open spec fn pairs_view(v: Seq<(String, String)>) -> Seq<(Seq<char>, Seq<char>)> {
    v.map_values(|p: (String, String)| (p.0@, p.1@))
}

/// Decodes one secret's payload bytes into environment entries: the bytes
/// must be a JSON object whose values are all strings, and the result is
/// its `(key, value)` pairs in order. `secret_name` only names the secret
/// in the diagnostic of a failed decode.
pub fn decode_env_from_json(secret_name: &str, bytes: &Vec<u8>) -> (r: Result<Vec<(String, String)>, GoogleError>)
    ensures
        r matches Ok(v) ==> json_object_entries(bytes@) matches Some(entries)
            && all_string_values(entries) && pairs_view(v@) == env_pairs(entries),
        r matches Err(e) ==> e is DecodeError && (json_object_entries(bytes@) matches Some(entries)
            ==> !all_string_values(entries)),
        r is Ok <==> (json_object_entries(bytes@) matches Some(entries) && all_string_values(entries)),
{
    let parsed = match parse_top_level_object(bytes) {
        Ok(entries) => entries,
        Err(msg) => {
            return Err(decode_failure(secret_name, msg.as_str()));
        },
    };
    let ghost entries_v = entries_view(parsed@);
    let mut out: Vec<(String, String)> = Vec::new();
    let mut i: usize = 0;
    while i < parsed.len()
        invariant
            0 <= i <= parsed.len(),
            entries_v == entries_view(parsed@),
            Some(entries_v) == json_object_entries(bytes@),
            out@.len() == i,
            forall|j: int| 0 <= j < i ==> entries_v[j].1 is Some,
            forall|j: int| 0 <= j < i ==> (#[trigger] out@[j]).0@ == entries_v[j].0
                && out@[j].1@ == entries_v[j].1.unwrap(),
        decreases parsed.len() - i,
    {
        let pair = &parsed[i];
        match &pair.1 {
            Some(value) => {
                out.push((pair.0.clone(), value.clone()));
            },
            None => {
                proof {
                    assert(entries_v[i as int].1 is None);
                    assert(!all_string_values(entries_v));
                }
                return Err(decode_failure(secret_name, "a value of the JSON object is not a string"));
            },
        }
        i = i + 1;
    }
    proof {
        assert(all_string_values(entries_v));
        assert(pairs_view(out@) =~= env_pairs(entries_v));
    }
    Ok(out)
}

/// The decode error for one secret, carrying the secret's name and the
/// reason in its diagnostic.
fn decode_failure(secret_name: &str, reason: &str) -> (r: GoogleError)
    ensures
        r matches GoogleError::DecodeError(m) && m@ =~= "cannot decode secret \""@
            + secret_name@ + "\": "@ + reason@,
{
    let mut msg = String::from_str("cannot decode secret \"");
    msg.append(secret_name);
    msg.append("\": ");
    msg.append(reason);
    GoogleError::DecodeError(msg)
}

} // verus!
