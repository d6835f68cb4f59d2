//! Reading the JSON payloads of stored events for the command-line reports.
use vstd::prelude::*;
use vstd::utf8::{decode_utf8, encode_utf8};
use crate::console::truncate;
use crate::text::{concat2, str_eq};

verus! {

/// A JSON value, as the reports read it.
#[derive(Debug)]
pub enum JsonValue {
    Null,
    Bool(bool),
    /// A number, as serde_json prints it.
    Number(String),
    Str(String),
    Array(Vec<JsonValue>),
    /// The members of an object, in the order in which serde_json's map walks them
    /// (by key).
    Object(Vec<(String, JsonValue)>),
}

/// The JSON document that `serde_json::from_str::<serde_json::Value>` reads from `text`,
/// or `None` where it reports an error.
pub uninterp spec fn json_document(text: Seq<char>) -> Option<JsonValue>;

/// serde_json's dynamically typed JSON value.
#[verifier::external_type_specification]
#[verifier::external_body]
pub struct ExSerdeJsonValue(serde_json::Value);

/// A `serde_json::Value`, member by member, as a `JsonValue` (numbers by their printed
/// form). Nothing is promised of the result here; `parse_json` names it.
#[verifier::external_body]
fn json_value(v: &serde_json::Value) -> JsonValue {
    match v {
        serde_json::Value::Null => JsonValue::Null,
        serde_json::Value::Bool(b) => JsonValue::Bool(*b),
        serde_json::Value::Number(n) => JsonValue::Number(n.to_string()),
        serde_json::Value::String(s) => JsonValue::Str(s.clone()),
        serde_json::Value::Array(a) => JsonValue::Array(a.iter().map(json_value).collect()),
        serde_json::Value::Object(m) => JsonValue::Object(m.iter().map(|(k, x)| (k.clone(), json_value(x))).collect()),
    }
}

/// Reads `text` with `serde_json::from_str` into a `serde_json::Value` and converts it
/// (see `json_value`); `None` where serde_json reports an error. The result is named
/// `json_document`: the JSON grammar and serde_json's number printing are not stated.
#[verifier::external_body]
pub(crate) fn parse_json(text: &str) -> (r: Option<JsonValue>)
    ensures
        r == json_document(text@),
{
    serde_json::from_str::<serde_json::Value>(text).ok().map(|v| json_value(&v))
}

/// The value of the first of `members` whose key is `key` (an object's keys are
/// distinct, so it is the value under `key`).
pub open spec fn member(members: Seq<(String, JsonValue)>, key: Seq<char>) -> Option<JsonValue>
    decreases members.len(),
{
    if members.len() == 0 {
        None
    } else if members[0].0@ == key {
        Some(members[0].1)
    } else {
        member(members.skip(1), key)
    }
}

/// The value under `key` when `v` is an object (what `Value::get` gives).
pub open spec fn json_get(v: JsonValue, key: Seq<char>) -> Option<JsonValue> {
    match v {
        JsonValue::Object(m) => member(m@, key),
        _ => None,
    }
}

/// The value under `key` of the optional object `v`.
pub open spec fn opt_get(v: Option<JsonValue>, key: Seq<char>) -> Option<JsonValue> {
    match v {
        Some(x) => json_get(x, key),
        None => None,
    }
}

/// The string that `v` holds, when it is a string (what `Value::as_str` gives).
pub open spec fn json_string(v: Option<JsonValue>) -> Option<String> {
    match v {
        Some(JsonValue::Str(s)) => Some(s),
        _ => None,
    }
}

/// The text of `s`, or `default` when there is none.
pub open spec fn text_or(s: Option<String>, default: Seq<char>) -> Seq<char> {
    match s {
        Some(x) => x@,
        None => default,
    }
}

/// `prefix` followed by the text of `s`, or nothing when there is none.
pub open spec fn labelled(prefix: Seq<char>, s: Option<String>) -> Seq<char> {
    match s {
        Some(x) => prefix + x@,
        None => Seq::empty(),
    }
}

/// The variant name of a stored payload: the first key of the document's top-level object
/// (`"Unknown"` when the text is no JSON object, or an empty one).
pub open spec fn payload_type_of(doc: Option<JsonValue>) -> Seq<char> {
    match doc {
        Some(JsonValue::Object(m)) => if m@.len() > 0 { m@[0].0@ } else { "Unknown"@ },
        _ => "Unknown"@,
    }
}

/// The message of a stored trace event: the string under `Trace` → `message`, or
/// nothing.
pub open spec fn trace_message_of(doc: Option<JsonValue>) -> Seq<char> {
    text_or(json_string(opt_get(opt_get(doc, "Trace"@), "message"@)), Seq::empty())
}

/// The outcome shown for a decision whose `outcome` member is `o`: `Approved` or `Denied`
/// when it is an object with that key, else `?`.
pub open spec fn outcome_label(o: Option<JsonValue>) -> Seq<char> {
    match o {
        Some(v) => if json_get(v, "Approved"@).is_some() {
            "Approved"@
        } else if json_get(v, "Denied"@).is_some() {
            "Denied"@
        } else {
            "?"@
        },
        None => "?"@,
    }
}

/// A trace message can be cut for display: it fits in 60 bytes, or its 60th byte starts a
/// character.
pub open spec fn cuttable(m: String) -> bool {
    encode_utf8(m@).len() <= 60 || vstd::utf8::is_char_boundary(encode_utf8(m@), 60)
}

/// The one-line summary of a stored payload of variant `t` whose document is `doc`: for
/// an observation `source=<source>`, a proposal `agent=<agent_id>`, a decision
/// `outcome=<outcome> by=<decided_by>`, an action result `status=<status>`, an incident
/// `category=<category> severity=<severity>`, a trace its message cut to 60 bytes; `?`
/// stands for a missing decider, category or severity, and a missing source, agent,
/// status or message gives an empty summary, as does any other variant or a document
/// without a `t` member.
pub open spec fn summary_of(doc: Option<JsonValue>, t: Seq<char>) -> Seq<char> {
    match opt_get(doc, t) {
        None => Seq::empty(),
        Some(inner) => if t == "Observation"@ {
            labelled("source="@, json_string(json_get(inner, "source"@)))
        } else if t == "Proposal"@ {
            labelled("agent="@, json_string(json_get(inner, "agent_id"@)))
        } else if t == "Decision"@ {
            "outcome="@ + outcome_label(json_get(inner, "outcome"@)) + " by="@
                + text_or(json_string(json_get(inner, "decided_by"@)), "?"@)
        } else if t == "ActionResult"@ {
            labelled("status="@, json_string(json_get(inner, "status"@)))
        } else if t == "Incident"@ {
            "category="@ + text_or(json_string(json_get(inner, "category"@)), "?"@) + " severity="@
                + text_or(json_string(json_get(inner, "severity"@)), "?"@)
        } else if t == "Trace"@ {
            match json_string(json_get(inner, "message"@)) {
                Some(m) => if encode_utf8(m@).len() <= 60 {
                    m@
                } else {
                    decode_utf8(encode_utf8(m@).subrange(0, 60)) + "..."@
                },
                None => Seq::empty(),
            }
        } else {
            Seq::empty()
        },
    }
}

/// A trace payload of variant `t` in `doc` has a message that can be cut for display.
pub open spec fn summarizable(doc: Option<JsonValue>, t: Seq<char>) -> bool {
    t == "Trace"@ ==> match json_string(opt_get(opt_get(doc, t), "message"@)) {
        Some(m) => cuttable(m),
        None => true,
    }
}

/// The value under `key` of `v` (see `json_get`).
pub(crate) fn get<'a>(v: &'a JsonValue, key: &str) -> (r: Option<&'a JsonValue>)
    ensures
        match r {
            Some(x) => json_get(*v, key@) == Some(*x),
            None => json_get(*v, key@).is_none(),
        },
{
    match v {
        JsonValue::Object(m) => {
            let mut i: usize = 0;
            assert(m@.skip(0) =~= m@);
            while i < m.len()
                invariant
                    *v == JsonValue::Object(*m),
                    i <= m@.len(),
                    member(m@, key@) == member(m@.skip(i as int), key@),
                decreases m.len() - i,
            {
                proof {
                    assert(m@.skip(i as int)[0] == m@[i as int]);
                    assert(m@.skip(i as int).skip(1) =~= m@.skip(i + 1));
                }
                let entry = &m[i];
                if str_eq(entry.0.as_str(), key) {
                    proof {
                        assert(m@.skip(i as int)[0].0@ == key@);
                    }
                    return Some(&entry.1);
                }
                i = i + 1;
            }
            proof {
                assert(m@.skip(m@.len() as int) =~= Seq::<(String, JsonValue)>::empty());
            }
            None
        },
        _ => None,
    }
}

/// The string that `v` holds, when it is one.
pub(crate) fn as_str<'a>(v: Option<&'a JsonValue>) -> (r: Option<&'a String>)
    ensures
        match r {
            Some(s) => json_string(match v {
                Some(x) => Some(*x),
                None => None,
            }) == Some(*s),
            None => json_string(match v {
                Some(x) => Some(*x),
                None => None,
            }).is_none(),
        },
{
    match v {
        Some(JsonValue::Str(s)) => Some(s),
        _ => None,
    }
}

/// The variant name of a stored payload (see `payload_type_of`).
pub fn extract_payload_type(payload_json: &str) -> (t: String)
    ensures
        t@ == payload_type_of(json_document(payload_json@)),
{
    payload_type_from(&parse_json(payload_json))
}

/// The variant name of a stored payload whose document is `doc` (see `payload_type_of`).
pub fn payload_type_from(doc: &Option<JsonValue>) -> (t: String)
    ensures
        t@ == payload_type_of(*doc),
{
    match doc {
        Some(JsonValue::Object(m)) => if m.len() > 0 {
            m[0].0.clone()
        } else {
            "Unknown".to_owned()
        },
        _ => "Unknown".to_owned(),
    }
}

/// The message of a stored trace event (see `trace_message_of`).
pub fn extract_trace_message(payload_json: &str) -> (m: String)
    ensures
        m@ == trace_message_of(json_document(payload_json@)),
{
    trace_message_from(&parse_json(payload_json))
}

/// The message of a stored trace event whose document is `doc` (see `trace_message_of`).
pub fn trace_message_from(doc: &Option<JsonValue>) -> (m: String)
    ensures
        m@ == trace_message_of(*doc),
{
    match doc {
        Some(v) => match get(v, "Trace") {
            Some(t) => match as_str(get(t, "message")) {
                Some(s) => s.clone(),
                None => String::new(),
            },
            None => String::new(),
        },
        None => String::new(),
    }
}

/// `prefix` followed by `s`, or nothing when there is no `s`.
fn labelled_text(prefix: &str, s: Option<&String>) -> (r: String)
    ensures
        r@ == labelled(prefix@, match s {
            Some(x) => Some(*x),
            None => None,
        }),
{
    match s {
        Some(x) => concat2(prefix, x.as_str()),
        None => String::new(),
    }
}

/// The text of `s`, or `default`.
fn text_or_default(s: Option<&String>, default: &str) -> (r: String)
    ensures
        r@ == text_or(match s {
            Some(x) => Some(*x),
            None => None,
        }, default@),
{
    match s {
        Some(x) => x.clone(),
        None => default.to_owned(),
    }
}

/// The summary of a payload of variant `t` whose document is `doc` (see `summary_of`).
pub fn summarize_document(doc: &Option<JsonValue>, t: &str) -> (r: String)
    requires
        summarizable(*doc, t@),
    ensures
        r@ == summary_of(*doc, t@),
{
    let v = match doc {
        Some(v) => v,
        None => return String::new(),
    };
    let inner = match get(v, t) {
        Some(i) => i,
        None => return String::new(),
    };
    if str_eq(t, "Observation") {
        labelled_text("source=", as_str(get(inner, "source")))
    } else if str_eq(t, "Proposal") {
        labelled_text("agent=", as_str(get(inner, "agent_id")))
    } else if str_eq(t, "Decision") {
        let outcome = match get(inner, "outcome") {
            Some(o) => if get(o, "Approved").is_some() {
                "Approved"
            } else if get(o, "Denied").is_some() {
                "Denied"
            } else {
                "?"
            },
            None => "?",
        };
        let by = text_or_default(as_str(get(inner, "decided_by")), "?");
        let mut r = concat2("outcome=", outcome);
        r.append(" by=");
        r.append(by.as_str());
        r
    } else if str_eq(t, "ActionResult") {
        labelled_text("status=", as_str(get(inner, "status")))
    } else if str_eq(t, "Incident") {
        let category = text_or_default(as_str(get(inner, "category")), "?");
        let severity = text_or_default(as_str(get(inner, "severity")), "?");
        let mut r = concat2("category=", category.as_str());
        r.append(" severity=");
        r.append(severity.as_str());
        r
    } else if str_eq(t, "Trace") {
        match as_str(get(inner, "message")) {
            Some(m) => truncate(m.as_str(), 60),
            None => String::new(),
        }
    } else {
        String::new()
    }
}

/// The one-line summary of a stored payload of variant `payload_type` (see `summary_of`).
/// A trace message must be cuttable at 60 bytes (see `summarize_payload_checked`).
pub fn summarize_payload(payload_json: &str, payload_type: &str) -> (r: String)
    requires
        summarizable(json_document(payload_json@), payload_type@),
    ensures
        r@ == summary_of(json_document(payload_json@), payload_type@),
{
    let doc = parse_json(payload_json);
    summarize_document(&doc, payload_type)
}

/// The summary of a stored payload, or `None` for a trace whose message cannot be cut
/// at 60 bytes without splitting a character.
pub fn summarize_payload_checked(payload_json: &str, payload_type: &str) -> (r: Option<String>)
    ensures
        summarizable(json_document(payload_json@), payload_type@) ==> (r matches Some(s)
            && s@ == summary_of(json_document(payload_json@), payload_type@)),
        !summarizable(json_document(payload_json@), payload_type@) ==> r is None,
{
    let doc = parse_json(payload_json);
    if summarizable_document(&doc, payload_type) {
        Some(summarize_payload(payload_json, payload_type))
    } else {
        None
    }
}

/// Whether a payload of variant `payload_type` whose document is `doc` can be summarised:
/// not a trace whose message cannot be cut at 60 bytes without splitting a character.
pub fn summarizable_document(doc: &Option<JsonValue>, payload_type: &str) -> (b: bool)
    ensures
        b == summarizable(*doc, payload_type@),
{
    if str_eq(payload_type, "Trace") {
        match doc {
            Some(v) => match get(v, payload_type) {
                Some(inner) => match as_str(get(inner, "message")) {
                    Some(m) => {
                        let bytes = m.as_str().as_bytes();
                        if bytes.len() > 60 && !m.as_str().is_char_boundary(60) {
                            return false;
                        }
                    },
                    None => {},
                },
                None => {},
            },
            None => {},
        }
    }
    true
}

/// The summary of a payload of variant `payload_type` whose document is `doc`, or `None`
/// for a trace whose message cannot be cut at 60 bytes without splitting a character.
pub fn summarize_document_checked(doc: &Option<JsonValue>, payload_type: &str) -> (r: Option<String>)
    ensures
        summarizable(*doc, payload_type@) ==> (r matches Some(s) && s@ == summary_of(*doc, payload_type@)),
        !summarizable(*doc, payload_type@) ==> r is None,
{
    if summarizable_document(doc, payload_type) {
        Some(summarize_document(doc, payload_type))
    } else {
        None
    }
}

} // verus!
