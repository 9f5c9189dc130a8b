//! The trusted surface over the untyped JSON value representation.
//!
//! The dispatch core moves module payloads around as opaque
//! [`serde_json::Value`]s. Everything the core itself must know about such a
//! value — how a request envelope decodes, whether a value is the JSON null,
//! and how typed data moves in and out of the untyped form — is collected
//! here as declared types and thin wrappers around the JSON crate.

use vstd::prelude::*;

verus! {

#[verifier::external_type_specification]
#[verifier::external_body]
pub struct ExValue(serde_json::Value);

pub uninterp spec fn value_is_null(v: serde_json::Value) -> bool;

/// Relies on `serde_json::Value::is_null`: true exactly for the JSON null.
/// The answer depends on the value alone; `value_is_null` names it.
pub assume_specification[ serde_json::Value::is_null ](v: &serde_json::Value) -> (r: bool)
    ensures
        r == value_is_null(*v),
;

pub uninterp spec fn envelope_entries(raw: Seq<char>) -> Result<Option<Seq<Seq<char>>>, Seq<char>>;

/// How a request envelope decodes.
pub(crate) enum ParsedEnvelope {
    /// The text is not valid JSON; the decoder's message is kept.
    Malformed(String),
    /// The text is valid JSON, but its top level is not an object.
    NotObject,
    /// The top-level object entries, one (name, payload) pair per key.
    Entries(Vec<(String, serde_json::Value)>),
}

/// Relies on `serde_json::from_str::<Value>`: decodes JSON text, and on an
/// object hands the top-level entries over in the order the decoded map
/// yields them. The outcome depends on the text alone; `envelope_entries`
/// names it: the decode error's message, or `Ok(None)` for a non-object, or
/// the sequence of top-level names in the order the entries come.
#[verifier::external_body]
pub(crate) fn parse_envelope(raw: &str) -> (r: ParsedEnvelope)
    ensures
        (match r {
            ParsedEnvelope::Malformed(e) => envelope_entries(raw@) matches Err(m) && m == e@,
            ParsedEnvelope::NotObject => envelope_entries(raw@) == Ok::<
                Option<Seq<Seq<char>>>,
                Seq<char>,
            >(None),
            ParsedEnvelope::Entries(entries) => (envelope_entries(raw@) matches Ok(opt)
                && opt matches Some(names)
                && names == entries@.map_values(|e: (String, serde_json::Value)| e.0@)),
        }),
{
    match serde_json::from_str::<serde_json::Value>(raw) {
        Ok(serde_json::Value::Object(entries)) => {
            ParsedEnvelope::Entries(entries.into_iter().collect())
        },
        Ok(_) => ParsedEnvelope::NotObject,
        Err(e) => ParsedEnvelope::Malformed(e.to_string()),
    }
}

/// The decoder failed on the envelope text.
pub open spec fn envelope_failed(raw: Seq<char>) -> bool {
    envelope_entries(raw) is Err
}

/// The decoder's message for a failed envelope.
pub open spec fn envelope_fail_msg(raw: Seq<char>) -> Seq<char> {
    envelope_entries(raw)->Err_0
}

/// The envelope text is valid JSON but not an object.
pub open spec fn envelope_not_object(raw: Seq<char>) -> bool {
    envelope_entries(raw) matches Ok(None)
}

/// The envelope text decodes to an object.
pub open spec fn envelope_is_object(raw: Seq<char>) -> bool {
    envelope_entries(raw) matches Ok(Some(_))
}

/// The top-level names of an envelope that decodes to an object, in the
/// order the entries come.
pub open spec fn envelope_names(raw: Seq<char>) -> Seq<Seq<char>> {
    match envelope_entries(raw) {
        Ok(Some(names)) => names,
        _ => Seq::empty(),
    }
}

} // verus!
