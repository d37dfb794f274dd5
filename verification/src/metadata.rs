//! The metadata parser: the raw structured text of one metadata blob is
//! interpreted into a typed behavior descriptor, or rejected.
//!
//! The text is JSON; reading it is delegated to `serde_json` behind trusted
//! wrappers. What those calls return is named by uninterpreted spec functions
//! of the source text alone (`serde_json` is deterministic), and the
//! conversion rule from the probed field to a descriptor or an error is
//! verified against those names.

use vstd::prelude::*;

verus! {

/// The raw text `s` parses as a JSON document.
/// Names the success of `serde_json::from_str::<serde_json::Value>`.
pub uninterp spec fn json_accepts(s: Seq<char>) -> bool;

/// In the JSON document with source text `s`, looking up `key` finds a field
/// (false when the document is not an object or the key is absent).
pub uninterp spec fn json_field_present(s: Seq<char>, key: Seq<char>) -> bool;

/// The numeric value of the field `key` in the JSON document with source
/// text `s`, coerced to a double and carried by bit pattern; `None` when the
/// field is missing, not a number, or not representable as a double.
pub uninterp spec fn json_field_f64_bits(s: Seq<char>, key: Seq<char>) -> Option<u64>;

#[verifier::external_type_specification]
#[verifier::external_body]
pub struct ExValue(serde_json::Value);

/// A successfully parsed metadata document, kept together with the raw text
/// it was parsed from so that contracts about its fields can speak of that
/// text. The fields are private and `parse_document` is the only constructor,
/// which is what justifies the wrapper contracts below.
pub struct ParsedDoc {
    raw: String,
    val: serde_json::Value,
}

/// The key whose numeric value is the authored rotation rate.
pub open spec fn z_rot_key() -> Seq<char> {
    "z_rot"@
}

/// Relies on `serde_json::from_str::<Value>`: it returns `Ok` exactly on text
/// that is a well-formed JSON document, a deterministic function of the text.
#[verifier::external_body]
fn parse_document(raw: &str) -> (r: Option<ParsedDoc>)
    ensures
        r is Some <==> json_accepts(raw@),
        r matches Some(doc) ==> doc.raw@ == raw@,
{
    match serde_json::from_str::<serde_json::Value>(raw) {
        Ok(val) => Some(ParsedDoc { raw: raw.to_string(), val }),
        Err(_) => None,
    }
}

impl ParsedDoc {
    /// Relies on `serde_json::Value::get`: key lookup in a JSON object,
    /// `None` on any non-object document; deterministic in the document,
    /// hence in the source text.
    #[verifier::external_body]
    fn field_present(&self, key: &str) -> (r: bool)
        ensures
            r == json_field_present(self.raw@, key@),
    {
        self.val.get(key).is_some()
    }

    /// Relies on `serde_json::Value::get` and `serde_json::Value::as_f64`
    /// (the field's numeric value as a double, `None` for a non-number field
    /// or a number outside the double range): deterministic in the document,
    /// hence in the source text.
    #[verifier::external_body]
    fn field_f64_bits(&self, key: &str) -> (r: Option<u64>)
        ensures
            r == json_field_f64_bits(self.raw@, key@),
    {
        match self.val.get(key) {
            Some(v) => v.as_f64().map(|x| x.to_bits()),
            None => None,
        }
    }
}

/// The typed result of interpreting one metadata blob.
#[derive(Clone, Copy, PartialEq, Eq, Structural, Debug)]
pub enum BehaviorDescriptor {
    /// Continuous rotation about the vertical axis; the authored rate in
    /// radians per second, a double carried by bit pattern.
    Rotation { rate_bits: u64 },
    /// Valid structured data, but no recognized behavior key.
    Unrecognized,
}

/// Why interpreting a metadata blob failed; both kinds are fatal for the
/// extraction attempt that hit them.
#[derive(Clone, Copy, PartialEq, Eq, Structural, Debug)]
pub enum MetadataError {
    /// The raw text is not valid structured data at all.
    MalformedMetadata,
    /// The recognized key is present but its value cannot be coerced to the
    /// expected numeric type.
    InvalidFieldValue,
}

/// What parsing the metadata text `s` yields: the conversion rule from raw
/// text to a typed behavior descriptor or an error.
pub open spec fn spec_parse(s: Seq<char>) -> Result<BehaviorDescriptor, MetadataError> {
    if !json_accepts(s) {
        Err(MetadataError::MalformedMetadata)
    } else if !json_field_present(s, z_rot_key()) {
        Ok(BehaviorDescriptor::Unrecognized)
    } else {
        match json_field_f64_bits(s, z_rot_key()) {
            Some(bits) => Ok(BehaviorDescriptor::Rotation { rate_bits: bits }),
            None => Err(MetadataError::InvalidFieldValue),
        }
    }
}

/// Interpret the raw text of one metadata blob.
///
/// Returns the rotation descriptor when a numeric `z_rot` field is present,
/// `Unrecognized` for a valid document without that key (other keys are
/// ignored), `MalformedMetadata` when the text is not valid JSON, and
/// `InvalidFieldValue` when `z_rot` is present but cannot be coerced to a
/// double.
pub fn parse_metadata(raw: &str) -> (r: Result<BehaviorDescriptor, MetadataError>)
    ensures
        r == spec_parse(raw@),
{
    match parse_document(raw) {
        None => Err(MetadataError::MalformedMetadata),
        Some(doc) => {
            if !doc.field_present("z_rot") {
                Ok(BehaviorDescriptor::Unrecognized)
            } else {
                match doc.field_f64_bits("z_rot") {
                    Some(bits) => Ok(BehaviorDescriptor::Rotation { rate_bits: bits }),
                    None => Err(MetadataError::InvalidFieldValue),
                }
            }
        },
    }
}

} // verus!
