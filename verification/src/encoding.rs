use vstd::prelude::*;
use crate::error::ClipboardError;
use crate::format::is_custom_format;
use crate::format::CUSTOM_FORMAT_THRESHOLD;

verus! {

/// The standard-alphabet, padded base64 text of a byte sequence.
pub uninterp spec fn base64_text(data: Seq<u8>) -> Seq<char>;

/// The bytes that a base64 text stands for, if it is well formed.
pub uninterp spec fn base64_payload(text: Seq<char>) -> Option<Seq<u8>>;

/// The text that a sequence of UTF-16 code units decodes to, with each
/// unpaired surrogate replaced.
pub uninterp spec fn utf16_lossy_text(units: Seq<u16>) -> Seq<char>;

/// The UTF-16 code units of a text.
pub uninterp spec fn utf16_units(text: Seq<char>) -> Seq<u16>;

#[verifier::external_type_specification]
#[verifier::external_body]
pub struct ExDecodeError(base64::DecodeError);

/// Calls `base64::Engine::encode` on the `STANDARD` engine. Trusted: the
/// result is the base64 text of the input, and that text decodes back to the
/// input. The bound keeps the encoded length within `usize`, beyond which the
/// call panics.
#[verifier::external_body]
fn base64_encode(data: &Vec<u8>) -> (text: String)
    requires
        data@.len() / 3 < usize::MAX / 4,
    ensures
        text@ == base64_text(data@),
        base64_payload(text@) == Some(data@),
{
    base64::Engine::encode(&base64::engine::general_purpose::STANDARD, data)
}

/// Calls `base64::Engine::decode` on the `STANDARD` engine. Trusted: the call
/// succeeds exactly on well-formed text and then returns the bytes it stands
/// for.
#[verifier::external_body]
fn base64_decode(text: &str) -> (decoded: Result<Vec<u8>, base64::DecodeError>)
    ensures
        match decoded {
            Ok(data) => base64_payload(text@) == Some(data@),
            Err(_) => base64_payload(text@) is None,
        },
{
    base64::Engine::decode(&base64::engine::general_purpose::STANDARD, text)
}

/// Calls `String::from_utf16_lossy`. Trusted: the result is the lossy
/// decoding of the code units.
#[verifier::external_body]
fn utf16_decode_lossy(units: &Vec<u16>) -> (text: String)
    ensures
        text@ == utf16_lossy_text(units@),
{
    String::from_utf16_lossy(units)
}

/// Calls `str::encode_utf16`. Trusted: the result holds the code units of
/// the text, in order.
#[verifier::external_body]
fn utf16_encode(text: &str) -> (units: Vec<u16>)
    ensures
        units@ == utf16_units(text@),
{
    text.encode_utf16().collect()
}

/// The stored text of a payload: its base64 encoding. Decoding the text
/// gives the payload back, whatever bytes it holds.
pub fn serialize(data: &Vec<u8>) -> (text: String)
    requires
        data@.len() / 3 < usize::MAX / 4,
    ensures
        text@ == base64_text(data@),
        payload_of_text(text@) == Ok::<Seq<u8>, ClipboardError>(data@),
{
    base64_encode(data)
}

/// What a stored text decodes to.
pub open spec fn payload_of_text(text: Seq<char>) -> Result<Seq<u8>, ClipboardError> {
    match base64_payload(text) {
        Some(data) => Ok(data),
        None => Err(ClipboardError::InvalidPayloadText),
    }
}

/// The payload that a stored text stands for; text that is not well-formed
/// base64 is rejected.
pub fn deserialize(text: &str) -> (payload: Result<Vec<u8>, ClipboardError>)
    ensures
        match payload {
            Ok(data) => payload_of_text(text@) == Ok::<Seq<u8>, ClipboardError>(data@),
            Err(e) => payload_of_text(text@) == Err::<Seq<u8>, ClipboardError>(e),
        },
{
    match base64_decode(text) {
        Ok(data) => Ok(data),
        Err(_) => Err(ClipboardError::InvalidPayloadText),
    }
}

/// The name of a format, given the code units that a name lookup wrote: a
/// predefined format has none, and neither has one whose lookup wrote nothing.
pub open spec fn format_name_of(format_id: u32, units: Seq<u16>) -> Option<Seq<char>> {
    if !is_custom_format(format_id) || units.len() == 0 {
        None
    } else {
        Some(utf16_lossy_text(units))
    }
}

/// Resolves the name of a format from the code units of a name lookup.
pub fn get_format_name(format_id: u32, units: &Vec<u16>) -> (name: Option<String>)
    ensures
        match name {
            Some(text) => format_name_of(format_id, units@) == Some(text@),
            None => format_name_of(format_id, units@) is None,
        },
{
    if format_id < CUSTOM_FORMAT_THRESHOLD {
        return None;
    }
    if units.len() > 0 {
        Some(utf16_decode_lossy(units))
    } else {
        None
    }
}

/// The wide string under which a name is registered: its UTF-16 code units
/// followed by a terminating zero.
pub fn register_format(name: &str) -> (wide: Vec<u16>)
    ensures
        wide@ == utf16_units(name@).push(0u16),
{
    let mut wide = utf16_encode(name);
    wide.push(0u16);
    wide
}

} // verus!
