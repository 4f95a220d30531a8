use vstd::prelude::*;
use crate::device::{AudioDevice, RawDevice, RawView};

verus! {

/// The UTF-16 code units of a string, in order, with no terminator.
pub uninterp spec fn utf16_of(s: Seq<char>) -> Seq<u16>;

/// The string that lossy UTF-16 decoding gives for a unit sequence
/// (an unpaired surrogate becomes U+FFFD).
pub uninterp spec fn utf16_lossy(units: Seq<u16>) -> Seq<char>;

/// Relies on widestring::U16CString::from_str, which encodes `s` as UTF-16 and
/// refuses it exactly when a unit is nul, and on into_vec_with_nul, which
/// appends the terminator.
#[verifier::external_body]
fn utf16_with_nul(s: &str) -> (r: Option<Vec<u16>>)
    ensures
        r is Some <==> !utf16_of(s@).contains(0u16),
        r matches Some(v) ==> v@ == utf16_of(s@).push(0u16),
{
    match widestring::U16CString::from_str(s) {
        Ok(w) => Some(w.into_vec_with_nul()),
        Err(_) => None,
    }
}

/// Relies on widestring::U16Str::to_string_lossy, which decodes the units with
/// String::from_utf16_lossy; no units give the empty string.
#[verifier::external_body]
fn utf16_to_string_lossy(units: &[u16]) -> (r: String)
    ensures
        r@ == utf16_lossy(units@),
        units@.len() == 0 ==> r@.len() == 0,
{
    widestring::U16Str::from_slice(units).to_string_lossy()
}

/// Encodes `s` as a nul-terminated UTF-16 sequence, the form the native
/// exports take. `None` when the encoding holds a nul unit, which would cut
/// the string short on the native side.
pub fn encode_wide(s: &str) -> (r: Option<Vec<u16>>)
    ensures
        r is Some <==> !utf16_of(s@).contains(0u16),
        r matches Some(v) ==> v@ == utf16_of(s@).push(0u16),
        r matches Some(v) ==> v@.last() == 0u16 && v@.len() >= 1,
{
    let r = utf16_with_nul(s);
    r
}

/// Decodes the UTF-16 units of a native string (without terminator) to UTF-8.
pub fn decode_wide(units: &Vec<u16>) -> (r: String)
    ensures
        r@ == utf16_lossy(units@),
        units@.len() == 0 ==> r@.len() == 0,
{
    utf16_to_string_lossy(units.as_slice())
}

/// `d` is what decoding the raw element `raw` gives.
pub open spec fn decodes_to(d: AudioDevice, raw: RawView) -> bool {
    &&& d.id@ == utf16_lossy(raw.0)
    &&& d.name@ == utf16_lossy(raw.1)
    &&& d.is_default == raw.2
}

/// Copies one raw element into an owned device: both strings decoded, the
/// default flag kept.
pub fn decode_device(raw: &RawDevice) -> (d: AudioDevice)
    ensures
        decodes_to(d, raw@),
{
    AudioDevice {
        id: decode_wide(&raw.id),
        name: decode_wide(&raw.name),
        is_default: raw.is_default,
    }
}

} // verus!
