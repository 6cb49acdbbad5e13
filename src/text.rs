use vstd::prelude::*;
use vstd::utf8::{decode_utf8, decode_utf8_encode_utf8, encode_utf8, valid_utf8};
use crate::error::HwinfoError;
use crate::foreign::ForeignArray;

verus! {

/// A foreign text field: `None` for a null pointer, else the bytes before the
/// terminating zero.
pub type RawText = Option<Vec<u8>>;

/// Whether a foreign text field decodes (a null one always does).
pub open spec fn text_ok(raw: RawText) -> bool {
    match raw {
        None => true,
        Some(b) => valid_utf8(b@),
    }
}

/// The text a foreign text field stands for: empty for a null pointer.
pub open spec fn text_of(raw: RawText) -> Seq<char> {
    match raw {
        None => Seq::empty(),
        Some(b) => decode_utf8(b@),
    }
}

/// A null text field decodes, to the empty text.
pub proof fn law_null_text_is_empty(raw: RawText)
    requires
        raw is None,
    ensures
        text_ok(raw),
        text_of(raw) == Seq::<char>::empty(),
{
}

/// A well-formed text field decodes to exactly the text its bytes encode:
/// encoding the decoded text gives back the foreign bytes.
pub proof fn law_text_round_trip(raw: RawText)
    requires
        raw matches Some(b) && valid_utf8(b@),
    ensures
        text_ok(raw),
        raw matches Some(b) && encode_utf8(text_of(raw)) == b@,
{
    let b = raw->Some_0;
    decode_utf8_encode_utf8(b@);
}

/// Relies on `std::str::from_utf8`: it accepts exactly the well-formed UTF-8
/// byte sequences, and the accepted text is the one the bytes encode.
#[verifier::external_body]
fn utf8_to_string(bytes: &[u8]) -> (r: std::result::Result<String, std::str::Utf8Error>)
    ensures
        r is Ok <==> valid_utf8(bytes@),
        r matches Ok(s) ==> s@ == decode_utf8(bytes@),
{
    std::str::from_utf8(bytes).map(String::from)
}

/// Decodes one foreign text field into owned text.
pub fn decode_text(raw: &RawText) -> (r: Result<String, HwinfoError>)
    ensures
        r is Ok <==> text_ok(*raw),
        r matches Ok(s) ==> s@ == text_of(*raw),
        r matches Err(e) ==> e is InvalidString,
{
    match raw {
        None => Ok(String::new()),
        Some(bytes) => match utf8_to_string(bytes.as_slice()) {
            Ok(s) => Ok(s),
            Err(e) => Err(HwinfoError::InvalidString(e)),
        },
    }
}

/// The texts an ordered sequence of owned strings holds.
pub open spec fn texts_view(v: Seq<String>) -> Seq<Seq<char>> {
    v.map_values(|s: String| s@)
}

/// Whether every text behind a foreign array of text fields decodes.
pub open spec fn text_array_ok(arr: ForeignArray<RawText>) -> bool {
    forall|i: int| 0 <= i < arr.elements().len() ==> text_ok(#[trigger] arr.elements()[i])
}

/// The texts a foreign array of text fields stands for, in order.
pub open spec fn text_array_of(arr: ForeignArray<RawText>) -> Seq<Seq<char>> {
    arr.elements().map_values(|t: RawText| text_of(t))
}

/// Decodes a foreign array of text fields; an untrusted count/pointer pair
/// gives an empty sequence.
pub fn decode_text_array(arr: &ForeignArray<RawText>) -> (r: Result<Vec<String>, HwinfoError>)
    ensures
        r is Ok <==> text_array_ok(*arr),
        r matches Ok(v) ==> texts_view(v@) == text_array_of(*arr),
        r matches Err(e) ==> e is InvalidString,
{
    if arr.is_null || arr.count <= 0 {
        let out: Vec<String> = Vec::new();
        assert(texts_view(out@) =~= text_array_of(*arr));
        return Ok(out);
    }
    let mut out: Vec<String> = Vec::new();
    let mut i: usize = 0;
    while i < arr.items.len()
        invariant
            arr.trusted(),
            i <= arr.items@.len(),
            out@.len() == i,
            forall|j: int| 0 <= j < i ==> text_ok(#[trigger] arr.items@[j]),
            forall|j: int| 0 <= j < i ==> (#[trigger] out@[j])@ == text_of(arr.items@[j]),
        decreases arr.items@.len() - i,
    {
        match decode_text(&arr.items[i]) {
            Ok(s) => out.push(s),
            Err(e) => {
                assert(!text_ok(arr.elements()[i as int]));
                return Err(e);
            },
        }
        i += 1;
    }
    assert(texts_view(out@) =~= text_array_of(*arr));
    Ok(out)
}

} // verus!
