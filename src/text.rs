//! Turning raw bytes into text: header values and request bodies.
use vstd::prelude::*;

verus! {

/// A byte that an HTTP header value may hold and still be read as text:
/// a visible ASCII character, a space or a horizontal tab.
pub open spec fn is_visible_ascii(b: u8) -> bool {
    (32 <= b && b < 127) || b == 9
}

/// Every byte of `b` is a visible ASCII character, a space or a tab.
pub open spec fn all_visible_ascii(b: Seq<u8>) -> bool {
    forall|i: int| 0 <= i < b.len() ==> is_visible_ascii(#[trigger] b[i])
}

/// The characters that ASCII bytes stand for, one per byte.
pub open spec fn ascii_chars(b: Seq<u8>) -> Seq<char> {
    b.map_values(|x: u8| x as char)
}

/// The text of a header value: its characters when every byte is visible
/// ASCII, and the empty string otherwise.
pub open spec fn header_text_of(b: Seq<u8>) -> Seq<char> {
    if all_visible_ascii(b) {
        ascii_chars(b)
    } else {
        Seq::empty()
    }
}

/// What lossy UTF-8 decoding makes of a byte sequence.
pub uninterp spec fn utf8_lossy_of(b: Seq<u8>) -> Seq<char>;

/// Relies on `String::from_utf8_lossy`: it decodes the bytes as UTF-8, puts
/// U+FFFD in place of each invalid sequence and never fails; ASCII bytes, being
/// valid UTF-8, come back as the same characters.
#[verifier::external_body]
pub(crate) fn lossy_text(b: &Vec<u8>) -> (r: String)
    ensures
        r@ == utf8_lossy_of(b@),
        (forall|i: int| 0 <= i < b@.len() ==> #[trigger] b@[i] < 128) ==> r@ == ascii_chars(b@),
{
    String::from_utf8_lossy(b.as_slice()).into_owned()
}

/// The text of one header value, read as HTTP reads it: the value itself when
/// it is made of visible ASCII, spaces and tabs, else the empty string.
pub fn header_value_text(v: &Vec<u8>) -> (r: String)
    ensures
        r@ == header_text_of(v@),
{
    let mut visible = true;
    let mut i: usize = 0;
    while i < v.len()
        invariant
            i <= v@.len(),
            visible == (forall|j: int| 0 <= j < i ==> is_visible_ascii(#[trigger] v@[j])),
        decreases v@.len() - i,
    {
        let b = v[i];
        if !((32 <= b && b < 127) || b == 9) {
            visible = false;
        }
        i = i + 1;
    }
    if visible {
        lossy_text(v)
    } else {
        String::new()
    }
}

} // verus!
