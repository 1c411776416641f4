use vstd::prelude::*;
use crate::text::same_text;
use crate::request::push_text;

verus! {

/// The character of a 6-bit value in the standard base64 alphabet
/// (RFC 4648): `A`-`Z`, `a`-`z`, `0`-`9`, `+`, `/`.
pub open spec fn base64_digit(v: int) -> char {
    if v < 26 {
        (65 + v) as char
    } else if v < 52 {
        (97 + (v - 26)) as char
    } else if v < 62 {
        (48 + (v - 52)) as char
    } else if v == 62 {
        '+'
    } else {
        '/'
    }
}

/// Standard base64 with padding (RFC 4648, section 4): each group of three
/// bytes becomes four characters; a final group of one or two bytes is
/// padded with `=` to four.
pub open spec fn base64_standard(b: Seq<u8>) -> Seq<char>
    decreases b.len(),
{
    if b.len() == 0 {
        Seq::empty()
    } else if b.len() == 1 {
        seq![base64_digit(b[0] as int / 4), base64_digit((b[0] as int % 4) * 16), '=', '=']
    } else if b.len() == 2 {
        seq![
            base64_digit(b[0] as int / 4),
            base64_digit((b[0] as int % 4) * 16 + b[1] as int / 16),
            base64_digit((b[1] as int % 16) * 4),
            '=',
        ]
    } else {
        seq![
            base64_digit(b[0] as int / 4),
            base64_digit((b[0] as int % 4) * 16 + b[1] as int / 16),
            base64_digit((b[1] as int % 16) * 4 + b[2] as int / 64),
            base64_digit(b[2] as int % 64),
        ] + base64_standard(b.skip(3))
    }
}

/// Whether base64 of `n` bytes has a length that fits in `usize`.
pub open spec fn encodable_len(n: nat) -> bool {
    4 * ((n + 2) / 3) <= usize::MAX
}

/// `base64::encode` (standard alphabet, padded). It panics when the encoded
/// length overflows `usize`, which `requires` leaves out.
#[verifier::external_body]
fn encode_base64(bytes: &[u8]) -> (s: String)
    requires
        encodable_len(bytes@.len()),
    ensures
        s@ == base64_standard(bytes@),
{
    base64::encode(bytes)
}

/// The media type that an image upload claims: `png` for a `.png` file,
/// `jpg` for any other.
pub open spec fn image_kind(extension: Option<Seq<char>>) -> Seq<char> {
    if extension == Some("png"@) {
        "png"@
    } else {
        "jpg"@
    }
}

/// An image as a string suitable for upload: a data URI holding the bytes in
/// base64, claiming `image/png` when the file's extension is `png` and
/// `image/jpg` otherwise.
pub fn image_data_uri(extension: Option<&str>, bytes: &[u8]) -> (s: String)
    requires
        encodable_len(bytes@.len()),
    ensures
        s@ == "data:image/"@ + image_kind(
            match extension {
                Some(e) => Some(e@),
                None => None,
            },
        ) + ";base64,"@ + base64_standard(bytes@),
{
    let png = match extension {
        Some(e) => same_text(e, "png"),
        None => false,
    };
    let mut s = "data:image/".to_owned();
    if png {
        push_text(&mut s, "png");
    } else {
        push_text(&mut s, "jpg");
    }
    push_text(&mut s, ";base64,");
    let encoded = encode_base64(bytes);
    push_text(&mut s, encoded.as_str());
    s
}

} // verus!
