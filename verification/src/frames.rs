use vstd::prelude::*;
use vstd::utf8::{valid_utf8, decode_utf8};
use std::io::Read;
use crate::error::Error;

verus! {

/// What zlib decompression of `data` gives: the decompressed bytes, or
/// nothing when `data` is not a valid zlib stream.
pub uninterp spec fn zlib_inflation(data: Seq<u8>) -> Option<Seq<u8>>;

/// What `String::from_utf8_lossy` makes of `bytes`.
pub uninterp spec fn utf8_lossy(bytes: Seq<u8>) -> Seq<char>;

/// Decompresses a zlib stream with `flate2::read::ZlibDecoder`, reading it to
/// the end. The result depends on `data` alone; it is named, not spelled out.
#[verifier::external_body]
fn inflate_zlib(data: &[u8]) -> (r: Result<Vec<u8>, std::io::Error>)
    ensures
        r is Ok <==> zlib_inflation(data@) is Some,
        r matches Ok(v) ==> Some(v@) == zlib_inflation(data@),
{
    let mut out = Vec::new();
    match flate2::read::ZlibDecoder::new(data).read_to_end(&mut out) {
        Ok(_) => Ok(out),
        Err(e) => Err(e),
    }
}

/// `String::from_utf8_lossy`: the text of `bytes`, with U+FFFD in place of
/// each invalid sequence; for valid UTF-8 it is the decoded text.
#[verifier::external_body]
fn lossy_text(bytes: &[u8]) -> (s: String)
    ensures
        s@ == utf8_lossy(bytes@),
        valid_utf8(bytes@) ==> s@ == decode_utf8(bytes@),
{
    String::from_utf8_lossy(bytes).into_owned()
}

/// The kind of a websocket message, as far as receiving tells them apart.
#[derive(Clone, Copy, Debug, PartialEq, Eq, Structural)]
pub enum FrameKind {
    Text,
    Binary,
    Close,
    Other,
}

/// The JSON text carried by a received websocket message: a text message
/// carries it as it is, a binary one zlib-compressed; a close message, and any
/// other kind, ends the connection with the close code (only a close message
/// has one) and the payload as the reason.
pub fn frame_payload(kind: FrameKind, close_code: Option<u16>, payload: &[u8]) -> (r: Result<Vec<u8>, Error>)
    ensures
        match kind {
            FrameKind::Text => r matches Ok(v) && v@ == payload@,
            FrameKind::Binary => match zlib_inflation(payload@) {
                Some(d) => r matches Ok(v) && v@ == d,
                None => r matches Err(Error::Io(_)),
            },
            FrameKind::Close => r matches Err(Error::Closed(c, reason)) && c == close_code
                && reason@ == utf8_lossy(payload@),
            FrameKind::Other => r matches Err(Error::Closed(c, reason)) && c is None && reason@
                == utf8_lossy(payload@),
        },
{
    match kind {
        FrameKind::Close => Err(Error::Closed(close_code, lossy_text(payload))),
        FrameKind::Binary => match inflate_zlib(payload) {
            Ok(v) => Ok(v),
            Err(e) => Err(Error::Io(e)),
        },
        FrameKind::Text => Ok(vstd::slice::slice_to_vec(payload)),
        FrameKind::Other => Err(Error::Closed(None, lossy_text(payload))),
    }
}

} // verus!
