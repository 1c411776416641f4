//! File uploads and interactions: bodies of the `multipart/form-data` kind.
use vstd::prelude::*;
use vstd::utf8::encode_utf8;
use crate::error::Error;
use crate::model::ChannelId;
use crate::request::{Method, api, push_text};
use crate::routes::id;
use crate::text::push_decimal;

verus! {

/// The bytes of a text that holds ASCII characters only.
pub open spec fn ascii(s: Seq<char>) -> Seq<u8> {
    s.map_values(|c: char| c as u8)
}

/// An ASCII letter or digit.
pub open spec fn is_ascii_alphanumeric(c: char) -> bool {
    let v = c as u32;
    (48 <= v <= 57) || (65 <= v <= 90) || (97 <= v <= 122)
}

/// A boundary as the multipart writer makes them: 16 random ASCII letters and
/// digits.
pub open spec fn valid_boundary(b: Seq<char>) -> bool {
    b.len() == 16 && forall|i: int| 0 <= i < b.len() ==> is_ascii_alphanumeric(#[trigger] b[i])
}

/// The start of a form field: the boundary line and the field's headers.
/// A file field is named, and is sent as `application/octet-stream`.
pub open spec fn part_head(boundary: Seq<char>, name: Seq<char>, filename: Option<Seq<char>>) -> Seq<u8> {
    ascii("--"@ + boundary + "\r\n"@ + "Content-Disposition: form-data; name=\""@) + encode_utf8(name)
        + match filename {
        Some(f) => ascii("\"; filename=\""@) + encode_utf8(f) + ascii(
            "\"\r\nContent-Type: application/octet-stream"@,
        ),
        None => ascii("\""@),
    } + ascii("\r\n\r\n"@)
}

/// The end of a form: the end of the last field and the closing boundary.
pub open spec fn form_end(boundary: Seq<char>) -> Seq<u8> {
    ascii("\r\n--"@ + boundary + "--\r\n"@)
}

/// The form of a file upload: the text as field `content`, then the file's
/// bytes as field `file` under the given filename.
pub open spec fn file_form(boundary: Seq<char>, text: Seq<char>, file: Seq<u8>, filename: Seq<char>) -> Seq<u8> {
    part_head(boundary, "content"@, None) + encode_utf8(text) + ascii("\r\n"@) + part_head(
        boundary,
        "file"@,
        Some(filename),
    ) + file + form_end(boundary)
}

/// The form of an interaction: its JSON text as field `payload_json`.
pub open spec fn payload_form(boundary: Seq<char>, payload: Seq<char>) -> Seq<u8> {
    part_head(boundary, "payload_json"@, None) + encode_utf8(payload) + form_end(boundary)
}

/// Writes a file upload form with `multipart::client::Multipart` into the
/// in-memory `multipart::mock::ClientRequest`: field `content` holding the
/// text, then field `file` holding the bytes under the filename. It succeeds:
/// the mock request opens and finishes with `Ok`, its buffer writes into a
/// `Vec`, and the file is read from a byte slice. The boundary is random; what
/// holds of every outcome is that the body is the form around whatever
/// boundary was drawn.
#[verifier::external_body]
fn write_file_form(text: &str, file: &[u8], filename: &str) -> (r: Result<(Vec<u8>, String), std::io::Error>)
    ensures
        r is Ok,
        r matches Ok((body, boundary)) ==> valid_boundary(boundary@) && body@ == file_form(
            boundary@,
            text@,
            file@,
            filename@,
        ),
{
    let request = multipart::mock::ClientRequest::default();
    let mut multi = multipart::client::Multipart::from_request(request)?;
    let mut reader: &[u8] = file;
    multi.write_text("content", text)?;
    multi.write_stream("file", &mut reader, Some(filename), None)?;
    let buffer = multi.send()?;
    Ok((buffer.buf, buffer.boundary))
}

/// Writes an interaction form with `multipart::client::Multipart` into the
/// in-memory `multipart::mock::ClientRequest`: field `payload_json` holding
/// the JSON text. It succeeds, for the reasons given at `write_file_form`.
/// The boundary is random; the body is the form around it.
#[verifier::external_body]
fn write_payload_form(payload: &str) -> (r: Result<(Vec<u8>, String), std::io::Error>)
    ensures
        r is Ok,
        r matches Ok((body, boundary)) ==> valid_boundary(boundary@) && body@ == payload_form(
            boundary@,
            payload@,
        ),
{
    let request = multipart::mock::ClientRequest::default();
    let mut multi = multipart::client::Multipart::from_request(request)?;
    multi.write_text("payload_json", payload)?;
    let buffer = multi.send()?;
    Ok((buffer.buf, buffer.boundary))
}

/// A `multipart/form-data` request: where it goes, its `Content-Type` header,
/// the boundary that the header names, and the body.
#[derive(Debug, PartialEq)]
pub struct Upload {
    pub method: Method,
    pub url: String,
    pub content_type: String,
    pub boundary: String,
    pub body: Vec<u8>,
}

/// The `Content-Type` of a form with the given boundary.
pub open spec fn form_content_type(boundary: Seq<char>) -> Seq<char> {
    "multipart/form-data; boundary="@ + boundary
}

fn upload(url: String, form: Result<(Vec<u8>, String), std::io::Error>) -> (r: Result<Upload, Error>)
    ensures
        match form {
            Ok((body, boundary)) => r matches Ok(u) && u.method == Method::Post && u.url@ == url@
                && u.boundary@ == boundary@ && u.body@ == body@ && u.content_type@
                == form_content_type(boundary@),
            Err(_) => r matches Err(Error::Io(_)),
        },
{
    match form {
        Ok((body, boundary)) => {
            let mut content_type = "multipart/form-data; boundary=".to_owned();
            push_text(&mut content_type, boundary.as_str());
            Ok(Upload { method: Method::Post, url, content_type, boundary, body })
        },
        Err(e) => Err(Error::Io(e)),
    }
}

/// Send a file attached to a message on a given channel: the text (which may
/// be empty) and the file, which always has a filename, posted as a form to
/// the channel's messages. Building the form always succeeds.
pub fn send_file(channel: ChannelId, text: &str, file: &[u8], filename: &str) -> (r: Result<Upload, Error>)
    ensures
        r matches Ok(u) && u.method == Method::Post && u.url@ == api() + "/channels/"@ + id(channel.0)
            + "/messages"@ && valid_boundary(u.boundary@) && u.content_type@ == form_content_type(
            u.boundary@,
        ) && u.body@ == file_form(u.boundary@, text@, file@, filename@),
{
    let mut url = crate::request::api_base();
    push_text(&mut url, "/channels/");
    push_decimal(&mut url, channel.0);
    push_text(&mut url, "/messages");
    upload(url, write_file_form(text, file, filename))
}

/// Send an interaction, given as its JSON text, posted as a form. Building
/// the form always succeeds.
pub fn interact(payload_json: &str) -> (r: Result<Upload, Error>)
    ensures
        r matches Ok(u) && u.method == Method::Post && u.url@
            == "https://discord.com/api/v9/interactions"@ && valid_boundary(u.boundary@)
            && u.content_type@ == form_content_type(u.boundary@) && u.body@ == payload_form(
            u.boundary@,
            payload_json@,
        ),
{
    let url = "https://discord.com/api/v9/interactions".to_owned();
    upload(url, write_payload_form(payload_json))
}

} // verus!
