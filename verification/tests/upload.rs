use discord::model::ChannelId;
use discord::request::Method;
use discord::upload::{interact, send_file};

fn part(boundary: &str, name: &str) -> String {
    format!("--{}\r\nContent-Disposition: form-data; name=\"{}\"\r\n\r\n", boundary, name)
}

#[test]
fn send_file_posts_the_text_and_the_file_as_a_form() {
    let u = send_file(ChannelId(42), "hello", b"\x00\x01bytes", "a.bin").unwrap();
    assert_eq!(u.method, Method::Post);
    assert_eq!(u.url, "https://discord.com/api/v6/channels/42/messages");
    assert_eq!(u.boundary.len(), 16);
    assert!(u.boundary.chars().all(|c| c.is_ascii_alphanumeric()));
    assert_eq!(u.content_type, format!("multipart/form-data; boundary={}", u.boundary));
    let b = &u.boundary;
    let mut expected = part(b, "content").into_bytes();
    expected.extend_from_slice(b"hello\r\n");
    expected.extend_from_slice(
        format!(
            "--{}\r\nContent-Disposition: form-data; name=\"file\"; filename=\"a.bin\"\r\nContent-Type: application/octet-stream\r\n\r\n",
            b
        )
        .as_bytes(),
    );
    expected.extend_from_slice(b"\x00\x01bytes");
    expected.extend_from_slice(format!("\r\n--{}--\r\n", b).as_bytes());
    assert_eq!(u.body, expected);
}

#[test]
fn send_file_with_empty_text_still_names_the_file() {
    let u = send_file(ChannelId(1), "", b"", "empty.txt").unwrap();
    let body = String::from_utf8(u.body.clone()).unwrap();
    let b = &u.boundary;
    assert!(body.starts_with(&format!("{}\r\n", part(b, "content"))));
    assert!(body.contains("filename=\"empty.txt\""));
    assert!(body.ends_with(&format!("\r\n--{}--\r\n", b)));
}

#[test]
fn interact_posts_the_payload_as_a_form() {
    let u = interact("{\"type\":3}").unwrap();
    assert_eq!(u.method, Method::Post);
    assert_eq!(u.url, "https://discord.com/api/v9/interactions");
    assert_eq!(u.content_type, format!("multipart/form-data; boundary={}", u.boundary));
    let expected = format!("{}{{\"type\":3}}\r\n--{}--\r\n", part(&u.boundary, "payload_json"), u.boundary);
    assert_eq!(String::from_utf8(u.body).unwrap(), expected);
}
