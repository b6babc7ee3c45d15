use futures::StreamExt;
use polonium::{
    messages_url, server_url, Attachment, AttachmentError, Monospace, Notification,
    NotificationError, Priority, Sound, HTML,
};

fn build_notification<'a>() -> Notification<'a> {
    let user = "user";
    let token = "token";
    let message = "message";
    Notification::new(token, user, message)
}

/// The boundary of a form and the bytes it puts in the request body.
fn body_of(form: reqwest::multipart::Form) -> (String, Vec<u8>) {
    let boundary = form.boundary().to_string();
    let chunks = futures::executor::block_on(form.into_stream().collect::<Vec<_>>());
    let mut bytes = Vec::new();
    for chunk in chunks {
        bytes.extend_from_slice(&chunk.unwrap());
    }
    (boundary, bytes)
}

fn text_part(boundary: &str, name: &str, value: &str) -> String {
    format!(
        "--{}\r\nContent-Disposition: form-data; name=\"{}\"\r\n\r\n{}\r\n",
        boundary, name, value
    )
}

fn file_part(boundary: &str, filename: &str, mime: &str, content: &str) -> String {
    format!(
        "--{}\r\nContent-Disposition: form-data; name=\"attachment\"; filename=\"{}\"\r\nContent-Type: {}\r\n\r\n{}\r\n",
        boundary, filename, mime, content
    )
}

fn end(boundary: &str) -> String {
    format!("--{}--\r\n", boundary)
}

#[test]
fn test_new() {
    build_notification();
}

#[test]
fn new_sets_only_the_required_fields() {
    let n = build_notification();
    assert_eq!("token", n.request.token);
    assert_eq!("user", n.request.user);
    assert_eq!("message", n.request.message);
    assert!(n.request.device.is_none());
    assert!(n.request.title.is_none());
    assert!(n.request.html.is_none());
    assert!(n.request.monospace.is_none());
    assert!(n.request.timestamp.is_none());
    assert!(n.request.priority.is_none());
    assert!(n.request.url.is_none());
    assert!(n.request.url_title.is_none());
    assert!(n.request.sound.is_none());
    assert!(n.attachment.is_none());
}

#[test]
fn form_of_required_fields_only() {
    let n = build_notification();
    let (b, body) = body_of(n.multipart().unwrap());
    let expected = text_part(&b, "token", "token")
        + &text_part(&b, "user", "user")
        + &text_part(&b, "message", "message")
        + &end(&b);
    assert_eq!(expected, String::from_utf8(body).unwrap());
}

#[test]
fn form_with_device() {
    let mut n = build_notification();
    n.request.device = Some("device".into());
    let (b, body) = body_of(n.multipart().unwrap());
    let expected = text_part(&b, "token", "token")
        + &text_part(&b, "user", "user")
        + &text_part(&b, "message", "message")
        + &text_part(&b, "device", "device")
        + &end(&b);
    assert_eq!(expected, String::from_utf8(body).unwrap());
}

#[test]
fn form_with_every_field() {
    let mut n = Notification::new("t0k3n", "us3r", "h\u{e9}llo w\u{f6}rld");
    n.request.device = Some("phone".into());
    n.request.title = Some("A title".into());
    n.request.html = Some(HTML::Enabled);
    n.request.monospace = Some(Monospace::Disabled);
    n.request.timestamp = Some(1_600_000_000);
    n.request.priority = Some(Priority::Lowest);
    n.request.url = Some("https://example.com/x?y=z".into());
    n.request.url_title = Some("Example".into());
    n.request.sound = Some(Sound::SpaceAlarm);
    let (b, body) = body_of(n.multipart().unwrap());
    let expected = text_part(&b, "token", "t0k3n")
        + &text_part(&b, "user", "us3r")
        + &text_part(&b, "message", "h\u{e9}llo w\u{f6}rld")
        + &text_part(&b, "device", "phone")
        + &text_part(&b, "title", "A title")
        + &text_part(&b, "html", "1")
        + &text_part(&b, "monospace", "0")
        + &text_part(&b, "timestamp", "1600000000")
        + &text_part(&b, "priority", "-2")
        + &text_part(&b, "url", "https://example.com/x?y=z")
        + &text_part(&b, "url_title", "Example")
        + &text_part(&b, "sound", "spacealarm")
        + &end(&b);
    assert_eq!(expected, String::from_utf8(body).unwrap());
}

#[test]
fn set_field_stands_once_and_unset_fields_never() {
    let mut n = build_notification();
    n.request.priority = Some(Priority::Emergency);
    let (_, body) = body_of(n.multipart().unwrap());
    let text = String::from_utf8(body).unwrap();
    assert_eq!(1, text.matches("name=\"priority\"\r\n\r\n2\r\n").count());
    assert_eq!(1, text.matches("name=\"priority\"").count());
    for name in ["device", "title", "html", "monospace", "timestamp", "url", "url_title", "sound", "attachment"] {
        assert_eq!(0, text.matches(&format!("name=\"{}\"", name)).count());
    }
    assert_eq!(4, text.matches("Content-Disposition").count());
}

#[test]
fn field_set_twice_keeps_the_last_value() {
    let mut n = build_notification();
    n.request.title = Some("first".into());
    n.request.title = Some("second".into());
    let (b, body) = body_of(n.multipart().unwrap());
    let expected = text_part(&b, "token", "token")
        + &text_part(&b, "user", "user")
        + &text_part(&b, "message", "message")
        + &text_part(&b, "title", "second")
        + &end(&b);
    assert_eq!(expected, String::from_utf8(body).unwrap());
}

#[test]
fn form_with_attachment() {
    let mut n = build_notification();
    let a = Attachment::new("filename", "plain/text", b"some content");
    n.attach(&a);
    let (b, body) = body_of(n.multipart().unwrap());
    let expected = text_part(&b, "token", "token")
        + &text_part(&b, "user", "user")
        + &text_part(&b, "message", "message")
        + &file_part(&b, "filename", "plain/text", "some content")
        + &end(&b);
    assert_eq!(expected, String::from_utf8(body).unwrap());
}

#[test]
fn form_with_empty_attachment() {
    let mut n = build_notification();
    let a = Attachment::new("filename", "plain/text", &[]);
    n.attach(&a);
    let (b, body) = body_of(n.multipart().unwrap());
    let expected = text_part(&b, "token", "token")
        + &text_part(&b, "user", "user")
        + &text_part(&b, "message", "message")
        + &file_part(&b, "filename", "plain/text", "")
        + &end(&b);
    assert_eq!(expected, String::from_utf8(body).unwrap());
}

#[test]
fn form_with_fetched_attachment() {
    let png: [u8; 8] = [0x89, 0x50, 0x4E, 0x47, 0x0D, 0x0A, 0x1A, 0x0A];
    let filename = Attachment::filename_from_url("http://127.0.0.1:1234/filename.png").unwrap();
    let a = Attachment::from_content(filename, png.to_vec()).unwrap();
    assert_eq!("filename.png", a.filename);
    assert_eq!("image/png", a.mime_type);
    assert!(a.content.len() > 0);
    let mut n = build_notification();
    n.attach(&a);
    let (b, body) = body_of(n.multipart().unwrap());
    let mut expected = (text_part(&b, "token", "token")
        + &text_part(&b, "user", "user")
        + &text_part(&b, "message", "message")
        + &format!(
            "--{}\r\nContent-Disposition: form-data; name=\"attachment\"; filename=\"filename.png\"\r\nContent-Type: image/png\r\n\r\n",
            b
        ))
        .into_bytes();
    expected.extend_from_slice(&png);
    expected.extend_from_slice(format!("\r\n{}", end(&b)).as_bytes());
    assert_eq!(expected, body);
}

#[test]
fn attachment_follows_the_text_fields() {
    let mut n = build_notification();
    let a = Attachment::new("a.txt", "text/plain", b"abc");
    n.attach(&a);
    n.request.sound = Some(Sound::Silent);
    let (b, body) = body_of(n.multipart().unwrap());
    let expected = text_part(&b, "token", "token")
        + &text_part(&b, "user", "user")
        + &text_part(&b, "message", "message")
        + &text_part(&b, "sound", "none")
        + &file_part(&b, "a.txt", "text/plain", "abc")
        + &end(&b);
    assert_eq!(expected, String::from_utf8(body).unwrap());
}

#[test]
fn second_attachment_replaces_the_first() {
    let mut n = build_notification();
    let first = Attachment::new("first.txt", "text/plain", b"first content");
    let second = Attachment::new("second.bin", "application/octet-stream", b"second content");
    n.attach(&first);
    n.attach(&second);
    assert_eq!("second.bin", n.attachment.unwrap().filename);
    let (b, body) = body_of(n.multipart().unwrap());
    let expected = text_part(&b, "token", "token")
        + &text_part(&b, "user", "user")
        + &text_part(&b, "message", "message")
        + &file_part(&b, "second.bin", "application/octet-stream", "second content")
        + &end(&b);
    assert_eq!(expected, String::from_utf8(body).unwrap());
}

#[test]
fn media_type_is_written_in_lower_case() {
    let mut n = build_notification();
    let a = Attachment::new("a.txt", "Text/PLAIN", b"abc");
    n.attach(&a);
    let (_, body) = body_of(n.multipart().unwrap());
    let text = String::from_utf8(body).unwrap();
    assert_eq!(1, text.matches("Content-Type: text/plain\r\n").count());
}

#[test]
fn attachment_with_invalid_media_type() {
    let mut n = build_notification();
    let a = Attachment::new("a.txt", "no media type", b"abc");
    n.attach(&a);
    let e = n.multipart().unwrap_err();
    assert!(matches!(e, NotificationError::Attachment(AttachmentError::Reqwest(_))));
}

#[test]
fn file_part_is_added_or_the_error_handed_on() {
    let part = reqwest::multipart::Part::bytes(b"xyz".to_vec()).file_name("f").mime_str("a/b");
    let form = Notification::with_file_part(reqwest::multipart::Form::new(), part).unwrap();
    let (b, body) = body_of(form);
    assert_eq!(file_part(&b, "f", "a/b", "xyz") + &end(&b), String::from_utf8(body).unwrap());
    let bad = reqwest::multipart::Part::bytes(b"xyz".to_vec()).mime_str("");
    let e = Notification::with_file_part(reqwest::multipart::Form::new(), bad).unwrap_err();
    assert!(matches!(e, NotificationError::Attachment(AttachmentError::Reqwest(_))));
}

#[test]
fn production_server() {
    assert_eq!("https://api.pushover.net", server_url());
}

#[test]
fn messages_endpoint() {
    assert_eq!("https://api.pushover.net/1/messages.json", messages_url(&server_url()));
    assert_eq!("http://127.0.0.1:1234/1/messages.json", messages_url("http://127.0.0.1:1234"));
}

#[test]
fn default_notification_is_empty() {
    let n = Notification::default();
    assert_eq!("", n.request.token);
    assert_eq!("", n.request.user);
    assert_eq!("", n.request.message);
    assert!(n.request.device.is_none());
    assert!(n.request.sound.is_none());
    assert!(n.attachment.is_none());
    let (b, body) = body_of(n.multipart().unwrap());
    let expected = text_part(&b, "token", "")
        + &text_part(&b, "user", "")
        + &text_part(&b, "message", "")
        + &end(&b);
    assert_eq!(expected, String::from_utf8(body).unwrap());
}

#[test]
fn default_request_is_empty() {
    let r = polonium::Request::default();
    assert_eq!("", r.token);
    assert_eq!("", r.user);
    assert_eq!("", r.message);
    assert!(r.title.is_none());
    assert!(r.timestamp.is_none());
}

#[test]
fn request_with_required_fields() {
    let r = polonium::Request::new("a", "b", "c");
    assert_eq!("a", r.token);
    assert_eq!("b", r.user);
    assert_eq!("c", r.message);
    assert!(r.device.is_none());
    assert!(r.html.is_none());
    assert!(r.priority.is_none());
}

#[test]
fn notification_error_from_its_causes() {
    let cause = reqwest::multipart::Part::bytes(vec![]).mime_str("").unwrap_err();
    assert!(matches!(NotificationError::from(cause), NotificationError::Reqwest(_)));
    let cause = serde_json::from_str::<serde_json::Value>("{").unwrap_err();
    assert!(matches!(NotificationError::from(cause), NotificationError::Deserialize(_)));
    let e = NotificationError::from(AttachmentError::Infer);
    assert!(matches!(e, NotificationError::Attachment(AttachmentError::Infer)));
}
