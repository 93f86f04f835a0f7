use fasyslog::format::{frame, SyslogContext};
use fasyslog::frame::body_start;
use fasyslog::priority::{Facility, Severity};
use fasyslog::structured::SDElement;
use fasyslog::timestamp::Timestamp;

#[test]
fn body_start_of_a_written_frame() {
    assert_eq!(body_start(b"3 abc"), Some(2));
    assert_eq!(body_start(b"0 "), Some(2));
    assert_eq!(body_start(b"10 0123456789"), Some(3));
    assert_eq!(body_start(b"5 a b c"), Some(2));
}

#[test]
fn body_start_accepts_zeros_in_front() {
    assert_eq!(body_start(b"003 abc"), Some(4));
}

#[test]
fn body_start_rejects_a_wrong_count() {
    assert_eq!(body_start(b"4 abc"), None);
    assert_eq!(body_start(b"2 abc"), None);
    assert_eq!(body_start(b"1 "), None);
    assert_eq!(body_start(b"99999999999999999999999999999999999999999999 abc"), None);
}

#[test]
fn body_start_rejects_what_is_no_count() {
    assert_eq!(body_start(b""), None);
    assert_eq!(body_start(b" "), None);
    assert_eq!(body_start(b" abc"), None);
    assert_eq!(body_start(b"3"), None);
    assert_eq!(body_start(b"3abc"), None);
    assert_eq!(body_start(b"-3 abc"), None);
    assert_eq!(body_start(b"+3 abc"), None);
    assert_eq!(body_start(b"3\tabc"), None);
    assert_eq!(body_start(b"x 3 abc"), None);
}

#[test]
fn frame_then_body_start_gives_the_body_back() {
    let bodies: [&[u8]; 5] = [b"", b"a", b"hello world", b"12 34", &[0u8; 1000]];
    for body in bodies {
        let framed = frame(body);
        let start = body_start(&framed).unwrap();
        assert_eq!(&framed[start..], body);
        let count = std::str::from_utf8(&framed[..start - 1]).unwrap();
        assert_eq!(count, body.len().to_string());
    }
}

#[test]
fn rfc5425_prefix_is_the_length_of_the_rest() {
    let context = SyslogContext {
        facility: Facility::Local3,
        hostname: Some("h\u{f6}st".to_string()),
        appname: None,
        procid: Some(4_294_967_295),
    };
    let ts = Timestamp::new(2024, 11, 30, 23, 59, 59, 123_456, -60).unwrap();
    let mut element = SDElement::new("ex").unwrap();
    element.add_param("a", "]").unwrap();
    let elements = [element];
    let framed = context.format_rfc5425(Severity::Critical, &ts, Some("m"), &elements, Some("hi"));
    let body = context.format_rfc5424(Severity::Critical, &ts, Some("m"), &elements, Some("hi"));
    let space = framed.iter().position(|b| *b == b' ').unwrap();
    let count: usize = std::str::from_utf8(&framed[..space]).unwrap().parse().unwrap();
    assert_eq!(count, framed.len() - space - 1);
    assert_eq!(body_start(&framed), Some(space + 1));
    assert_eq!(&framed[space + 1..], body.as_slice());
    assert_eq!(
        String::from_utf8(body).unwrap(),
        "<154>1 2024-11-30T23:59:59.123456-01:00 h\u{f6}st - 4294967295 m [ex a=\"\\]\"] hi"
    );
}
