use fasyslog::format::SyslogContext;
use fasyslog::priority::{Facility, Severity};
use fasyslog::sender::{
    SinkAction, SyslogSender, TcpSender, UdpSender, UnixDatagramSender, UnixStreamSender,
};
use fasyslog::structured::SDElement;
use fasyslog::timestamp::Timestamp;

fn context() -> SyslogContext {
    SyslogContext {
        facility: Facility::User,
        hostname: Some("host".to_string()),
        appname: Some("app".to_string()),
        procid: Some(123),
    }
}

fn clock() -> Timestamp {
    Timestamp::new(2024, 1, 1, 0, 0, 0, 0, 0).unwrap()
}

fn elements() -> Vec<SDElement> {
    let mut element = SDElement::new("ex").unwrap();
    element.add_param("a", "1").unwrap();
    vec![element]
}

fn all_senders() -> Vec<SyslogSender> {
    vec![
        SyslogSender::Tcp(TcpSender::new(context())),
        SyslogSender::Udp(UdpSender::new(context())),
        SyslogSender::UnixDatagram(UnixDatagramSender::new(context())),
        SyslogSender::UnixStream(UnixStreamSender::new(context())),
    ]
}

fn stream_bytes(action: SinkAction) -> Vec<u8> {
    match action {
        SinkAction::Stream(bytes) => bytes,
        other => panic!("not a stream write: {:?}", other),
    }
}

fn datagram_bytes(action: SinkAction) -> Vec<u8> {
    match action {
        SinkAction::Datagram(bytes) => bytes,
        other => panic!("not a datagram: {:?}", other),
    }
}

#[test]
fn tcp_sender_appends_to_the_stream() {
    let sender = TcpSender::new(context());
    let ts = clock();
    assert_eq!(
        stream_bytes(sender.send_rfc3164(Severity::Info, &ts, "hello")),
        b"<14>Jan  1 00:00:00 host app[123]: hello".to_vec()
    );
    assert_eq!(
        stream_bytes(sender.send_rfc5424(Severity::Info, &ts, None, Vec::new(), "hello")),
        b"<14>1 2024-01-01T00:00:00.000000Z host app 123 - - hello".to_vec()
    );
    assert_eq!(
        stream_bytes(sender.send_rfc5425(Severity::Info, &ts, None, elements(), "hello")),
        b"65 <14>1 2024-01-01T00:00:00.000000Z host app 123 - [ex a=\"1\"] hello".to_vec()
    );
}

#[test]
fn unix_stream_sender_appends_to_the_stream() {
    let sender = UnixStreamSender::new(context());
    let ts = clock();
    assert_eq!(
        stream_bytes(sender.send_rfc3164(Severity::Info, &ts, "hello")),
        b"<14>Jan  1 00:00:00 host app[123]: hello".to_vec()
    );
    assert_eq!(
        stream_bytes(sender.send_rfc5424(Severity::Info, &ts, Some("ID"), elements(), "hello")),
        b"<14>1 2024-01-01T00:00:00.000000Z host app 123 ID [ex a=\"1\"] hello".to_vec()
    );
    assert_eq!(
        stream_bytes(sender.send_rfc5425(Severity::Info, &ts, None, Vec::new(), "hello")),
        b"56 <14>1 2024-01-01T00:00:00.000000Z host app 123 - - hello".to_vec()
    );
}

#[test]
fn udp_sender_sends_one_packet() {
    let sender = UdpSender::new(context());
    let ts = clock();
    assert_eq!(
        datagram_bytes(sender.send_rfc3164(Severity::Info, &ts, "hello")),
        b"<14>Jan  1 00:00:00 host app[123]: hello".to_vec()
    );
    assert_eq!(
        datagram_bytes(sender.send_rfc5424(Severity::Info, &ts, None, Vec::new(), "hello")),
        b"<14>1 2024-01-01T00:00:00.000000Z host app 123 - - hello".to_vec()
    );
    assert_eq!(
        datagram_bytes(sender.send_rfc5425(Severity::Info, &ts, None, Vec::new(), "hello")),
        b"56 <14>1 2024-01-01T00:00:00.000000Z host app 123 - - hello".to_vec()
    );
}

#[test]
fn unix_datagram_sender_sends_one_packet() {
    let sender = UnixDatagramSender::new(context());
    let ts = clock();
    assert_eq!(
        datagram_bytes(sender.send_rfc3164(Severity::Alert, &ts, "")),
        b"<9>Jan  1 00:00:00 host app[123]: ".to_vec()
    );
    assert_eq!(
        datagram_bytes(sender.send_rfc5424(Severity::Alert, &ts, None, elements(), "x")),
        b"<9>1 2024-01-01T00:00:00.000000Z host app 123 - [ex a=\"1\"] x".to_vec()
    );
    assert_eq!(
        datagram_bytes(sender.send_rfc5425(Severity::Alert, &ts, None, elements(), "x")),
        b"60 <9>1 2024-01-01T00:00:00.000000Z host app 123 - [ex a=\"1\"] x".to_vec()
    );
}

#[test]
fn dispatcher_sends_what_the_sender_inside_sends() {
    let ts = clock();
    let direct: Vec<Vec<Vec<u8>>> = vec![
        {
            let s = TcpSender::new(context());
            vec![
                stream_bytes(s.send_rfc3164(Severity::Info, &ts, "m")),
                stream_bytes(s.send_rfc5424(Severity::Info, &ts, Some("i"), elements(), "m")),
                stream_bytes(s.send_rfc5425(Severity::Info, &ts, Some("i"), elements(), "m")),
            ]
        },
        {
            let s = UdpSender::new(context());
            vec![
                datagram_bytes(s.send_rfc3164(Severity::Info, &ts, "m")),
                datagram_bytes(s.send_rfc5424(Severity::Info, &ts, Some("i"), elements(), "m")),
                datagram_bytes(s.send_rfc5425(Severity::Info, &ts, Some("i"), elements(), "m")),
            ]
        },
        {
            let s = UnixDatagramSender::new(context());
            vec![
                datagram_bytes(s.send_rfc3164(Severity::Info, &ts, "m")),
                datagram_bytes(s.send_rfc5424(Severity::Info, &ts, Some("i"), elements(), "m")),
                datagram_bytes(s.send_rfc5425(Severity::Info, &ts, Some("i"), elements(), "m")),
            ]
        },
        {
            let s = UnixStreamSender::new(context());
            vec![
                stream_bytes(s.send_rfc3164(Severity::Info, &ts, "m")),
                stream_bytes(s.send_rfc5424(Severity::Info, &ts, Some("i"), elements(), "m")),
                stream_bytes(s.send_rfc5425(Severity::Info, &ts, Some("i"), elements(), "m")),
            ]
        },
    ];
    for (sender, expected) in all_senders().iter().zip(direct) {
        let stream = matches!(sender, SyslogSender::Tcp(_) | SyslogSender::UnixStream(_));
        let actions = vec![
            sender.send_rfc3164(Severity::Info, &ts, "m"),
            sender.send_rfc5424(Severity::Info, &ts, Some("i"), elements(), "m"),
            sender.send_rfc5425(Severity::Info, &ts, Some("i"), elements(), "m"),
        ];
        for (action, bytes) in actions.into_iter().zip(expected) {
            assert_eq!(matches!(action, SinkAction::Stream(_)), stream);
            assert_eq!(matches!(action, SinkAction::Datagram(_)), !stream);
            assert_eq!(action.into_payload(), Some(bytes));
        }
    }
}

#[test]
fn dispatcher_output_is_exact() {
    let ts = clock();
    let sender = SyslogSender::Udp(UdpSender::new(context()));
    assert_eq!(
        datagram_bytes(sender.send_rfc3164(Severity::Info, &ts, "hello")),
        b"<14>Jan  1 00:00:00 host app[123]: hello".to_vec()
    );
    let sender = SyslogSender::Tcp(TcpSender::new(context()));
    assert_eq!(
        stream_bytes(sender.send_rfc5425(Severity::Info, &ts, None, Vec::new(), "hello")),
        b"56 <14>1 2024-01-01T00:00:00.000000Z host app 123 - - hello".to_vec()
    );
}

#[test]
fn flush_does_nothing_for_datagram_senders() {
    let udp = SyslogSender::Udp(UdpSender::new(context()));
    let unix = SyslogSender::UnixDatagram(UnixDatagramSender::new(context()));
    assert!(matches!(udp.flush(), SinkAction::Nothing));
    assert!(matches!(unix.flush(), SinkAction::Nothing));
    assert_eq!(udp.flush().into_payload(), None);
}

#[test]
fn flush_is_passed_on_for_stream_senders() {
    let tcp = SyslogSender::Tcp(TcpSender::new(context()));
    let unix = SyslogSender::UnixStream(UnixStreamSender::new(context()));
    assert!(matches!(tcp.flush(), SinkAction::Flush));
    assert!(matches!(unix.flush(), SinkAction::Flush));
    assert!(matches!(TcpSender::new(context()).flush(), SinkAction::Flush));
    assert!(matches!(UnixStreamSender::new(context()).flush(), SinkAction::Flush));
    assert_eq!(tcp.flush().into_payload(), None);
}

#[test]
fn sending_leaves_the_sender_as_it_was() {
    let sender = SyslogSender::Tcp(TcpSender::new(context()));
    let ts = clock();
    let first = sender.send_rfc3164(Severity::Info, &ts, "hello").into_payload();
    let second = sender.send_rfc3164(Severity::Info, &ts, "hello").into_payload();
    assert_eq!(first, second);
}
