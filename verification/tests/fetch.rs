use netboot::buffer::ResponseBuffer;
use netboot::cause::{DnsError, DnsFailure};
use netboot::error::{Error, TlsError};
use netboot::network::{describe_network, push_dotted, NetworkConfig};
use netboot::pipeline::{
    null_terminated, render_headers, Method, Request, SessionPlan, Target, TlsVersion, Ipv4, Pipeline, PipelineCommand, PipelineEvent, Stage, BODY_CAPACITY,
    HEADER_CAPACITY,
};
use netboot::report::{render_dump, report, Report, DUMP_LEN};

fn target(port: u16) -> Target {
    Target {
        hostname: String::from("check.tls.support"),
        port,
        uri: String::from("https://check.tls.support/"),
    }
}

fn up_to_headers(capacity: usize, headers: Vec<(String, String)>) -> (Pipeline, PipelineCommand) {
    let (mut p, first) = Pipeline::new(target(443), capacity);
    assert_eq!(first, PipelineCommand::AwaitNetwork);
    assert_eq!(p.advance(&PipelineEvent::NetworkUp), PipelineCommand::Resolve);
    assert_eq!(
        p.advance(&PipelineEvent::Resolved(Ipv4(0x5db8_d822))),
        PipelineCommand::OpenSession { address: Ipv4(0x5db8_d822), port: 443 }
    );
    assert_eq!(p.advance(&PipelineEvent::SessionOpened), PipelineCommand::SendRequest);
    assert_eq!(p.advance(&PipelineEvent::RequestSent), PipelineCommand::AwaitResponse);
    assert_eq!(p.advance(&PipelineEvent::ResponseStarted), PipelineCommand::ReadHeaders);
    let cmd = p.advance(&PipelineEvent::Headers(headers));
    (p, cmd)
}

#[test]
fn round_trip_of_a_small_response() {
    let headers = vec![(String::from("Content-Type"), String::from("text/plain"))];
    let (mut p, cmd) = up_to_headers(BODY_CAPACITY, headers);
    assert_eq!(cmd, PipelineCommand::ReadBody { max: 32768 });
    assert_eq!(p.header_lines, vec![String::from("Content-Type: text/plain")]);
    assert_eq!(
        p.advance(&PipelineEvent::BodyRead(b"hello".to_vec())),
        PipelineCommand::ReadBody { max: 32763 }
    );
    assert_eq!(p.advance(&PipelineEvent::BodyRead(Vec::new())), PipelineCommand::Close);
    assert_eq!(p.advance(&PipelineEvent::Closed), PipelineCommand::Finish);
    assert_eq!(p.stage, Stage::Done);
    assert_eq!(p.failure, None);
    assert_eq!(p.body.len(), 5);
    assert_eq!(p.body.captured_bytes(), b"hello".to_vec());
    assert_eq!(report(&p.body), Report::Text(String::from("hello")));
    assert_eq!(HEADER_CAPACITY, 1024);
}

#[test]
fn a_failed_resolution_stops_before_any_connection() {
    let (mut p, _) = Pipeline::new(target(443), 64);
    let mut issued = vec![p.advance(&PipelineEvent::NetworkUp)];
    issued.push(p.advance(&PipelineEvent::ResolveFailed(DnsError(DnsFailure::Failed))));
    for event in [
        PipelineEvent::SessionOpened,
        PipelineEvent::RequestSent,
        PipelineEvent::ResponseStarted,
        PipelineEvent::Headers(Vec::new()),
        PipelineEvent::BodyRead(vec![1, 2, 3]),
        PipelineEvent::Closed,
    ] {
        issued.push(p.advance(&event));
    }
    assert_eq!(issued[0], PipelineCommand::Resolve);
    assert!(issued[1..].iter().all(|c| *c == PipelineCommand::Abort));
    assert_eq!(p.stage, Stage::Failed);
    assert_eq!(p.failure, Some(Error::Dns(DnsError(DnsFailure::Failed))));
    assert_eq!(p.failure.unwrap().describe(), "dns error: DnsError(Failed)");
    assert_eq!(p.body.len(), 0);
    assert!(p.header_lines.is_empty());
}

#[test]
fn a_zero_length_read_ends_the_body() {
    let (mut p, _) = up_to_headers(16, Vec::new());
    assert_eq!(p.advance(&PipelineEvent::BodyRead(vec![7; 4])), PipelineCommand::ReadBody { max: 12 });
    assert_eq!(p.advance(&PipelineEvent::BodyRead(Vec::new())), PipelineCommand::Close);
    assert_eq!(p.stage, Stage::Closing);
    assert_eq!(p.advance(&PipelineEvent::BodyRead(vec![9; 4])), PipelineCommand::Idle);
    assert_eq!(p.body.len(), 4);
}

#[test]
fn a_body_of_exactly_the_capacity_ends_by_exhaustion() {
    let (mut p, cmd) = up_to_headers(8, Vec::new());
    assert_eq!(cmd, PipelineCommand::ReadBody { max: 8 });
    assert_eq!(p.advance(&PipelineEvent::BodyRead(vec![1; 5])), PipelineCommand::ReadBody { max: 3 });
    assert_eq!(p.advance(&PipelineEvent::BodyRead(vec![2; 3])), PipelineCommand::Close);
    assert_eq!(p.body.len(), 8);
    assert!(p.body.is_full());
    assert_eq!(p.body.remaining(), 0);
    assert_eq!(p.advance(&PipelineEvent::CloseFailed), PipelineCommand::Finish);
    assert_eq!(p.stage, Stage::Done);
    assert_eq!(p.failure, None);
}

#[test]
fn a_read_longer_than_the_room_is_cut() {
    let (mut p, _) = up_to_headers(4, Vec::new());
    assert_eq!(p.advance(&PipelineEvent::BodyRead(vec![1, 2, 3, 4, 5, 6])), PipelineCommand::Close);
    assert_eq!(p.body.captured_bytes(), vec![1, 2, 3, 4]);
}

#[test]
fn a_buffer_without_room_is_never_read_into() {
    let (p, cmd) = up_to_headers(0, Vec::new());
    assert_eq!(cmd, PipelineCommand::Close);
    assert_eq!(p.stage, Stage::Closing);
}

#[test]
fn a_failed_read_ends_the_body_without_failing_the_fetch() {
    let (mut p, _) = up_to_headers(16, Vec::new());
    assert_eq!(p.advance(&PipelineEvent::BodyRead(vec![b'o', b'k'])), PipelineCommand::ReadBody { max: 14 });
    assert_eq!(p.advance(&PipelineEvent::BodyReadFailed), PipelineCommand::Close);
    assert_eq!(p.advance(&PipelineEvent::Closed), PipelineCommand::Finish);
    assert_eq!(report(&p.body), Report::Text(String::from("ok")));
}

#[test]
fn each_stage_reports_its_own_failure() {
    let (mut p, _) = Pipeline::new(target(443), 8);
    p.advance(&PipelineEvent::NetworkUp);
    p.advance(&PipelineEvent::Resolved(Ipv4(1)));
    assert_eq!(p.advance(&PipelineEvent::SessionFailed(TlsError::OutOfMemory)), PipelineCommand::Abort);
    assert_eq!(p.failure, Some(Error::Tls(TlsError::OutOfMemory)));

    let (mut p, _) = Pipeline::new(target(443), 8);
    p.advance(&PipelineEvent::NetworkUp);
    p.advance(&PipelineEvent::Resolved(Ipv4(1)));
    p.advance(&PipelineEvent::SessionOpened);
    assert_eq!(p.advance(&PipelineEvent::RequestFailed), PipelineCommand::Abort);
    assert_eq!(p.failure, Some(Error::AdHoc("http request error!")));

    let (mut p, _) = Pipeline::new(target(443), 8);
    p.advance(&PipelineEvent::NetworkUp);
    p.advance(&PipelineEvent::Resolved(Ipv4(1)));
    p.advance(&PipelineEvent::SessionOpened);
    p.advance(&PipelineEvent::RequestSent);
    assert_eq!(p.advance(&PipelineEvent::ResponseFailed), PipelineCommand::Abort);
    assert_eq!(p.failure, Some(Error::AdHoc("http response error!")));

    let (mut p, _) = Pipeline::new(target(443), 8);
    p.advance(&PipelineEvent::NetworkUp);
    p.advance(&PipelineEvent::Resolved(Ipv4(1)));
    p.advance(&PipelineEvent::SessionOpened);
    p.advance(&PipelineEvent::RequestSent);
    p.advance(&PipelineEvent::ResponseStarted);
    assert_eq!(p.advance(&PipelineEvent::HeadersMissing), PipelineCommand::Abort);
    assert_eq!(p.failure, Some(Error::AdHoc("failed to read response headers!")));
    assert_eq!(
        p.failure.unwrap().describe(),
        "ad-hoc error: failed to read response headers!"
    );
}

#[test]
fn an_event_out_of_turn_is_ignored() {
    let (mut p, _) = Pipeline::new(target(443), 8);
    assert_eq!(p.advance(&PipelineEvent::RequestSent), PipelineCommand::Idle);
    assert_eq!(p.stage, Stage::AwaitingNetwork);
}

#[test]
fn every_header_gets_a_line() {
    let headers = vec![
        (String::from("Content-Type"), String::from("text/plain")),
        (String::from("Content-Length"), String::from("5")),
        (String::from("X-Empty"), String::new()),
    ];
    assert_eq!(
        render_headers(&headers),
        vec![
            String::from("Content-Type: text/plain"),
            String::from("Content-Length: 5"),
            String::from("X-Empty: ")
        ]
    );
    assert!(render_headers(&Vec::new()).is_empty());
}

#[test]
fn text_is_reported_in_full() {
    let mut b = ResponseBuffer::new(64);
    assert_eq!(b.absorb("gr\u{fc}\u{df}e, \u{4e16}\u{754c}".as_bytes()), 15);
    assert_eq!(report(&b), Report::Text(String::from("gr\u{fc}\u{df}e, \u{4e16}\u{754c}")));
    let empty = ResponseBuffer::new(64);
    assert_eq!(report(&empty), Report::Text(String::new()));
}

#[test]
fn bytes_that_are_not_text_are_dumped() {
    let mut b = ResponseBuffer::new(40);
    let bytes: Vec<u8> = (0u8..36).map(|i| 0xf0u8.wrapping_add(i)).collect();
    assert_eq!(b.absorb(&bytes), 36);
    let expected = String::from("first 32 bytes of body: [f0, f1, f2, f3, f4, f5, f6, f7, f8, f9, fa, fb, fc, fd, fe, ff, 00, 01, 02, 03, 04, 05, 06, 07, 08, 09, 0a, 0b, 0c, 0d, 0e, 0f]");
    assert_eq!(
        report(&b),
        Report::Undecodable { notice: String::from("<body is not valid UTF-8>"), dump: expected }
    );
    assert_eq!(DUMP_LEN, 32);
}

#[test]
fn the_dump_shows_the_region_beyond_what_was_written() {
    let mut b = ResponseBuffer::new(4);
    b.absorb(&[0xff]);
    assert_eq!(render_dump(&b), "first 32 bytes of body: [ff, 00, 00, 00]");
    assert_eq!(render_dump(&ResponseBuffer::new(0)), "first 32 bytes of body: []");
    assert_eq!(render_dump(&ResponseBuffer::new(1)), "first 32 bytes of body: [00]");
}

#[test]
fn a_truncated_character_is_not_text() {
    let mut b = ResponseBuffer::new(2);
    b.absorb("a\u{20ac}".as_bytes());
    assert_eq!(b.len(), 2);
    assert!(matches!(report(&b), Report::Undecodable { .. }));
}

#[test]
fn the_buffer_keeps_its_capacity() {
    let mut b = ResponseBuffer::new(3);
    assert_eq!(b.capacity(), 3);
    assert_eq!(b.remaining(), 3);
    assert_eq!(b.absorb(&[]), 0);
    assert_eq!(b.absorb(&[1, 2]), 2);
    assert_eq!(b.absorb(&[3, 4]), 1);
    assert_eq!(b.absorb(&[5]), 0);
    assert_eq!(b.capacity(), 3);
    assert_eq!(b.captured_bytes(), vec![1, 2, 3]);
    assert_eq!(b.get(0), Some(1));
    assert_eq!(b.get(3), None);
}

#[test]
fn a_script_is_answered_event_by_event() {
    let (mut p, _) = Pipeline::new(target(8443), 6);
    let script = vec![
        PipelineEvent::NetworkUp,
        PipelineEvent::Resolved(Ipv4(0x0a00_0001)),
        PipelineEvent::SessionOpened,
        PipelineEvent::RequestSent,
        PipelineEvent::ResponseStarted,
        PipelineEvent::Headers(vec![(String::from("Server"), String::from("t"))]),
        PipelineEvent::BodyRead(vec![b'a', b'b']),
        PipelineEvent::BodyRead(Vec::new()),
        PipelineEvent::BodyRead(vec![b'c']),
        PipelineEvent::Closed,
    ];
    let issued = p.run(&script);
    assert_eq!(
        issued,
        vec![
            PipelineCommand::Resolve,
            PipelineCommand::OpenSession { address: Ipv4(0x0a00_0001), port: 8443 },
            PipelineCommand::SendRequest,
            PipelineCommand::AwaitResponse,
            PipelineCommand::ReadHeaders,
            PipelineCommand::ReadBody { max: 6 },
            PipelineCommand::ReadBody { max: 4 },
            PipelineCommand::Close,
            PipelineCommand::Idle,
            PipelineCommand::Finish,
        ]
    );
    assert_eq!(p.stage, Stage::Done);
    assert_eq!(p.body.captured_bytes(), vec![b'a', b'b']);
    assert_eq!(p.header_lines, vec![String::from("Server: t")]);
}

#[test]
fn a_script_with_a_failed_resolution_opens_nothing() {
    let (mut p, _) = Pipeline::new(target(443), 6);
    let script = vec![
        PipelineEvent::NetworkUp,
        PipelineEvent::ResolveFailed(DnsError(DnsFailure::InvalidName)),
        PipelineEvent::Resolved(Ipv4(1)),
        PipelineEvent::SessionOpened,
        PipelineEvent::BodyRead(vec![1]),
    ];
    let issued = p.run(&script);
    assert_eq!(issued[0], PipelineCommand::Resolve);
    assert_eq!(issued[1..], [PipelineCommand::Abort; 4]);
    assert_eq!(p.failure, Some(Error::Dns(DnsError(DnsFailure::InvalidName))));
    assert!(p.run(&Vec::new()).is_empty());
}

#[test]
fn the_configuration_is_shown_line_by_line() {
    let config = NetworkConfig {
        address: Ipv4(0xc0a8_0105),
        prefix_len: 24,
        gateway: Some(Ipv4(0xc0a8_0101)),
        dns_servers: vec![Ipv4(0x0808_0808), Ipv4(0x0101_0101)],
    };
    assert_eq!(
        describe_network(&config),
        vec![
            String::from("  - local ip: 192.168.1.5/24"),
            String::from("  - default gateway: Some(192.168.1.1)"),
            String::from("  - dns servers:"),
            String::from("    - 8.8.8.8"),
            String::from("    - 1.1.1.1"),
        ]
    );
    let bare = NetworkConfig { address: Ipv4(0), prefix_len: 0, gateway: None, dns_servers: Vec::new() };
    assert_eq!(
        describe_network(&bare),
        vec![
            String::from("  - local ip: 0.0.0.0/0"),
            String::from("  - default gateway: None"),
            String::from("  - dns servers:"),
        ]
    );
    let mut out = String::new();
    push_dotted(&mut out, Ipv4(u32::MAX));
    assert_eq!(out, "255.255.255.255");
}

#[test]
fn the_chain_gets_its_terminating_zero() {
    assert_eq!(null_terminated(b"-----END CERTIFICATE-----\n"), b"-----END CERTIFICATE-----\n\0".to_vec());
    assert_eq!(null_terminated(&[]), vec![0u8]);
}

#[test]
fn the_request_and_the_session_follow_the_target() {
    let (p, _) = Pipeline::new(target(443), 8);
    assert_eq!(
        p.request(),
        Request {
            method: Method::Get,
            keep_alive: false,
            uri: String::from("https://check.tls.support/"),
            host: String::from("check.tls.support"),
        }
    );
    assert_eq!(
        p.session(Ipv4(0x0102_0304)),
        SessionPlan {
            address: Ipv4(0x0102_0304),
            port: 443,
            server_name: String::from("check.tls.support"),
            min_version: TlsVersion::Tls1_2,
            client_certificate: false,
        }
    );
    assert_eq!(p.target, target(443));
}
