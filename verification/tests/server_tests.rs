use memstats_server::digits::u64_to_decimal;
use memstats_server::handler::{handle_connection, write_phase, ReadOutcome};
use memstats_server::request::decode_request;
use memstats_server::response::{build_body, build_response, build_wire};
use memstats_server::server::{
    bind_address, failure_note, is_fatal, plan_accept, plan_startup, AcceptStep, FailureKind,
    StartupStep, SERVER_PORT,
};
use memstats_server::stats::{sample_stats, snapshot_of_bytes, StatsSnapshot};

/// Splits a wire response into (status line, headers, body) and returns the
/// parsed Content-Length value.
fn parse_wire(wire: &str) -> (String, Vec<(String, String)>, String, usize) {
    let head_end = wire.find("\r\n\r\n").expect("no header/body separator");
    let head = &wire[..head_end];
    let body = wire[head_end + 4..].to_string();
    let mut lines = head.split("\r\n");
    let status = lines.next().expect("no status line").to_string();
    let mut headers = Vec::new();
    let mut content_length = None;
    for line in lines {
        let sep = line.find(": ").expect("malformed header line");
        let name = line[..sep].to_string();
        let value = line[sep + 2..].to_string();
        if name == "Content-Length" {
            content_length = Some(value.parse::<usize>().expect("Content-Length not a number"));
        }
        headers.push((name, value));
    }
    (status, headers, body, content_length.expect("no Content-Length header"))
}

#[test]
fn decimal_rendering_exact() {
    assert_eq!(u64_to_decimal(0), "0");
    assert_eq!(u64_to_decimal(7), "7");
    assert_eq!(u64_to_decimal(10), "10");
    assert_eq!(u64_to_decimal(8080), "8080");
    assert_eq!(u64_to_decimal(1000000), "1000000");
    assert_eq!(u64_to_decimal(u64::MAX), "18446744073709551615");
}

#[test]
fn body_reports_both_figures() {
    let body = build_body(&StatsSnapshot { total_kb: 2048, used_kb: 1024 });
    assert!(body.contains("<li><strong>Total Memory:</strong> 2048 kB</li>"));
    assert!(body.contains("<li><strong>Used Memory:</strong> 1024 kB</li>"));
    assert!(body.contains("<h1>Hello, Unikernel World!</h1>"));
    assert!(body.starts_with("\n            <html>"));
    assert!(body.trim_end().ends_with("</html>"));
}

#[test]
fn content_length_matches_body_bytes() {
    let snapshots = [
        StatsSnapshot { total_kb: 0, used_kb: 0 },
        StatsSnapshot { total_kb: 1, used_kb: 1 },
        StatsSnapshot { total_kb: 123456, used_kb: 654321 },
        StatsSnapshot { total_kb: u64::MAX, used_kb: u64::MAX },
    ];
    for s in snapshots {
        let r = build_response(&s);
        assert_eq!(r.status_line, "HTTP/1.1 200 OK");
        assert_eq!(r.headers.len(), 2);
        assert_eq!(r.headers[0].0, "Content-Type");
        assert_eq!(r.headers[0].1, "text/html; charset=UTF-8");
        assert_eq!(r.headers[1].0, "Content-Length");
        let expected = r.body.as_bytes().len().to_string();
        assert_eq!(r.headers[1].1, expected);
    }
}

#[test]
fn wire_text_matches_handwritten_format() {
    let s = StatsSnapshot { total_kb: 2048, used_kb: 1024 };
    let body = format!(
        "\n            <html>\n                <head>\n                    <meta charset=\"UTF-8\">\n                    <title>Unikernel Stats</title>\n                </head>\n                <body>\n                    <h1>Hello, Unikernel World!</h1>\n                    <p>Here are some system stats:</p>\n                    <ul>\n                        <li><strong>Total Memory:</strong> {} kB</li>\n                        <li><strong>Used Memory:</strong> {} kB</li>                        \n                    </ul>\n                </body>\n            </html>\n        ",
        2048, 1024
    );
    let expected = format!(
        "HTTP/1.1 200 OK\r\nContent-Type: text/html; charset=UTF-8\r\nContent-Length: {}\r\n\r\n{}",
        body.len(),
        body
    );
    assert_eq!(build_wire(&s), expected);
}

#[test]
fn client_request_gets_full_response() {
    let request = b"GET / HTTP/1.1\r\n\r\n".to_vec();
    let out = handle_connection(ReadOutcome::Received(request));
    assert_eq!(out.request_text.as_deref(), Some("GET / HTTP/1.1\r\n\r\n"));
    let (status, headers, body, content_length) = parse_wire(&out.wire);
    assert_eq!(status, "HTTP/1.1 200 OK");
    assert!(headers.iter().any(|(n, _)| n == "Content-Length"));
    assert_eq!(content_length, body.as_bytes().len());
    assert!(body.contains("Unikernel World"));
}

#[test]
fn zero_bytes_still_answered() {
    let out = handle_connection(ReadOutcome::Received(Vec::new()));
    assert_eq!(out.request_text.as_deref(), Some(""));
    let (status, _, body, content_length) = parse_wire(&out.wire);
    assert_eq!(status, "HTTP/1.1 200 OK");
    assert_eq!(content_length, body.as_bytes().len());
}

#[test]
fn malformed_utf8_still_answered() {
    let out = handle_connection(ReadOutcome::Received(vec![0xff, 0xfe, b'G']));
    assert_eq!(out.request_text.as_deref(), Some("\u{fffd}\u{fffd}G"));
    let (status, _, body, content_length) = parse_wire(&out.wire);
    assert_eq!(status, "HTTP/1.1 200 OK");
    assert_eq!(content_length, body.as_bytes().len());
}

#[test]
fn failed_read_still_answered() {
    let out = handle_connection(ReadOutcome::Failed);
    assert!(out.request_text.is_none());
    let (status, _, body, content_length) = parse_wire(&out.wire);
    assert_eq!(status, "HTTP/1.1 200 OK");
    assert_eq!(content_length, body.as_bytes().len());
}

#[test]
fn lossy_decoding_of_request_bytes() {
    assert_eq!(decode_request(b"hello"), "hello");
    assert_eq!(decode_request(b""), "");
    assert_eq!(decode_request(&[0xf0, 0x28, 0x8c, 0x28]), "\u{fffd}(\u{fffd}(");
    let zeros = [0u8; 16];
    assert_eq!(decode_request(&zeros), "\0".repeat(16));
}

#[test]
fn two_connections_each_internally_consistent() {
    let request = b"GET / HTTP/1.1\r\n\r\n";
    let first = handle_connection(ReadOutcome::Received(request.to_vec()));
    let second = handle_connection(ReadOutcome::Received(request.to_vec()));
    for out in [&first, &second] {
        let (status, _, body, content_length) = parse_wire(&out.wire);
        assert_eq!(status, "HTTP/1.1 200 OK");
        assert_eq!(content_length, body.as_bytes().len());
        assert!(body.contains(&format!("{} kB", out.stats.total_kb)));
        assert!(body.contains(&format!("{} kB", out.stats.used_kb)));
    }
    assert_eq!(first.request_text, second.request_text);
}

#[test]
fn write_phase_serializes_its_response() {
    let (response, wire) = write_phase(StatsSnapshot { total_kb: 5, used_kb: 3 });
    assert!(wire.starts_with("HTTP/1.1 200 OK\r\n"));
    assert!(wire.ends_with(response.body.as_str()));
    assert!(response.body.contains("<strong>Total Memory:</strong> 5 kB"));
    assert!(response.body.contains("<strong>Used Memory:</strong> 3 kB"));
}

#[test]
fn sampled_stats_give_consistent_response() {
    let s = sample_stats();
    let r = build_response(&s);
    assert_eq!(r.headers[1].1, r.body.as_bytes().len().to_string());
}

#[test]
fn snapshot_conversion_rounds_down() {
    let s = snapshot_of_bytes(4096, 2048);
    assert_eq!(s, StatsSnapshot { total_kb: 4, used_kb: 2 });
    let t = snapshot_of_bytes(1023, 1025);
    assert_eq!(t, StatsSnapshot { total_kb: 0, used_kb: 1 });
}

#[test]
fn bind_failure_is_fatal_and_stops_startup() {
    assert!(matches!(plan_startup(false), StartupStep::Exit(FailureKind::Bind)));
    assert!(matches!(plan_startup(true), StartupStep::EnterAcceptLoop));
    assert!(is_fatal(FailureKind::Bind));
    assert!(!is_fatal(FailureKind::Accept));
    assert!(!is_fatal(FailureKind::Read));
    assert!(!is_fatal(FailureKind::Write));
}

#[test]
fn accept_loop_never_stops() {
    assert_eq!(plan_accept(true), AcceptStep::SpawnHandler);
    assert_eq!(plan_accept(false), AcceptStep::ReportAndContinue);
}

#[test]
fn listener_address_is_fixed() {
    assert_eq!(bind_address(), "0.0.0.0:8080");
    assert_eq!(SERVER_PORT, 8080);
}

#[test]
fn failure_notes_are_the_log_prefixes() {
    assert_eq!(failure_note(FailureKind::Bind), "Unable to bind listener");
    assert_eq!(failure_note(FailureKind::Accept), "Unable to connect");
    assert_eq!(failure_note(FailureKind::Read), "Unable to read stream");
    assert_eq!(failure_note(FailureKind::Write), "Failed sending response");
}
