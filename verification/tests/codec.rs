use kaphd::codec::{decode, encode_message, parse_message, DecodeError};
use kaphd::message::Message;

fn round_trip(m: Message) {
    let text = encode_message(&m);
    let decoded = decode(text.as_bytes()).expect("canonical text must decode");
    assert_eq!(decoded.message, m);
    assert_eq!(decoded.payload, text);
}

#[test]
fn encodes_health_check_canonically() {
    assert_eq!(encode_message(&Message::HealthCheck), "\"HealthCheck\"");
}

#[test]
fn encodes_bpf_canonically() {
    let m = Message::Bpf { fn_name: String::from("count_syscalls") };
    assert_eq!(encode_message(&m), "{\"Bpf\":{\"fn_name\":\"count_syscalls\"}}");
}

#[test]
fn encodes_workload_canonically() {
    let m = Message::Workload {
        name: String::from("training"),
        dataset: String::from("set-a"),
    };
    assert_eq!(
        encode_message(&m),
        "{\"Workload\":{\"name\":\"training\",\"dataset\":\"set-a\"}}"
    );
}

#[test]
fn escapes_quotes_and_backslashes() {
    let m = Message::Bpf { fn_name: String::from("a\"b\\c") };
    assert_eq!(encode_message(&m), "{\"Bpf\":{\"fn_name\":\"a\\\"b\\\\c\"}}");
    round_trip(m);
}

#[test]
fn round_trips_all_three_kinds() {
    round_trip(Message::HealthCheck);
    round_trip(Message::Bpf { fn_name: String::from("probe") });
    round_trip(Message::Workload {
        name: String::from("w"),
        dataset: String::from("d"),
    });
}

#[test]
fn round_trips_empty_fields() {
    round_trip(Message::Bpf { fn_name: String::new() });
    round_trip(Message::Workload { name: String::new(), dataset: String::new() });
}

#[test]
fn round_trips_non_ascii_fields() {
    let m = Message::Workload {
        name: String::from("wörkload"),
        dataset: String::from("داده"),
    };
    let text = encode_message(&m);
    let decoded = decode(text.as_bytes()).expect("non-ascii fields still decode");
    assert_eq!(decoded.message, m);
}

#[test]
fn rejects_empty_input() {
    assert_eq!(decode(b""), Err(DecodeError::EmptyMessage));
}

#[test]
fn rejects_unrecognized_shapes() {
    for payload in [
        "HealthCheck",
        "\"HealthCheck",
        "\"HealthCheck\" ",
        "{\"Bpf\":{\"fn_name\":\"x\"}",
        "{\"Bpf\":{\"fn_name\":\"x}}",
        "{\"Workload\":{\"name\":\"a\"}}",
        "{\"Workload\":{\"name\":\"a\",\"dataset\":\"b\"}}}",
        "{}",
        "null",
        "bpf",
    ] {
        assert_eq!(
            decode(payload.as_bytes()),
            Err(DecodeError::MalformedTask(String::from("unrecognized task shape"))),
            "payload {payload:?} must be malformed",
        );
    }
}

#[test]
fn reads_invalid_utf8_best_effort() {
    // An invalid byte inside an otherwise well-shaped payload is replaced,
    // not rejected outright: the task decodes with the replacement in it.
    let bytes = b"{\"Bpf\":{\"fn_name\":\"\xff\"}}";
    let decoded = decode(bytes).expect("lossy reading keeps the shape");
    assert_eq!(
        decoded.message,
        Message::Bpf { fn_name: String::from("\u{fffd}") }
    );
    // Invalid bytes alone are read as replacements and then fail the parse.
    assert_eq!(
        decode(b"\xff\xfe"),
        Err(DecodeError::MalformedTask(String::from("unrecognized task shape")))
    );
}

#[test]
fn parses_text_directly() {
    assert_eq!(parse_message("\"HealthCheck\""), Some(Message::HealthCheck));
    assert_eq!(
        parse_message("{\"Bpf\":{\"fn_name\":\"f\"}}"),
        Some(Message::Bpf { fn_name: String::from("f") })
    );
    assert_eq!(parse_message(""), None);
    assert_eq!(parse_message("\"Healthcheck\""), None);
}
