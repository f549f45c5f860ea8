use foxglove_bridge::encoding::{extract_payload, MessageKind, PayloadEncoding, Sample};
use foxglove_bridge::errors::ForwardError;
use foxglove_bridge::forwarder::{ForwardAction, ForwardedMessage, Forwarder, ForwarderState};
use foxglove_bridge::messages::Axis;

fn sample(encoding: PayloadEncoding, value: &[u8]) -> Sample {
    Sample { encoding, value: value.to_vec() }
}

#[test]
fn protobuf_payload_is_forwarded_byte_for_byte() {
    for encoding in [
        PayloadEncoding::Binary,
        PayloadEncoding::TextPlain,
        PayloadEncoding::TextJson,
        PayloadEncoding::Unknown,
    ] {
        let payload = extract_payload(MessageKind::Protobuf, sample(encoding, &[0, 159, 146, 150]))
            .expect("protobuf samples are opaque bytes");
        assert_eq!(payload, vec![0, 159, 146, 150]);
    }
}

#[test]
fn empty_payload_is_forwarded_empty() {
    let payload = extract_payload(MessageKind::Json, sample(PayloadEncoding::TextPlain, b""))
        .expect("an empty text payload is valid UTF-8");
    assert!(payload.is_empty());
}

#[test]
fn json_binary_payload_is_taken_as_is() {
    let payload = extract_payload(MessageKind::Json, sample(PayloadEncoding::Binary, &[0xFF, 0x00]))
        .expect("binary payloads need no text check");
    assert_eq!(payload, vec![0xFF, 0x00]);
}

#[test]
fn json_text_payload_is_byte_preserving() {
    let text = b"{\"occupancy\": true}";
    for encoding in [PayloadEncoding::TextPlain, PayloadEncoding::TextJson] {
        let payload = extract_payload(MessageKind::Json, sample(encoding, text))
            .expect("valid UTF-8 text is accepted");
        assert_eq!(payload, text.to_vec());
    }
}

#[test]
fn json_text_payload_with_invalid_utf8_is_rejected() {
    for encoding in [PayloadEncoding::TextPlain, PayloadEncoding::TextJson] {
        let err = extract_payload(MessageKind::Json, sample(encoding, &[0xFF, 0xFE]))
            .expect_err("invalid UTF-8 must not be forwarded");
        assert_eq!(err, ForwardError::InvalidUtf8);
    }
}

#[test]
fn json_unknown_encoding_is_unsupported() {
    let err = extract_payload(MessageKind::Json, sample(PayloadEncoding::Unknown, b"{}"))
        .expect_err("unknown transport encodings are unsupported");
    assert_eq!(err, ForwardError::UnsupportedEncoding);
}

/// Feeds the samples in order, starting the clock at `t0` and advancing it by
/// one per sample; returns the forwarded messages and the cadence log counts.
fn run(forwarder: &mut Forwarder, samples: Vec<Sample>, t0: u64) -> (Vec<ForwardedMessage>, Vec<u64>) {
    let mut forwarded = Vec::new();
    let mut cadence = Vec::new();
    let mut now = t0;
    for s in samples {
        match forwarder.on_sample(s, now) {
            ForwardAction::Forward { message, log_count } => {
                forwarded.push(message);
                if let Some(c) = log_count {
                    cadence.push(c);
                }
            }
            ForwardAction::DropMessage { .. } => {}
        }
        now += 1;
    }
    (forwarded, cadence)
}

#[test]
fn per_message_isolation_drops_only_the_bad_sample() {
    let mut f = Forwarder::new(MessageKind::Json);
    let samples = vec![
        sample(PayloadEncoding::TextJson, b"{\"n\": 1}"),
        sample(PayloadEncoding::TextJson, &[0xFF]),
        sample(PayloadEncoding::TextJson, b"{\"n\": 3}"),
        sample(PayloadEncoding::Binary, b"{\"n\": 4}"),
    ];
    let (forwarded, _) = run(&mut f, samples, 100);
    assert_eq!(f.state, ForwarderState::Running, "one bad message never stops the loop");
    assert_eq!(f.counter, 4, "dropped samples are counted too");
    assert_eq!(forwarded.len(), 3);
    assert_eq!(forwarded[0].payload, b"{\"n\": 1}".to_vec());
    assert_eq!(forwarded[1].payload, b"{\"n\": 3}".to_vec());
    assert_eq!(forwarded[2].payload, b"{\"n\": 4}".to_vec());
    assert_eq!(forwarded[0].timestamp_nanos, 100);
    assert_eq!(forwarded[1].timestamp_nanos, 102);
    assert_eq!(forwarded[2].timestamp_nanos, 103);
}

#[test]
fn timestamps_are_non_decreasing_under_a_forward_clock() {
    let mut f = Forwarder::new(MessageKind::Json);
    let samples: Vec<Sample> =
        (0..50).map(|_| sample(PayloadEncoding::Binary, b"x")).collect();
    let (forwarded, _) = run(&mut f, samples, 7_000);
    assert_eq!(forwarded.len(), 50);
    for pair in forwarded.windows(2) {
        assert!(pair[0].timestamp_nanos <= pair[1].timestamp_nanos);
    }
}

#[test]
fn cadence_logs_once_every_twenty_messages() {
    let mut f = Forwarder::new(MessageKind::Json);
    let samples: Vec<Sample> =
        (0..45).map(|_| sample(PayloadEncoding::Binary, b"x")).collect();
    let (forwarded, cadence) = run(&mut f, samples, 0);
    assert_eq!(forwarded.len(), 45);
    assert_eq!(cadence, vec![20, 40], "45 samples give exactly two cadence events");
}

#[test]
fn cadence_counts_processed_messages_not_forwarded_ones() {
    let mut f = Forwarder::new(MessageKind::Json);
    // The 20th processed sample is malformed: its cadence slot is skipped, the
    // next cadence event comes at message 40.
    let mut samples: Vec<Sample> = Vec::new();
    for i in 0..40 {
        if i == 19 {
            samples.push(sample(PayloadEncoding::TextJson, &[0xFF]));
        } else {
            samples.push(sample(PayloadEncoding::Binary, b"x"));
        }
    }
    let (forwarded, cadence) = run(&mut f, samples, 0);
    assert_eq!(forwarded.len(), 39);
    assert_eq!(cadence, vec![40]);
}

#[test]
fn subscription_failure_crashes_only_the_loop_state() {
    let mut f = Forwarder::new(MessageKind::Protobuf);
    let (forwarded, _) = run(&mut f, vec![sample(PayloadEncoding::Binary, b"p")], 1);
    assert_eq!(forwarded.len(), 1);
    f.on_subscription_closed();
    assert_eq!(f.state, ForwarderState::Crashed);
    assert_eq!(f.counter, 1);
}

#[test]
fn shutdown_stops_the_loop_state() {
    let mut f = Forwarder::new(MessageKind::Json);
    f.on_shutdown();
    assert_eq!(f.state, ForwarderState::Stopped);
}

#[test]
fn all_axes() {
    let axes = Axis::all_axes();
    assert_eq!(
        axes,
        vec![
            Axis::LeftStickX,
            Axis::LeftStickY,
            Axis::LeftZ,
            Axis::RightStickX,
            Axis::RightStickY,
            Axis::RightZ,
            Axis::DPadX,
            Axis::DPadY,
        ]
    );
}
