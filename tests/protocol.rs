use anc_ctl::anc::{AncMode, ProtocolError};
use anc_ctl::codec::{decode_anc_status, decode_firmware_length, decode_firmware_string, decode_serial};
use anc_ctl::frames::{encode_query_anc, encode_query_firmware, encode_query_serial, encode_set_anc};
use anc_ctl::session::{Action, Event, Exchange, Operation, Report};

fn all_modes() -> [(AncMode, u8); 6] {
    [
        (AncMode::High, 1),
        (AncMode::Mid, 2),
        (AncMode::Low, 3),
        (AncMode::Adaptive, 4),
        (AncMode::Off, 5),
        (AncMode::Transparency, 7),
    ]
}

/// A channel that answers each known request frame with a fixed response.
struct MockChannel {
    answers: Vec<(Vec<u8>, Vec<u8>)>,
    inbound: Vec<u8>,
    written: Vec<Vec<u8>>,
    reads: Vec<usize>,
}

impl MockChannel {
    fn new(answers: Vec<(Vec<u8>, Vec<u8>)>) -> Self {
        MockChannel { answers, inbound: Vec::new(), written: Vec::new(), reads: Vec::new() }
    }

    fn write_all(&mut self, frame: &[u8]) {
        self.written.push(frame.to_vec());
        for (request, response) in &self.answers {
            if request.as_slice() == frame {
                self.inbound.extend_from_slice(response);
            }
        }
    }

    fn read_exact(&mut self, n: usize) -> Option<Vec<u8>> {
        self.reads.push(n);
        if self.inbound.len() < n {
            self.inbound.clear();
            return None;
        }
        Some(self.inbound.drain(0..n).collect())
    }
}

fn run(op: Operation, channel: &mut MockChannel) -> Result<Report, ProtocolError> {
    let (mut exchange, mut action) = Exchange::start(op);
    loop {
        let event = match action {
            Action::Finish(result) => return result,
            Action::Write { frame, then_read } => {
                channel.write_all(&frame);
                if then_read == 0 {
                    Event::Received(Vec::new())
                } else {
                    match channel.read_exact(then_read) {
                        Some(bytes) => Event::Received(bytes),
                        None => Event::Failed,
                    }
                }
            }
            Action::Read { len } => match channel.read_exact(len) {
                Some(bytes) => Event::Received(bytes),
                None => Event::Failed,
            },
        };
        action = exchange.step(event);
    }
}

fn status_response(code: u8) -> Vec<u8> {
    let mut buf = vec![0xaa_u8; 16];
    buf[9] = code;
    buf
}

fn firmware_responses(version: &[u8]) -> Vec<u8> {
    let mut buf = vec![0x55, 0x60, 0x01, 0x42, 0x00, version.len() as u8, 0x00, 0x00];
    buf.extend_from_slice(version);
    buf.extend_from_slice(&[0x12, 0x34]);
    buf
}

fn serial_response(serial: &[u8; 16]) -> Vec<u8> {
    let mut buf: Vec<u8> = (0..31).map(|i| 0x80 + i as u8).collect();
    buf.extend_from_slice(serial);
    buf
}

#[test]
fn status_decodes_each_mode() {
    for (mode, code) in all_modes() {
        assert_eq!(decode_anc_status(&status_response(code)), Ok(mode));
    }
}

#[test]
fn status_rejects_unknown_codes() {
    for code in [0_u8, 6, 8, 0x42, 255] {
        assert_eq!(decode_anc_status(&status_response(code)), Err(ProtocolError::InvalidResponse));
    }
}

#[test]
fn mode_from_code() {
    assert_eq!(AncMode::try_from(1), Ok(AncMode::High));
    assert_eq!(AncMode::try_from(7), Ok(AncMode::Transparency));
    assert_eq!(AncMode::try_from(6), Err(ProtocolError::InvalidResponse));
}

#[test]
fn set_frames_are_exact() {
    let expected: [(AncMode, [u8; 13]); 6] = [
        (AncMode::High, [0x55, 0x60, 0x01, 0x0f, 0xf0, 0x03, 0x00, 0xed, 0x01, 0x01, 0x00, 0xcd, 0x47]),
        (AncMode::Mid, [0x55, 0x60, 0x01, 0x0f, 0xf0, 0x03, 0x00, 0x56, 0x01, 0x02, 0x00, 0xe9, 0x53]),
        (AncMode::Low, [0x55, 0x60, 0x01, 0x0f, 0xf0, 0x03, 0x00, 0x67, 0x01, 0x03, 0x00, 0xe6, 0x3f]),
        (AncMode::Adaptive, [0x55, 0x60, 0x01, 0x0f, 0xf0, 0x03, 0x00, 0x76, 0x01, 0x04, 0x00, 0xe1, 0x33]),
        (AncMode::Off, [0x55, 0x60, 0x01, 0x0f, 0xf0, 0x03, 0x00, 0x04, 0x01, 0x05, 0x00, 0xfb, 0xdb]),
        (AncMode::Transparency, [0x55, 0x60, 0x01, 0x0f, 0xf0, 0x03, 0x00, 0x61, 0x01, 0x07, 0x00, 0xe4, 0x77]),
    ];
    for (mode, frame) in expected {
        assert_eq!(encode_set_anc(mode), frame);
        assert_eq!(encode_set_anc(mode), encode_set_anc(mode));
    }
}

#[test]
fn query_frames_are_exact() {
    assert_eq!(encode_query_anc(), [0x55, 0x60, 0x01, 0x1e, 0xc0, 0x01, 0x00, 0x0c, 0x03, 0x98, 0x19]);
    assert_eq!(encode_query_firmware(), [0x55, 0x60, 0x01, 0x42, 0xc0, 0x00, 0x00, 0x03, 0xe0, 0xd1]);
    assert_eq!(encode_query_serial(), [0x55, 0x60, 0x01, 0x06, 0xc0, 0x00, 0x00, 0x05, 0x90, 0xdc]);
}

#[test]
fn set_frame_code_decodes_back() {
    for (mode, _) in all_modes() {
        let code = encode_set_anc(mode)[9];
        assert_eq!(decode_anc_status(&status_response(code)), Ok(mode));
    }
}

#[test]
fn firmware_length_from_header() {
    assert_eq!(decode_firmware_length(&[1, 2, 3, 4, 9, 0x05, 7, 8]), 5);
    assert_eq!(decode_firmware_length(&[0, 0, 0, 0, 0, 0, 0, 0]), 0);
    assert_eq!(decode_firmware_length(&[0, 0, 0, 0, 0, 0xff, 0, 0]), 255);
}

#[test]
fn firmware_header_asks_for_length_plus_two() {
    let (mut exchange, _) = Exchange::start(Operation::QueryDeviceInfo);
    let action = exchange.step(Event::Received(vec![0, 0, 0, 0, 0, 0x05, 0, 0]));
    assert!(matches!(action, Action::Read { len: 7 }));
}

#[test]
fn firmware_string_drops_trailer() {
    assert_eq!(decode_firmware_string(b"1.2.3\x00\xff"), "1.2.3");
    assert_eq!(decode_firmware_string(&[0xab, 0xcd]), "");
}

#[test]
fn firmware_string_is_lossy() {
    assert_eq!(decode_firmware_string(b"v\xff2\x00\x00"), "v\u{FFFD}2");
}

#[test]
fn serial_reads_last_sixteen_bytes() {
    let buf = serial_response(b"ABCD1234EFGH5678");
    assert_eq!(decode_serial(&buf), "ABCD1234EFGH5678");
    let mut other = buf.clone();
    for b in other.iter_mut().take(31) {
        *b = 0x20;
    }
    assert_eq!(decode_serial(&other), "ABCD1234EFGH5678");
}

#[test]
fn serial_is_lossy() {
    let buf = serial_response(b"SN\xfe3456789012345");
    assert_eq!(decode_serial(&buf), "SN\u{FFFD}3456789012345");
}

#[test]
fn query_anc_over_mock_channel() {
    let query = vec![0x55, 0x60, 0x01, 0x1e, 0xc0, 0x01, 0x00, 0x0c, 0x03, 0x98, 0x19];
    let mut channel = MockChannel::new(vec![(query.clone(), status_response(5))]);
    let result = run(Operation::QueryAnc, &mut channel);
    assert!(matches!(result, Ok(Report::Anc(AncMode::Off))));
    assert_eq!(channel.written, vec![query]);
    assert_eq!(channel.reads, vec![16]);
}

#[test]
fn query_anc_invalid_code_over_mock_channel() {
    let query = encode_query_anc().to_vec();
    let mut channel = MockChannel::new(vec![(query, status_response(6))]);
    let result = run(Operation::QueryAnc, &mut channel);
    assert!(matches!(result, Err(ProtocolError::InvalidResponse)));
}

#[test]
fn set_anc_writes_frame_and_reads_nothing() {
    let mut channel = MockChannel::new(Vec::new());
    let result = run(Operation::SetAnc(AncMode::Transparency), &mut channel);
    assert!(matches!(result, Ok(Report::AncSet)));
    assert_eq!(
        channel.written,
        vec![vec![0x55, 0x60, 0x01, 0x0f, 0xf0, 0x03, 0x00, 0x61, 0x01, 0x07, 0x00, 0xe4, 0x77]]
    );
    assert!(channel.reads.is_empty());
}

#[test]
fn device_info_over_mock_channel() {
    let mut channel = MockChannel::new(vec![
        (encode_query_firmware().to_vec(), firmware_responses(b"2.0.17")),
        (encode_query_serial().to_vec(), serial_response(b"0123456789ABCDEF")),
    ]);
    match run(Operation::QueryDeviceInfo, &mut channel) {
        Ok(Report::Info(info)) => {
            assert_eq!(info.firmware, "2.0.17");
            assert_eq!(info.serial, "0123456789ABCDEF");
        }
        other => panic!("unexpected result {:?}", other),
    }
    assert_eq!(channel.written, vec![encode_query_firmware().to_vec(), encode_query_serial().to_vec()]);
    assert_eq!(channel.reads, vec![8, 8, 47]);
}

#[test]
fn short_reads_are_transport_errors() {
    let mut short_status = status_response(5);
    short_status.truncate(15);
    let mut channel = MockChannel::new(vec![(encode_query_anc().to_vec(), short_status)]);
    assert!(matches!(run(Operation::QueryAnc, &mut channel), Err(ProtocolError::TransportError)));

    let mut short_fw = firmware_responses(b"2.0.17");
    short_fw.pop();
    let mut channel = MockChannel::new(vec![(encode_query_firmware().to_vec(), short_fw)]);
    assert!(matches!(run(Operation::QueryDeviceInfo, &mut channel), Err(ProtocolError::TransportError)));

    let mut short_serial = serial_response(b"0123456789ABCDEF");
    short_serial.truncate(40);
    let mut channel = MockChannel::new(vec![
        (encode_query_firmware().to_vec(), firmware_responses(b"1.0")),
        (encode_query_serial().to_vec(), short_serial),
    ]);
    assert!(matches!(run(Operation::QueryDeviceInfo, &mut channel), Err(ProtocolError::TransportError)));
}

#[test]
fn wrong_sized_events_are_transport_errors() {
    let (mut exchange, _) = Exchange::start(Operation::QueryAnc);
    let action = exchange.step(Event::Received(vec![0; 10]));
    assert!(matches!(action, Action::Finish(Err(ProtocolError::TransportError))));
    assert!(matches!(exchange, Exchange::Finished));

    let (mut exchange, _) = Exchange::start(Operation::SetAnc(AncMode::Low));
    let action = exchange.step(Event::Received(vec![1]));
    assert!(matches!(action, Action::Finish(Err(ProtocolError::TransportError))));
}

#[test]
fn failed_channel_is_transport_error() {
    for op in [Operation::QueryAnc, Operation::SetAnc(AncMode::Mid), Operation::QueryDeviceInfo] {
        let (mut exchange, _) = Exchange::start(op);
        let action = exchange.step(Event::Failed);
        assert!(matches!(action, Action::Finish(Err(ProtocolError::TransportError))));
    }
}

#[test]
fn finished_exchange_takes_no_more_events() {
    let (mut exchange, _) = Exchange::start(Operation::SetAnc(AncMode::High));
    let action = exchange.step(Event::Received(Vec::new()));
    assert!(matches!(action, Action::Finish(Ok(Report::AncSet))));
    let action = exchange.step(Event::Received(Vec::new()));
    assert!(matches!(action, Action::Finish(Err(ProtocolError::TransportError))));
}
