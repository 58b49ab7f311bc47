use frame_engine::decode_frame_payload;
use frame_engine::encode_frame;
use frame_engine::DiagStage;
use frame_engine::DiagnosticsPipeline;
use frame_engine::ReadEvent;
use frame_engine::ReaderLoop;
use frame_engine::ReaderState;
use frame_engine::Recommendation;

#[test]
fn reader_lifecycle_and_frames() {
    let mut reader = ReaderLoop::new();
    assert_eq!(reader.state(), ReaderState::Starting);
    reader.begin();
    assert_eq!(reader.state(), ReaderState::Reading);

    let frames = reader.step(ReadEvent::Data(vec![0x00, 0xff, 0xd8, 0x42]));
    assert!(frames.is_empty());
    assert_eq!(reader.state(), ReaderState::Reading);

    let frames = reader.step(ReadEvent::Data(vec![0xff, 0xd9, 0x07]));
    assert_eq!(frames, vec![vec![0xff, 0xd8, 0x42, 0xff, 0xd9]]);
    assert_eq!(reader.state(), ReaderState::Reading);

    let frames = reader.step(ReadEvent::EndOfOutput);
    assert!(frames.is_empty());
    assert_eq!(reader.state(), ReaderState::Stopped);
}

#[test]
fn reader_fills_buffer_in_stream_order() {
    let mut reader = ReaderLoop::new();
    reader.begin();
    let mut buffer = frame_engine::FrameBuffer::new();
    let mut stream: Vec<u8> = Vec::new();
    for n in 1..=7u8 {
        stream.extend_from_slice(&[0xff, 0xd8, n, 0xff, 0xd9]);
    }
    for chunk in stream.chunks(3) {
        reader.step_into(ReadEvent::Data(chunk.to_vec()), &mut buffer);
    }
    // Seven frames through a capacity-five buffer: frames 3 through 7
    // remain, newest last.
    assert_eq!(buffer.len(), 5);
    assert_eq!(buffer.latest(), Some(&vec![0xff, 0xd8, 7, 0xff, 0xd9]));
    assert_eq!(buffer.get(0), Some(&vec![0xff, 0xd8, 3, 0xff, 0xd9]));
}

#[test]
fn reader_stops_on_error_and_shutdown() {
    let mut reader = ReaderLoop::new();
    reader.begin();
    reader.step(ReadEvent::ReadError);
    assert_eq!(reader.state(), ReaderState::Stopped);

    let mut reader = ReaderLoop::new();
    reader.begin();
    reader.step(ReadEvent::ShutdownRequested);
    assert_eq!(reader.state(), ReaderState::Stopped);
}

#[test]
fn diagnostics_all_stages_pass() {
    let mut p = DiagnosticsPipeline::new();
    assert_eq!(p.next_stage(), DiagStage::ParseAddress);
    p.record_address(true);
    assert_eq!(p.next_stage(), DiagStage::CheckTool);
    p.record_tool(true, Some("6.1".to_string()));
    assert_eq!(p.next_stage(), DiagStage::ProbeTransport);
    p.record_probe(true);
    assert_eq!(p.next_stage(), DiagStage::TrialDecode);
    p.record_trial(true);
    assert_eq!(p.next_stage(), DiagStage::Done);

    let report = p.report();
    assert_eq!(report.address_ok, Some(true));
    assert_eq!(report.tool_present, Some(true));
    assert_eq!(report.tool_version, Some("6.1".to_string()));
    assert_eq!(report.transport_reachable, Some(true));
    assert_eq!(report.trial_decode_ok, Some(true));
    assert!(report.recommendations.is_empty());
}

#[test]
fn diagnostics_bad_address_aborts() {
    let mut p = DiagnosticsPipeline::new();
    p.record_address(false);
    assert_eq!(p.next_stage(), DiagStage::Done);
    let report = p.report();
    assert_eq!(report.tool_present, None);
    assert_eq!(report.transport_reachable, None);
    assert_eq!(report.trial_decode_ok, None);
    assert_eq!(report.recommendations, vec![Recommendation::FixSourceAddress]);
}

#[test]
fn diagnostics_missing_tool_aborts() {
    let mut p = DiagnosticsPipeline::new();
    p.record_address(true);
    p.record_tool(false, None);
    assert_eq!(p.next_stage(), DiagStage::Done);
    let report = p.report();
    assert_eq!(report.recommendations, vec![Recommendation::InstallDecoder]);
}

#[test]
fn diagnostics_failed_probe_still_tries_decode() {
    let mut p = DiagnosticsPipeline::new();
    p.record_address(true);
    p.record_tool(true, None);
    p.record_probe(false);
    // The trial decode still runs after a failed reachability probe.
    assert_eq!(p.next_stage(), DiagStage::TrialDecode);
    p.record_trial(false);
    let report = p.report();
    assert_eq!(
        report.recommendations,
        vec![Recommendation::CheckNetworkPath, Recommendation::CheckStreamSetup]
    );
}

#[test]
fn recommendation_messages() {
    assert_eq!(
        Recommendation::FixSourceAddress.message(),
        "check the source address"
    );
    assert_eq!(
        Recommendation::InstallDecoder.message(),
        "install the decoder tool"
    );
    assert_eq!(
        Recommendation::CheckNetworkPath.message(),
        "check the network path to the source"
    );
    assert_eq!(
        Recommendation::CheckStreamSetup.message(),
        "check credentials, path and stream setup"
    );
}

#[test]
fn frame_payload_round_trip() {
    let frame: Vec<u8> = vec![0xff, 0xd8, 0x00, 0x10, 0x7f, 0xff, 0xd9];
    let text = encode_frame(&frame);
    assert_ne!(text.as_bytes(), frame.as_slice());
    assert_eq!(decode_frame_payload(&text), Some(frame));
}

#[test]
fn frame_payload_known_values() {
    assert_eq!(encode_frame(&b"hello".to_vec()), "aGVsbG8=");
    assert_eq!(decode_frame_payload("aGVsbG8="), Some(b"hello".to_vec()));
    assert_eq!(encode_frame(&Vec::new()), "");
}

#[test]
fn frame_payload_rejects_invalid_text() {
    assert_eq!(decode_frame_payload("not base64!!"), None);
}
