use b0xx_viewer::controllers::ControllerState;
use b0xx_viewer::error::IoErrorKind;
use b0xx_viewer::error::SerialPortError;
use b0xx_viewer::error::SerialPortErrorKind;
use b0xx_viewer::error::ViewerError;
use b0xx_viewer::probe::frame_reader::find_end;
use b0xx_viewer::probe::frame_reader::frame_verdict;
use b0xx_viewer::probe::frame_reader::read_failure_message;
use b0xx_viewer::probe::frame_reader::window_symbols;
use b0xx_viewer::probe::frame_reader::FrameReader;
use b0xx_viewer::probe::frame_reader::FrameVerdict;
use b0xx_viewer::probe::frame_reader::ReaderAction;
use b0xx_viewer::probe::frame_reader::ReaderEvent;
use b0xx_viewer::probe::frame_reader::ReaderPhase;
use b0xx_viewer::probe::frame_reader::FRAME_LEN;
use b0xx_viewer::probe::frame_reader::TRAILER_LEN;
use b0xx_viewer::probe::ControllerMessage;

const ALL_KINDS: [IoErrorKind; 20] = [
    IoErrorKind::NotFound,
    IoErrorKind::PermissionDenied,
    IoErrorKind::ConnectionRefused,
    IoErrorKind::ConnectionReset,
    IoErrorKind::ConnectionAborted,
    IoErrorKind::NotConnected,
    IoErrorKind::AddrInUse,
    IoErrorKind::AddrNotAvailable,
    IoErrorKind::BrokenPipe,
    IoErrorKind::AlreadyExists,
    IoErrorKind::WouldBlock,
    IoErrorKind::InvalidInput,
    IoErrorKind::InvalidData,
    IoErrorKind::TimedOut,
    IoErrorKind::WriteZero,
    IoErrorKind::Interrupted,
    IoErrorKind::Unsupported,
    IoErrorKind::UnexpectedEof,
    IoErrorKind::OutOfMemory,
    IoErrorKind::Other,
];

fn alternating_frame() -> Vec<u8> {
    let mut bytes = Vec::new();
    for position in 0..20 {
        bytes.push(if position % 2 == 0 { b'1' } else { b'0' });
    }
    bytes.extend_from_slice(b"abcd");
    bytes.push(b'\n');
    bytes
}

fn alternating_state() -> ControllerState {
    let mut flags = [false; 20];
    for position in (0..20).step_by(2) {
        flags[position] = true;
    }
    ControllerState::from_array(flags)
}

fn port_error() -> SerialPortError {
    SerialPortError { kind: SerialPortErrorKind::NoDevice, description: String::from("gone") }
}

fn reader_in(phase: ReaderPhase) -> FrameReader {
    let mut reader = FrameReader::new();
    let script: Vec<ReaderEvent> = match phase {
        ReaderPhase::Opening => vec![],
        ReaderPhase::Resyncing => vec![ReaderEvent::Completed],
        ReaderPhase::Clearing => vec![ReaderEvent::Completed, ReaderEvent::Byte(b'\n')],
        ReaderPhase::Raising => {
            vec![ReaderEvent::Completed, ReaderEvent::Byte(b'\n'), ReaderEvent::Completed]
        }
        ReaderPhase::Reading => vec![
            ReaderEvent::Completed,
            ReaderEvent::Byte(b'\n'),
            ReaderEvent::Completed,
            ReaderEvent::Completed,
        ],
        ReaderPhase::Lowering(FrameVerdict::Torn) => vec![
            ReaderEvent::Completed,
            ReaderEvent::Byte(b'\n'),
            ReaderEvent::Completed,
            ReaderEvent::Completed,
            ReaderEvent::Frame(vec![b'1'; 10]),
        ],
        ReaderPhase::Lowering(_) => vec![
            ReaderEvent::Completed,
            ReaderEvent::Byte(b'\n'),
            ReaderEvent::Completed,
            ReaderEvent::Completed,
            ReaderEvent::Frame(alternating_frame()),
        ],
        ReaderPhase::Stopped => vec![ReaderEvent::PortFailed(port_error())],
    };
    for event in script {
        reader.step(event);
    }
    reader
}

#[test]
fn frame_constants() {
    assert_eq!(FRAME_LEN, 25);
    assert_eq!(TRAILER_LEN, 4);
}

#[test]
fn clean_frame_yields_its_pattern() {
    let mut bytes = vec![b'0'; 20];
    bytes[0] = b'1';
    bytes[7] = b'1';
    bytes[19] = b'1';
    bytes.extend_from_slice(&[0, 0, 0, 0, b'\n']);
    let mut flags = [false; 20];
    flags[0] = true;
    flags[7] = true;
    flags[19] = true;
    assert_eq!(frame_verdict(&bytes), FrameVerdict::Decoded(ControllerState::from_array(flags)));
}

#[test]
fn alternating_frame_decodes_to_even_fields() {
    let state = alternating_state();
    assert_eq!(frame_verdict(&alternating_frame()), FrameVerdict::Decoded(state));
    assert!(state.start && state.x && state.a && state.r && state.up);
    assert!(state.right && state.mod_x && state.c_left && state.c_up && state.mod_ls);
    assert!(!state.y && !state.b && !state.l && !state.z && !state.down);
    assert!(!state.left && !state.mod_y && !state.c_right && !state.c_down && !state.mod_ms);
}

#[test]
fn trailer_bytes_are_not_data() {
    let mut bytes = alternating_frame();
    bytes[20] = b'1';
    bytes[21] = b'1';
    bytes[22] = 0xFF;
    bytes[23] = b'0';
    assert_eq!(frame_verdict(&bytes), FrameVerdict::Decoded(alternating_state()));
}

#[test]
fn unknown_bytes_in_the_window_read_as_released() {
    let mut bytes = alternating_frame();
    bytes[0] = b'x';
    bytes[2] = 0;
    let mut expected = alternating_state();
    expected.start = false;
    expected.x = false;
    assert_eq!(frame_verdict(&bytes), FrameVerdict::Decoded(expected));
}

#[test]
fn reads_of_other_lengths_are_torn() {
    for len in 0..60 {
        if len == 25 {
            continue;
        }
        let mut bytes = vec![b'1'; len];
        if len > 0 {
            bytes[len - 1] = b'\n';
        }
        assert_eq!(frame_verdict(&bytes), FrameVerdict::Torn, "length {}", len);
    }
    assert_eq!(frame_verdict(&vec![b'1'; 10]), FrameVerdict::Torn);
}

#[test]
fn full_read_without_a_report_is_dropped() {
    assert_eq!(frame_verdict(&vec![b'1'; 25]), FrameVerdict::Dropped);
    for end in 0..24 {
        let mut bytes = vec![b'1'; 25];
        bytes[end] = b'\n';
        assert_eq!(frame_verdict(&bytes), FrameVerdict::Dropped, "end byte at {}", end);
        bytes[24] = b'\n';
        assert_eq!(frame_verdict(&bytes), FrameVerdict::Dropped, "end byte at {}", end);
    }
}

#[test]
fn end_byte_is_found_first() {
    assert_eq!(find_end(&vec![]), None);
    assert_eq!(find_end(&vec![1, 2, 3]), None);
    assert_eq!(find_end(&vec![b'\n']), Some(0));
    assert_eq!(find_end(&vec![1, b'\n', 3, b'\n']), Some(1));
}

#[test]
fn window_is_taken_before_the_trailer() {
    use_window(&alternating_frame(), 20);
    use_window(&vec![b'1'; 25], 0);
    let mut early = vec![b'1'; 25];
    early[10] = b'\n';
    use_window(&early, 6);
    early[3] = b'\n';
    use_window(&early, 0);
    let mut long = vec![b'0'; 40];
    long[39] = b'\n';
    use_window(&long, 20);
}

fn use_window(bytes: &Vec<u8>, expected_len: usize) {
    assert_eq!(window_symbols(bytes).len(), expected_len);
}

#[test]
fn reader_walks_through_a_healthy_cycle() {
    let mut reader = FrameReader::new();
    assert_eq!(reader.current_phase(), ReaderPhase::Opening);
    assert_eq!(reader.action(), ReaderAction::Open);
    assert_eq!(reader.step(ReaderEvent::Completed), None);
    assert_eq!(reader.action(), ReaderAction::ReadByte);
    assert_eq!(reader.step(ReaderEvent::Byte(b'1')), None);
    assert_eq!(reader.action(), ReaderAction::ReadByte);
    assert_eq!(reader.step(ReaderEvent::Byte(b'\n')), None);
    assert_eq!(reader.action(), ReaderAction::ClearBuffers);
    assert_eq!(reader.step(ReaderEvent::Completed), None);
    for _ in 0..3 {
        assert_eq!(reader.action(), ReaderAction::SetRequestToSend(true));
        assert_eq!(reader.step(ReaderEvent::Completed), None);
        assert_eq!(reader.action(), ReaderAction::ReadFrame);
        assert_eq!(reader.step(ReaderEvent::Frame(alternating_frame())), None);
        assert_eq!(
            reader.current_phase(),
            ReaderPhase::Lowering(FrameVerdict::Decoded(alternating_state()))
        );
        assert_eq!(reader.action(), ReaderAction::SetRequestToSend(false));
        assert_eq!(
            reader.step(ReaderEvent::Completed),
            Some(ControllerMessage::State(alternating_state()))
        );
    }
    assert_eq!(reader.current_phase(), ReaderPhase::Raising);
}

#[test]
fn torn_read_emits_no_state_and_resyncs() {
    let mut reader = reader_in(ReaderPhase::Reading);
    assert_eq!(reader.step(ReaderEvent::Frame(vec![b'1'; 10])), None);
    assert_eq!(reader.current_phase(), ReaderPhase::Lowering(FrameVerdict::Torn));
    assert_eq!(reader.action(), ReaderAction::SetRequestToSend(false));
    assert_eq!(reader.step(ReaderEvent::Completed), None);
    assert_eq!(reader.current_phase(), ReaderPhase::Resyncing);
    assert_eq!(reader.action(), ReaderAction::ReadByte);
    for byte in [b'1', b'0', 0, b'x'] {
        assert_eq!(reader.step(ReaderEvent::Byte(byte)), None);
        assert_eq!(reader.action(), ReaderAction::ReadByte);
    }
    assert_eq!(reader.step(ReaderEvent::Byte(b'\n')), None);
    assert_eq!(reader.action(), ReaderAction::ClearBuffers);
    assert_eq!(reader.step(ReaderEvent::Completed), None);
    assert_eq!(reader.action(), ReaderAction::SetRequestToSend(true));
}

#[test]
fn dropped_frame_emits_nothing_and_reads_on() {
    let mut reader = reader_in(ReaderPhase::Reading);
    assert_eq!(reader.step(ReaderEvent::Frame(vec![b'1'; 25])), None);
    assert_eq!(reader.current_phase(), ReaderPhase::Lowering(FrameVerdict::Dropped));
    assert_eq!(reader.step(ReaderEvent::Completed), None);
    assert_eq!(reader.current_phase(), ReaderPhase::Raising);
}

#[test]
fn transient_read_failures_ask_for_reconnection() {
    for kind in ALL_KINDS {
        let transient = kind == IoErrorKind::TimedOut || kind == IoErrorKind::BrokenPipe;
        assert_eq!(kind.is_transient(), transient);
        let expected =
            if transient { ControllerMessage::Reconnect } else { ControllerMessage::Quit };
        assert_eq!(read_failure_message(kind), expected);
        for phase in [ReaderPhase::Resyncing, ReaderPhase::Reading] {
            let mut reader = reader_in(phase);
            assert_eq!(reader.step(ReaderEvent::ReadFailed(kind)), Some(expected.clone()));
            assert_eq!(reader.current_phase(), ReaderPhase::Stopped);
            assert_eq!(reader.action(), ReaderAction::Stop);
        }
    }
}

#[test]
fn port_failures_are_reported() {
    let report = Some(ControllerMessage::Error(ViewerError::SerialPortError(port_error())));
    for phase in [
        ReaderPhase::Opening,
        ReaderPhase::Raising,
        ReaderPhase::Lowering(FrameVerdict::Torn),
        ReaderPhase::Lowering(FrameVerdict::Dropped),
    ] {
        let mut reader = reader_in(phase);
        assert_eq!(reader.step(ReaderEvent::PortFailed(port_error())), report);
        assert_eq!(reader.current_phase(), ReaderPhase::Stopped);
    }
    let mut reader = reader_in(ReaderPhase::Clearing);
    assert_eq!(reader.step(ReaderEvent::PortFailed(port_error())), report);
    assert_eq!(reader.current_phase(), ReaderPhase::Raising);
}

#[test]
fn events_out_of_turn_end_the_worker() {
    let unknown = Some(ControllerMessage::Error(ViewerError::UnknownError));
    let cases = [
        (ReaderPhase::Opening, ReaderEvent::Byte(1)),
        (ReaderPhase::Opening, ReaderEvent::ReadFailed(IoErrorKind::TimedOut)),
        (ReaderPhase::Resyncing, ReaderEvent::Completed),
        (ReaderPhase::Resyncing, ReaderEvent::Frame(alternating_frame())),
        (ReaderPhase::Clearing, ReaderEvent::Byte(b'\n')),
        (ReaderPhase::Raising, ReaderEvent::Frame(alternating_frame())),
        (ReaderPhase::Reading, ReaderEvent::Completed),
        (ReaderPhase::Reading, ReaderEvent::Byte(b'\n')),
        (ReaderPhase::Reading, ReaderEvent::PortFailed(port_error())),
        (ReaderPhase::Lowering(FrameVerdict::Torn), ReaderEvent::Byte(1)),
    ];
    for (phase, event) in cases {
        let mut reader = reader_in(phase);
        assert_eq!(reader.current_phase(), phase);
        assert_eq!(reader.step(event), unknown);
        assert_eq!(reader.current_phase(), ReaderPhase::Stopped);
    }
}

#[test]
fn stopped_reader_stays_stopped() {
    let mut reader = reader_in(ReaderPhase::Stopped);
    for event in [
        ReaderEvent::Completed,
        ReaderEvent::Byte(b'\n'),
        ReaderEvent::Frame(alternating_frame()),
        ReaderEvent::ReadFailed(IoErrorKind::TimedOut),
        ReaderEvent::PortFailed(port_error()),
    ] {
        assert_eq!(reader.step(event), None);
        assert_eq!(reader.current_phase(), ReaderPhase::Stopped);
        assert_eq!(reader.action(), ReaderAction::Stop);
    }
}

#[test]
fn settle_stops_only_without_a_listener() {
    let mut reader = reader_in(ReaderPhase::Reading);
    reader.settle(true);
    assert_eq!(reader.current_phase(), ReaderPhase::Reading);
    reader.settle(false);
    assert_eq!(reader.current_phase(), ReaderPhase::Stopped);
}

#[test]
fn pending_action_of_each_phase() {
    assert_eq!(ReaderPhase::Opening.pending(), ReaderAction::Open);
    assert_eq!(ReaderPhase::Resyncing.pending(), ReaderAction::ReadByte);
    assert_eq!(ReaderPhase::Clearing.pending(), ReaderAction::ClearBuffers);
    assert_eq!(ReaderPhase::Raising.pending(), ReaderAction::SetRequestToSend(true));
    assert_eq!(ReaderPhase::Reading.pending(), ReaderAction::ReadFrame);
    assert_eq!(
        ReaderPhase::Lowering(FrameVerdict::Dropped).pending(),
        ReaderAction::SetRequestToSend(false)
    );
    assert_eq!(ReaderPhase::Stopped.pending(), ReaderAction::Stop);
}
