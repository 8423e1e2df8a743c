use fvideo::eyelink::{
    fault_error, initialize_eyelink, run_calibration, start_recording, stop_recording,
    CalStage, CalState, Fault, FvideoEyelinkError, InitStage, InitState, StartState, Step,
    StopState, TrackerCall, TrackerReply, TRACKER_ADDRESS,
};
use fvideo::graphics::{
    check_displays, close_expt_graphics, hook_answer, hooks_registered, GraphicsError, INNER_SIZE,
    TARGET_SIZE,
};
use fvideo::tracker::{
    break_pressed, check_c_string, do_drift_correct, eyecmd_printf, eyelink_eye_available,
    eyelink_flush_keybuttons, eyelink_get_tracker_version, eyelink_is_connected,
    eyelink_newest_float_sample, eyelink_wait_for_block_start, eyemsg_printf, open_data_file,
    open_eyelink_connection, open_mode_code, receive_data_file, set_eyelink_address,
    find_nul, first_nul, ConnectionStatus, EyeData, EyelinkError, OpenMode,
};

use fvideo::eyelink::Command::{
    AddFilePreamble, CloseDataFile, FileEventFilter, FileSampleData, LinkEventFilter,
    LinkSampleData, SaccadeAccelerationThreshold, SaccadeVelocityThreshold, SceneCameraGazemap,
    ScreenPixelCoords, SelectParserConfiguration,
};
use fvideo::eyelink::TrackerCall::{
    BeginRealtimeMode, BreakPressed, CloseConnection, DoDriftCorrect, DoTrackerSetup,
    EndRealtimeMode, FlushGetkeyQueue,
    GetTrackerVersion, IsConnected, MsecDelay, OpenConnection, OpenDataFile, ReceiveDataFile,
    SendCommand, SetAddress, SetOfflineMode, StartRecording, StopRecording,
};

/// The answer of a well-behaved tracker to a call.
fn answer(call: TrackerCall, version: i16, software: i16) -> TrackerReply {
    match call {
        SetOfflineMode | FlushGetkeyQueue | CloseConnection | EndRealtimeMode | MsecDelay(_)
        | StopRecording | BeginRealtimeMode(_) => TrackerReply::Nothing,
        GetTrackerVersion => TrackerReply::Version(version, software),
        IsConnected => TrackerReply::Status(1),
        ReceiveDataFile => TrackerReply::Size(4096),
        _ => TrackerReply::Status(0),
    }
}

fn run_init(mode: OpenMode, version: i16, software: i16) -> (Vec<TrackerCall>, Step) {
    let mut calls = vec![];
    let mut state = InitState::new(mode);
    let mut reply = TrackerReply::Nothing;
    loop {
        let (next, step) = initialize_eyelink(state, reply);
        state = next;
        match step {
            Step::Call(call) => {
                calls.push(call);
                reply = answer(call, version, software);
            }
            end => {
                assert_eq!(state.stage, InitStage::Finished);
                return (calls, end);
            }
        }
        assert!(calls.len() <= 13);
    }
}

#[test]
fn initialize_version_1() {
    let (calls, end) = run_init(OpenMode::Real, 1, 2);
    assert_eq!(end, Step::Done);
    assert_eq!(
        calls,
        vec![
            SetAddress,
            OpenConnection(OpenMode::Real),
            SetOfflineMode,
            FlushGetkeyQueue,
            GetTrackerVersion,
            SendCommand(SaccadeVelocityThreshold),
            SendCommand(SaccadeAccelerationThreshold),
            SendCommand(LinkEventFilter),
            SendCommand(LinkSampleData { htarget: false }),
            IsConnected,
            BreakPressed,
        ]
    );
}

#[test]
fn initialize_version_2_and_3() {
    let (calls, end) = run_init(OpenMode::Dummy, 2, 4);
    assert_eq!(end, Step::Done);
    assert_eq!(
        calls[4..],
        [
            GetTrackerVersion,
            SendCommand(SelectParserConfiguration),
            SendCommand(SceneCameraGazemap),
            SendCommand(LinkEventFilter),
            SendCommand(LinkSampleData { htarget: true }),
            IsConnected,
            BreakPressed,
        ]
    );
    assert_eq!(calls[1], OpenConnection(OpenMode::Dummy));
    let (calls, end) = run_init(OpenMode::Real, 3, 5);
    assert_eq!(end, Step::Done);
    assert_eq!(
        calls[4..],
        [
            GetTrackerVersion,
            SendCommand(SelectParserConfiguration),
            SendCommand(LinkEventFilter),
            SendCommand(LinkSampleData { htarget: true }),
            IsConnected,
            BreakPressed,
        ]
    );
    let (calls, _) = run_init(OpenMode::Real, 0, 3);
    assert_eq!(
        calls[4..],
        [
            GetTrackerVersion,
            SendCommand(LinkEventFilter),
            SendCommand(LinkSampleData { htarget: false }),
            IsConnected,
            BreakPressed,
        ]
    );
}

fn init_until(call: TrackerCall) -> InitState {
    let mut state = InitState::new(OpenMode::Real);
    let mut reply = TrackerReply::Nothing;
    loop {
        let (next, step) = initialize_eyelink(state, reply);
        state = next;
        match step {
            Step::Call(c) if c == call => return state,
            Step::Call(c) => reply = answer(c, 1, 4),
            other => panic!("{:?} before {:?}", other, call),
        }
    }
}

#[test]
fn initialize_faults() {
    let s = init_until(SetAddress);
    assert_eq!(initialize_eyelink(s, TrackerReply::Status(-1)).1, Step::Failed(Fault::InvalidIp));
    let s = init_until(OpenConnection(OpenMode::Real));
    assert_eq!(initialize_eyelink(s, TrackerReply::Status(5)).1, Step::Failed(Fault::Connection));
    let s = init_until(SendCommand(SaccadeVelocityThreshold));
    assert_eq!(
        initialize_eyelink(s, TrackerReply::Status(1)).1,
        Step::Failed(Fault::Refused(SaccadeVelocityThreshold))
    );
    let s = init_until(SendCommand(SaccadeAccelerationThreshold));
    assert_eq!(
        initialize_eyelink(s, TrackerReply::Status(1)).1,
        Step::Failed(Fault::Refused(SaccadeAccelerationThreshold))
    );
    let s = init_until(SendCommand(LinkEventFilter));
    assert_eq!(
        initialize_eyelink(s, TrackerReply::Status(1)).1,
        Step::Failed(Fault::Refused(LinkEventFilter))
    );
    let s = init_until(SendCommand(LinkSampleData { htarget: true }));
    assert_eq!(
        initialize_eyelink(s, TrackerReply::Status(1)).1,
        Step::Failed(Fault::Refused(LinkSampleData { htarget: true }))
    );
    let s = init_until(IsConnected);
    assert_eq!(initialize_eyelink(s, TrackerReply::Status(7)).1, Step::Failed(Fault::Api(7)));
    let s = init_until(BreakPressed);
    assert_eq!(initialize_eyelink(s, TrackerReply::Status(2)).1, Step::Failed(Fault::Api(2)));
    // an answer that the call cannot give
    let s = init_until(IsConnected);
    let (end, step) = initialize_eyelink(s, TrackerReply::Nothing);
    assert_eq!(step, Step::Failed(Fault::Protocol));
    assert_eq!(end.stage, InitStage::Finished);
    assert_eq!(initialize_eyelink(end, TrackerReply::Status(0)).1, Step::Done);
}

#[test]
fn initialize_closes_a_dead_or_interrupted_connection() {
    let s = init_until(IsConnected);
    let (s, step) = initialize_eyelink(s, TrackerReply::Status(0));
    assert_eq!(step, Step::Call(CloseConnection));
    assert_eq!(initialize_eyelink(s, TrackerReply::Nothing).1, Step::Done);
    for status in [-1, 1, 2] {
        let s = init_until(IsConnected);
        let (s, step) = initialize_eyelink(s, TrackerReply::Status(status));
        assert_eq!(step, Step::Call(BreakPressed));
        let (s, step) = initialize_eyelink(s, TrackerReply::Status(1));
        assert_eq!(step, Step::Call(CloseConnection));
        assert_eq!(initialize_eyelink(s, TrackerReply::Nothing).1, Step::Done);
    }
}

fn run_start(edf: Option<&str>, software: i16) -> (Vec<TrackerCall>, Step) {
    let mut calls = vec![];
    let mut state = StartState::new(edf);
    let mut reply = TrackerReply::Nothing;
    loop {
        let (next, step) = start_recording(state, reply);
        state = next;
        match step {
            Step::Call(call) => {
                calls.push(call);
                reply = answer(call, 3, software);
            }
            end => return (calls, end),
        }
        assert!(calls.len() <= 10);
    }
}

#[test]
fn start_recording_to_the_link() {
    let (calls, end) = run_start(None, 4);
    assert_eq!(end, Step::Done);
    assert_eq!(
        calls,
        vec![
            SetOfflineMode,
            MsecDelay(50),
            StartRecording { file_samples: false, file_events: false, link_samples: true, link_events: true },
            BeginRealtimeMode(100),
        ]
    );
}

#[test]
fn start_recording_to_a_file() {
    for (software, htarget) in [(3, false), (4, true), (5, true)] {
        let (calls, end) = run_start(Some("test.edf"), software);
        assert_eq!(end, Step::Done);
        assert_eq!(
            calls,
            vec![
                OpenDataFile,
                SendCommand(AddFilePreamble),
                GetTrackerVersion,
                SendCommand(FileEventFilter),
                SendCommand(FileSampleData { htarget }),
                SetOfflineMode,
                MsecDelay(50),
                StartRecording { file_samples: true, file_events: true, link_samples: true, link_events: true },
                BeginRealtimeMode(100),
            ]
        );
    }
}

#[test]
fn start_recording_faults() {
    // a name that cannot be handed to the tracker: the connection is closed
    // as for a file that cannot be opened
    let (calls, end) = run_start(Some("a\0b"), 4);
    assert_eq!(calls, vec![CloseConnection]);
    assert_eq!(end, Step::Failed(Fault::FileName(1)));
    let s = StartState::new(Some("test.edf"));
    let (s, step) = start_recording(s, TrackerReply::Nothing);
    assert_eq!(step, Step::Call(OpenDataFile));
    // the file cannot be opened: close the connection, then report the code
    let (s, step) = start_recording(s, TrackerReply::Status(-3));
    assert_eq!(step, Step::Call(CloseConnection));
    let (_, step) = start_recording(s, TrackerReply::Nothing);
    assert_eq!(step, Step::Failed(Fault::Api(-3)));

    let s = StartState::new(None);
    let (s, _) = start_recording(s, TrackerReply::Nothing);
    let (s, _) = start_recording(s, TrackerReply::Nothing);
    let (s, step) = start_recording(s, TrackerReply::Nothing);
    assert!(matches!(step, Step::Call(StartRecording { .. })));
    assert_eq!(start_recording(s, TrackerReply::Status(9)).1, Step::Failed(Fault::Api(9)));
    assert_eq!(start_recording(s, TrackerReply::Size(0)).1, Step::Failed(Fault::Protocol));
}

fn run_stop(edf: Option<&str>, replies: &[(TrackerCall, TrackerReply)]) -> (Vec<TrackerCall>, Step) {
    let mut calls = vec![];
    let mut state = StopState::new(edf);
    let mut reply = TrackerReply::Nothing;
    loop {
        let (next, step) = stop_recording(state, reply);
        state = next;
        match step {
            Step::Call(call) => {
                calls.push(call);
                reply = replies
                    .iter()
                    .find(|(c, _)| *c == call)
                    .map(|(_, r)| *r)
                    .unwrap_or_else(|| answer(call, 3, 4));
            }
            end => return (calls, end),
        }
        assert!(calls.len() <= 10);
    }
}

#[test]
fn stop_recording_fetches_the_file() {
    let (calls, end) = run_stop(Some("test.edf"), &[]);
    assert_eq!(end, Step::Done);
    assert_eq!(
        calls,
        vec![
            EndRealtimeMode,
            MsecDelay(100),
            StopRecording,
            SetOfflineMode,
            MsecDelay(500),
            BreakPressed,
            IsConnected,
            SendCommand(CloseDataFile),
            ReceiveDataFile,
        ]
    );
    let (calls, end) = run_stop(None, &[]);
    assert_eq!(end, Step::Done);
    assert_eq!(calls.last(), Some(&IsConnected));
    assert_eq!(calls.len(), 7);
}

#[test]
fn stop_recording_after_an_abort_skips_the_transfer() {
    let (calls, end) = run_stop(Some("test.edf"), &[(BreakPressed, TrackerReply::Status(1))]);
    assert_eq!(end, Step::Done);
    assert_eq!(calls[5..], [BreakPressed, CloseConnection]);
}

#[test]
fn stop_recording_faults() {
    let (_, end) = run_stop(Some("test.edf"), &[(BreakPressed, TrackerReply::Status(3))]);
    assert_eq!(end, Step::Failed(Fault::Api(3)));
    let (_, end) = run_stop(Some("test.edf"), &[(IsConnected, TrackerReply::Status(3))]);
    assert_eq!(end, Step::Failed(Fault::Api(3)));
    let (_, end) = run_stop(None, &[(IsConnected, TrackerReply::Status(3))]);
    assert_eq!(end, Step::Failed(Fault::Api(3)));
    let (calls, end) = run_stop(Some("test.edf"), &[(IsConnected, TrackerReply::Status(0))]);
    assert_eq!(end, Step::Failed(Fault::Transfer));
    assert_eq!(calls.last(), Some(&SendCommand(CloseDataFile)));
    let (_, end) = run_stop(None, &[(IsConnected, TrackerReply::Status(0))]);
    assert_eq!(end, Step::Done);
    let (_, end) = run_stop(Some("test.edf"), &[(SendCommand(CloseDataFile), TrackerReply::Status(1))]);
    assert_eq!(end, Step::Failed(Fault::Refused(CloseDataFile)));
    for code in [0, -111, -110] {
        let (_, end) = run_stop(Some("test.edf"), &[(ReceiveDataFile, TrackerReply::Size(code))]);
        assert_eq!(end, Step::Failed(Fault::Data(code)));
    }
    let (_, end) = run_stop(Some("test.edf"), &[(ReceiveDataFile, TrackerReply::Size(-112))]);
    assert_eq!(end, Step::Done);
    let (calls, end) = run_stop(Some("te\0st.edf"), &[]);
    assert_eq!(end, Step::Failed(Fault::FileName(2)));
    assert_eq!(calls.last(), Some(&SendCommand(CloseDataFile)));
}

#[test]
fn command_texts() {
    assert_eq!(SaccadeVelocityThreshold.text(), "saccade_velocity_threshold = 35");
    assert_eq!(SaccadeAccelerationThreshold.text(), "saccade_acceleration_threshold = 9500");
    assert_eq!(SelectParserConfiguration.text(), "select_parser_configuration 0");
    assert_eq!(SceneCameraGazemap.text(), "scene_camera_gazemap = NO");
    assert_eq!(
        LinkEventFilter.text(),
        "link_event_filter = LEFT,RIGHT,FIXATION,SACCADE,BLINK,BUTTON,INPUT"
    );
    assert_eq!(
        LinkSampleData { htarget: true }.text(),
        "link_sample_data = LEFT,RIGHT,GAZE,GAZERES,AREA,STATUS,HTARGET,INPUT"
    );
    assert_eq!(
        LinkSampleData { htarget: false }.text(),
        "link_sample_data = LEFT,RIGHT,GAZE,GAZERES,AREA,STATUS,INPUT"
    );
    assert_eq!(AddFilePreamble.text(), "add_file_preamble_text 'RECORDED BY recording.rs'");
    assert_eq!(
        FileEventFilter.text(),
        "file_event_filter = LEFT,RIGHT,FIXATION,SACCADE,BLINK,MESSAGE,BUTTON,INPUT"
    );
    assert_eq!(
        FileSampleData { htarget: true }.text(),
        "file_sample_data = LEFT,RIGHT,GAZE,GAZERES,AREA,STATUS,HTARGET,INPUT"
    );
    assert_eq!(
        FileSampleData { htarget: false }.text(),
        "file_sample_data = LEFT,RIGHT,GAZE,GAZERES,AREA,STATUS,INPUT"
    );
    assert_eq!(CloseDataFile.text(), "close_data_file");
}

#[test]
fn fault_errors() {
    assert!(matches!(
        fault_error(Fault::InvalidIp, "x"),
        FvideoEyelinkError::EyelinkError(EyelinkError::InvalidIp(a)) if a == TRACKER_ADDRESS
    ));
    assert!(matches!(
        fault_error(Fault::Connection, "x"),
        FvideoEyelinkError::EyelinkError(EyelinkError::ConnectionError)
    ));
    assert!(matches!(
        fault_error(Fault::Refused(CloseDataFile), "x"),
        FvideoEyelinkError::EyelinkError(EyelinkError::CommandError(c)) if c == "close_data_file"
    ));
    assert!(matches!(
        fault_error(Fault::Api(-4), "x"),
        FvideoEyelinkError::EyelinkError(EyelinkError::ApiError(-4))
    ));
    assert!(matches!(
        fault_error(Fault::Data(-111), "x"),
        FvideoEyelinkError::EyelinkError(EyelinkError::DataError { code: -111, msg }) if msg == "Cannot open file."
    ));
    assert!(matches!(
        fault_error(Fault::Transfer, "test.edf"),
        FvideoEyelinkError::TransferError(n) if n == "test.edf"
    ));
    assert!(matches!(
        fault_error(Fault::FileName(3), "x"),
        FvideoEyelinkError::EyelinkError(EyelinkError::CStringError(3))
    ));
    assert!(matches!(fault_error(Fault::Protocol, "x"), FvideoEyelinkError::ProtocolError));
}

#[test]
fn reply_codes() {
    assert!(set_eyelink_address("100.1.1.1", 0).is_ok());
    assert!(matches!(set_eyelink_address("jibberish", -1), Err(EyelinkError::InvalidIp(a)) if a == "jibberish"));
    assert_eq!(open_mode_code(OpenMode::Dummy), 1);
    assert_eq!(open_mode_code(OpenMode::Real), 0);
    assert_eq!(open_mode_code(OpenMode::NoConn), -1);
    assert!(open_eyelink_connection(0).is_ok());
    assert!(matches!(open_eyelink_connection(1), Err(EyelinkError::ConnectionError)));
    assert!(eyemsg_printf(0).is_ok());
    assert!(matches!(eyemsg_printf(3), Err(EyelinkError::ApiError(3))));
    assert!(eyecmd_printf("close_data_file", 0).is_ok());
    assert!(matches!(eyecmd_printf("bogus", 1), Err(EyelinkError::CommandError(c)) if c == "bogus"));
    assert_eq!(eyelink_is_connected(0).unwrap(), ConnectionStatus::Closed);
    assert_eq!(eyelink_is_connected(-1).unwrap(), ConnectionStatus::Simulated);
    assert_eq!(eyelink_is_connected(1).unwrap(), ConnectionStatus::Normal);
    assert_eq!(eyelink_is_connected(2).unwrap(), ConnectionStatus::Broadcast);
    assert!(matches!(eyelink_is_connected(3), Err(EyelinkError::ApiError(3))));
    assert_eq!(break_pressed(0).unwrap(), false);
    assert_eq!(break_pressed(1).unwrap(), true);
    assert!(matches!(break_pressed(-1), Err(EyelinkError::ApiError(-1))));
    assert!(open_data_file(0).is_ok());
    assert!(matches!(open_data_file(-2), Err(EyelinkError::ApiError(-2))));
    assert_eq!(receive_data_file(1234).unwrap(), 1234);
    assert_eq!(receive_data_file(-1).unwrap(), -1);
    assert!(matches!(receive_data_file(0), Err(EyelinkError::DataError { code: 0, msg }) if msg == "File transfer was cancelled."));
    assert!(matches!(receive_data_file(-111), Err(EyelinkError::DataError { code: -111, msg }) if msg == "Cannot open file."));
    assert!(matches!(receive_data_file(-110), Err(EyelinkError::DataError { code: -110, msg }) if msg == "Data error. Aborted."));
    assert!(do_drift_correct(0).is_ok());
    assert!(matches!(do_drift_correct(27), Err(EyelinkError::EscPressed)));
    assert!(matches!(do_drift_correct(1), Err(EyelinkError::ApiError(1))));
    assert!(eyelink_flush_keybuttons(0).is_ok());
    assert!(matches!(eyelink_flush_keybuttons(-1), Err(EyelinkError::ApiError(-1))));
    assert!(eyelink_newest_float_sample(1).is_ok());
    assert!(matches!(eyelink_newest_float_sample(-1), Err(EyelinkError::NoSampleError)));
    assert!(matches!(eyelink_newest_float_sample(0), Err(EyelinkError::NoNewSampleError)));
    assert!(matches!(eyelink_newest_float_sample(2), Err(EyelinkError::ApiError(2))));
    assert_eq!(eyelink_eye_available(0).unwrap(), EyeData::Left);
    assert_eq!(eyelink_eye_available(1).unwrap(), EyeData::Right);
    assert_eq!(eyelink_eye_available(2).unwrap(), EyeData::Binocular);
    assert!(matches!(eyelink_eye_available(-1), Err(EyelinkError::EyeDataError)));
    assert!(matches!(eyelink_eye_available(3), Err(EyelinkError::ApiError(3))));
    assert!(eyelink_wait_for_block_start(1).is_ok());
    assert!(eyelink_wait_for_block_start(-1).is_ok());
    assert!(matches!(eyelink_wait_for_block_start(0), Err(EyelinkError::BlockStartError)));
    assert!(fvideo::tracker::start_recording(0).is_ok());
    assert!(matches!(fvideo::tracker::start_recording(5), Err(EyelinkError::ApiError(5))));
}

#[test]
fn test_eyelink_get_tracker_version() {
    let mut buffer = [0u8; 256];
    buffer[..15].copy_from_slice(b"EYELINK CL 4.51");
    let (version, sw_version) = eyelink_get_tracker_version(3, &buffer).unwrap();
    assert_eq!(version, 3);
    assert_eq!(sw_version, 4);
}

#[test]
fn tracker_version_stops_at_the_first_nul() {
    // what follows the first NUL is not read, whatever it is
    let mut buffer = [0xffu8; 40];
    buffer[..13].copy_from_slice(b"EYELINK II 5\0");
    assert_eq!(eyelink_get_tracker_version(2, &buffer).unwrap(), (2, 5));
    // without a NUL the whole buffer is the text
    assert_eq!(eyelink_get_tracker_version(1, b"EYELINK I 2.11").unwrap(), (1, 2));
    assert!(matches!(
        eyelink_get_tracker_version(1, b"EYELINK I 2.11\xff"),
        Err(EyelinkError::Utf8Error(_))
    ));
    assert!(matches!(eyelink_get_tracker_version(1, &[0u8; 8]), Err(EyelinkError::ApiError(0))));
    assert!(matches!(eyelink_get_tracker_version(1, b"EYELINK"), Err(EyelinkError::ApiError(0))));
    assert!(matches!(eyelink_get_tracker_version(1, &[]), Err(EyelinkError::ApiError(0))));
    assert_eq!(eyelink_get_tracker_version(0, "v\u{e9} 7.0\0junk".as_bytes()).unwrap(), (0, 7));
}

#[test]
fn c_string_check() {
    assert!(check_c_string("test.edf").is_ok());
    assert!(check_c_string("").is_ok());
    assert!(matches!(check_c_string("\0"), Err(EyelinkError::CStringError(0))));
    assert!(matches!(check_c_string("ab\0c\0"), Err(EyelinkError::CStringError(2))));
    assert_eq!(find_nul("ab"), None);
    // the position counts bytes: the letter before the NUL takes two
    assert_eq!(find_nul("\u{e9}\0"), Some(2));
    assert!(matches!(check_c_string("\u{e9}\u{20ac}\0x\0"), Err(EyelinkError::CStringError(5))));
    assert_eq!(first_nul(&[]), 0);
    assert_eq!(first_nul(&[7, 0, 0]), 1);
    assert_eq!(first_nul(&[7, 8]), 2);
}

#[test]
fn c_string_check_finds_the_first_zero_byte() {
    for text in ["", "test.edf", "\0", "ab\0c\0", "\u{e9}\0", "\u{1f600}a\u{e9}\0\0", "\u{20ac}", "x\u{0}"] {
        match text.bytes().position(|b| b == 0) {
            None => {
                assert!(check_c_string(text).is_ok());
                assert_eq!(find_nul(text), None);
            }
            Some(at) => {
                assert!(matches!(check_c_string(text), Err(EyelinkError::CStringError(p)) if p == at));
                assert_eq!(find_nul(text), Some(at));
            }
        }
    }
}

#[test]
fn data_file_name_fault_counts_bytes() {
    let (calls, end) = run_start(Some("\u{e9}\0b"), 4);
    assert_eq!(calls, vec![CloseConnection]);
    assert_eq!(end, Step::Failed(Fault::FileName(2)));
    let (_, end) = run_stop(Some("\u{20ac}\u{e9}\0"), &[]);
    assert_eq!(end, Step::Failed(Fault::FileName(5)));
}

#[test]
fn calibration_script() {
    let s = CalState::new(3840, 2160);
    let (s, step) = run_calibration(s, TrackerReply::Nothing);
    let coords = ScreenPixelCoords { width: 3840, height: 2160 };
    assert_eq!(step, Step::Call(SendCommand(coords)));
    assert_eq!(coords.text(), "screen_pixel_coords = 0 0 3840 2160");
    let (s, step) = run_calibration(s, TrackerReply::Status(0));
    assert_eq!(step, Step::Call(DoTrackerSetup));
    let (s, step) = run_calibration(s, TrackerReply::Nothing);
    let drift = DoDriftCorrect { x: 1920, y: 1080 };
    assert_eq!(step, Step::Call(drift));
    // escape leads to another correction, as often as it is pressed
    let (s, step) = run_calibration(s, TrackerReply::Status(27));
    assert_eq!(step, Step::Call(drift));
    let (s, step) = run_calibration(s, TrackerReply::Status(27));
    assert_eq!(step, Step::Call(drift));
    let (s, step) = run_calibration(s, TrackerReply::Status(0));
    assert_eq!(step, Step::Done);
    assert_eq!(s.stage, CalStage::Finished);
    assert_eq!(run_calibration(s, TrackerReply::Nothing).1, Step::Done);
}

#[test]
fn calibration_faults() {
    let (s, _) = run_calibration(CalState::new(100_000, 0), TrackerReply::Nothing);
    assert_eq!(
        run_calibration(s, TrackerReply::Status(1)).1,
        Step::Failed(Fault::Refused(ScreenPixelCoords { width: 100_000, height: 0 }))
    );
    assert_eq!(run_calibration(s, TrackerReply::Nothing).1, Step::Failed(Fault::Protocol));
    let (s, _) = run_calibration(s, TrackerReply::Status(0));
    let (s, step) = run_calibration(s, TrackerReply::Nothing);
    assert_eq!(step, Step::Call(DoDriftCorrect { x: i16::MAX, y: 0 }));
    // a fault of the drift correction other than escape ends the script
    let (_, step) = run_calibration(s, TrackerReply::Status(-1));
    assert_eq!(step, Step::Done);
    assert_eq!(
        ScreenPixelCoords { width: 0, height: u32::MAX }.text(),
        "screen_pixel_coords = 0 0 0 4294967295"
    );
}

#[test]
fn calibration_display() {
    assert!(check_displays(1).is_ok());
    for (n, text) in [
        (0, "We currently only support 1 display. You have 0."),
        (2, "We currently only support 1 display. You have 2."),
        (-1, "We currently only support 1 display. You have -1."),
        (i32::MIN, "We currently only support 1 display. You have -2147483648."),
    ] {
        match check_displays(n) {
            Err(GraphicsError::SDL2Error(m)) => assert_eq!(m, text),
            other => panic!("{:?}", other),
        }
    }
    assert!(hooks_registered(0).is_ok());
    assert!(matches!(hooks_registered(-7), Err(GraphicsError::SDL2Error(m)) if m == "Graphic Hooks: -7"));
    assert!(matches!(hooks_registered(3), Err(GraphicsError::SDL2Error(m)) if m == "Graphic Hooks: 3"));
    assert_eq!(hook_answer(true), 0);
    assert_eq!(hook_answer(false), 1);
    assert!(close_expt_graphics(true).is_ok());
    assert!(matches!(
        close_expt_graphics(false),
        Err(GraphicsError::SDL2Error(m)) if m == "Received a NULL ptr for canvas."
    ));
    assert_eq!((TARGET_SIZE, INNER_SIZE), (24, 4));
}

#[test]
fn test_set_eyelink_address() {
    // the tracker refuses an address that is none with a code other than 0
    if let Ok(_) = set_eyelink_address("jibberish", -1) {
        panic!("Should have failed.");
    }

    if let Err(_) = set_eyelink_address("100.1.1.1", 0) {
        panic!("Should have passed.");
    }
}

#[test]
fn test_eyelink_receive_data_file_disconnected() {
    // Without a tracker the transfer is cancelled: code 0.
    match receive_data_file(0) {
        Err(e) => match e {
            EyelinkError::DataError { code, msg: _ } if code != 0 => {
                panic!("Should have failed.");
            }
            _ => (),
        },
        _ => (),
    }
}
