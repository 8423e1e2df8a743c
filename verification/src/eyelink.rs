//! Session scripts for the eye tracker.
//!
//! Setting the tracker up, starting a recording and stopping it are fixed
//! sequences of calls whose course depends on what the tracker answers. Each
//! script is a step function: it takes the script's state and the answer to
//! the call made last, and gives the next state together with the next call,
//! or the end of the script. The caller makes the calls.

use vstd::prelude::*;
use vstd::string::StringExecFns;
use crate::text::{decimal_digits, push_decimal};
use crate::tracker::{
    connection_reply, find_nul, nul_in, ConnectionStatus, EyelinkError, OpenMode, FILE_CANT_OPEN,
    FILE_XFER_ABORTED,
};

verus! {

/// Address of the tracker host.
pub const TRACKER_ADDRESS: &'static str = "100.1.1.1";

/// Names of the commands that the scripts send.
#[derive(Copy, Clone, Debug, PartialEq, Eq, Structural)]
pub enum Command {
    SaccadeVelocityThreshold,
    SaccadeAccelerationThreshold,
    SelectParserConfiguration,
    SceneCameraGazemap,
    LinkEventFilter,
    LinkSampleData { htarget: bool },
    AddFilePreamble,
    FileEventFilter,
    FileSampleData { htarget: bool },
    CloseDataFile,
    /// Tells the tracker the size of the display in pixels.
    ScreenPixelCoords { width: u32, height: u32 },
}

/// A call to the tracker.
#[derive(Copy, Clone, Debug, PartialEq, Eq, Structural)]
pub enum TrackerCall {
    /// Set the tracker's address to `TRACKER_ADDRESS`.
    SetAddress,
    OpenConnection(OpenMode),
    SetOfflineMode,
    FlushGetkeyQueue,
    GetTrackerVersion,
    SendCommand(Command),
    IsConnected,
    BreakPressed,
    CloseConnection,
    EndRealtimeMode,
    /// Wait for the given number of milliseconds.
    MsecDelay(u32),
    StopRecording,
    /// Open the session's data file on the tracker host.
    OpenDataFile,
    /// Fetch the session's data file from the tracker host.
    ReceiveDataFile,
    StartRecording { file_samples: bool, file_events: bool, link_samples: bool, link_events: bool },
    BeginRealtimeMode(u32),
    /// Run the tracker's set-up and calibration screens.
    DoTrackerSetup,
    /// Correct the drift with a target at this display position; the
    /// target is drawn and the set-up screens can be reached from it.
    DoDriftCorrect { x: i16, y: i16 },
}

/// The answer to a call.
#[derive(Copy, Clone, Debug, PartialEq, Eq, Structural)]
pub enum TrackerReply {
    /// The script has not made a call yet, or the call gives no answer.
    Nothing,
    /// The code that the call returned.
    Status(i16),
    /// The code that the file transfer returned.
    Size(i32),
    /// The tracker version and the major version of its software.
    Version(i16, i16),
}

/// Why a script ended early.
#[derive(Copy, Clone, Debug, PartialEq, Eq, Structural)]
pub enum Fault {
    /// The tracker refused its address.
    InvalidIp,
    /// The connection could not be opened.
    Connection,
    /// The tracker refused a command.
    Refused(Command),
    /// The tracker answered with a code that its interface does not list.
    Api(i16),
    /// The data file could not be transferred; the code says why.
    Data(i32),
    /// The connection was closed before the data file could be fetched.
    Transfer,
    /// The name of the data file holds a NUL byte; the first one stands at
    /// this position, counted in the bytes of the name in UTF-8.
    FileName(usize),
    /// The answer is not one that the call made last can give.
    Protocol,
}

/// What a script asks for next.
#[derive(Copy, Clone, Debug, PartialEq, Eq, Structural)]
pub enum Step {
    /// Make this call and hand its answer to the next step.
    Call(TrackerCall),
    /// The script has ended well.
    Done,
    /// The script has ended on a fault.
    Failed(Fault),
}

/// What can go wrong in a session.
#[derive(Debug)]
pub enum FvideoEyelinkError {
    EyelinkError(EyelinkError),
    /// The data file of this name could not be fetched.
    TransferError(String),
    /// The calibration display reported a fault.
    GraphicsError(String),
    /// An answer was handed in that the call made last cannot give.
    ProtocolError,
}

impl Command {
    /// The text of the command as the tracker reads it.
    pub open spec fn spec_text(self) -> Seq<char> {
        match self {
            Command::SaccadeVelocityThreshold => "saccade_velocity_threshold = 35"@,
            Command::SaccadeAccelerationThreshold => "saccade_acceleration_threshold = 9500"@,
            Command::SelectParserConfiguration => "select_parser_configuration 0"@,
            Command::SceneCameraGazemap => "scene_camera_gazemap = NO"@,
            Command::LinkEventFilter => "link_event_filter = LEFT,RIGHT,FIXATION,SACCADE,BLINK,BUTTON,INPUT"@,
            Command::LinkSampleData { htarget } => if htarget {
                "link_sample_data = LEFT,RIGHT,GAZE,GAZERES,AREA,STATUS,HTARGET,INPUT"@
            } else {
                "link_sample_data = LEFT,RIGHT,GAZE,GAZERES,AREA,STATUS,INPUT"@
            },
            Command::AddFilePreamble => "add_file_preamble_text 'RECORDED BY recording.rs'"@,
            Command::FileEventFilter => "file_event_filter = LEFT,RIGHT,FIXATION,SACCADE,BLINK,MESSAGE,BUTTON,INPUT"@,
            Command::FileSampleData { htarget } => if htarget {
                "file_sample_data = LEFT,RIGHT,GAZE,GAZERES,AREA,STATUS,HTARGET,INPUT"@
            } else {
                "file_sample_data = LEFT,RIGHT,GAZE,GAZERES,AREA,STATUS,INPUT"@
            },
            Command::CloseDataFile => "close_data_file"@,
            Command::ScreenPixelCoords { width, height } => "screen_pixel_coords = 0 0 "@
                + decimal_digits(width as nat) + " "@ + decimal_digits(height as nat),
        }
    }

    /// The text of the command as the tracker reads it.
    pub fn text(self) -> (t: String)
        ensures
            t@ == self.spec_text(),
    {
        match self {
            Command::SaccadeVelocityThreshold => "saccade_velocity_threshold = 35".to_owned(),
            Command::SaccadeAccelerationThreshold => "saccade_acceleration_threshold = 9500".to_owned(),
            Command::SelectParserConfiguration => "select_parser_configuration 0".to_owned(),
            Command::SceneCameraGazemap => "scene_camera_gazemap = NO".to_owned(),
            Command::LinkEventFilter => "link_event_filter = LEFT,RIGHT,FIXATION,SACCADE,BLINK,BUTTON,INPUT".to_owned(),
            Command::LinkSampleData { htarget } => if htarget {
                "link_sample_data = LEFT,RIGHT,GAZE,GAZERES,AREA,STATUS,HTARGET,INPUT".to_owned()
            } else {
                "link_sample_data = LEFT,RIGHT,GAZE,GAZERES,AREA,STATUS,INPUT".to_owned()
            },
            Command::AddFilePreamble => "add_file_preamble_text 'RECORDED BY recording.rs'".to_owned(),
            Command::FileEventFilter => "file_event_filter = LEFT,RIGHT,FIXATION,SACCADE,BLINK,MESSAGE,BUTTON,INPUT".to_owned(),
            Command::FileSampleData { htarget } => if htarget {
                "file_sample_data = LEFT,RIGHT,GAZE,GAZERES,AREA,STATUS,HTARGET,INPUT".to_owned()
            } else {
                "file_sample_data = LEFT,RIGHT,GAZE,GAZERES,AREA,STATUS,INPUT".to_owned()
            },
            Command::CloseDataFile => "close_data_file".to_owned(),
            Command::ScreenPixelCoords { width, height } => {
                let mut text = "screen_pixel_coords = 0 0 ".to_owned();
                push_decimal(&mut text, width as u64);
                text.append(" ");
                push_decimal(&mut text, height as u64);
                text
            },
        }
    }
}

/// Why a transfer with this answer gave no file.
pub open spec fn data_message(code: i32) -> Seq<char> {
    if code == 0 {
        "File transfer was cancelled."@
    } else if code == FILE_CANT_OPEN {
        "Cannot open file."@
    } else {
        "Data error. Aborted."@
    }
}

/// `e` is the error that reports `fault` in a session whose data file is
/// named `edf`.
pub open spec fn reports(e: FvideoEyelinkError, fault: Fault, edf: Seq<char>) -> bool {
    match fault {
        Fault::InvalidIp => e matches FvideoEyelinkError::EyelinkError(EyelinkError::InvalidIp(a))
            && a@ == TRACKER_ADDRESS@,
        Fault::Connection => e matches FvideoEyelinkError::EyelinkError(
            EyelinkError::ConnectionError,
        ),
        Fault::Refused(cmd) => e matches FvideoEyelinkError::EyelinkError(
            EyelinkError::CommandError(c),
        ) && c@ == cmd.spec_text(),
        Fault::Api(n) => e matches FvideoEyelinkError::EyelinkError(EyelinkError::ApiError(m)) && m
            == n,
        Fault::Data(n) => e matches FvideoEyelinkError::EyelinkError(
            EyelinkError::DataError { code, msg },
        ) && code == n && msg@ == data_message(n),
        Fault::Transfer => e matches FvideoEyelinkError::TransferError(name) && name@ == edf,
        Fault::FileName(at) => e matches FvideoEyelinkError::EyelinkError(
            EyelinkError::CStringError(p),
        ) && p == at,
        Fault::Protocol => e matches FvideoEyelinkError::ProtocolError,
    }
}

/// The error that reports `fault` in a session whose data file is named
/// `edf`.
pub fn fault_error(fault: Fault, edf: &str) -> (e: FvideoEyelinkError)
    ensures
        reports(e, fault, edf@),
{
    match fault {
        Fault::InvalidIp => FvideoEyelinkError::EyelinkError(
            EyelinkError::InvalidIp(TRACKER_ADDRESS.to_owned()),
        ),
        Fault::Connection => FvideoEyelinkError::EyelinkError(EyelinkError::ConnectionError),
        Fault::Refused(cmd) => FvideoEyelinkError::EyelinkError(
            EyelinkError::CommandError(cmd.text()),
        ),
        Fault::Api(n) => FvideoEyelinkError::EyelinkError(EyelinkError::ApiError(n)),
        Fault::Data(n) => {
            let msg = if n == 0 {
                "File transfer was cancelled."
            } else if n == FILE_CANT_OPEN {
                "Cannot open file."
            } else {
                "Data error. Aborted."
            };
            FvideoEyelinkError::EyelinkError(
                EyelinkError::DataError { code: n, msg: msg.to_owned() },
            )
        },
        Fault::Transfer => FvideoEyelinkError::TransferError(edf.to_owned()),
        Fault::FileName(at) => FvideoEyelinkError::EyelinkError(EyelinkError::CStringError(at)),
        Fault::Protocol => FvideoEyelinkError::ProtocolError,
    }
}

/// Where the set-up script stands: the call whose answer is due.
#[derive(Copy, Clone, Debug, PartialEq, Eq, Structural)]
pub enum InitStage {
    Begin,
    Address,
    Open,
    Offline,
    Flush,
    Version,
    /// The tuning command of this index.
    Tune(u8),
    EventFilter,
    SampleData,
    Connected,
    Break,
    Close,
    Finished,
}

/// State of the set-up script.
#[derive(Copy, Clone, Debug, PartialEq, Eq, Structural)]
pub struct InitState {
    pub stage: InitStage,
    pub mode: OpenMode,
    /// Tracker version, known after the version query.
    pub version: i16,
    /// Major version of the tracker's software, known after the version
    /// query.
    pub software: i16,
}

/// The tuning commands for a tracker of the given version.
pub open spec fn tuning(version: i16) -> Seq<Command> {
    if version == 0 {
        seq![]
    } else if version == 1 {
        seq![Command::SaccadeVelocityThreshold, Command::SaccadeAccelerationThreshold]
    } else if version == 2 {
        seq![Command::SelectParserConfiguration, Command::SceneCameraGazemap]
    } else {
        seq![Command::SelectParserConfiguration]
    }
}

/// The call that follows the tuning command of index `k - 1`: the next
/// tuning command, or the event filter once all are sent.
pub open spec fn after_tuning(s: InitState, k: int) -> (InitState, Step) {
    if 0 <= k < tuning(s.version).len() {
        (
            InitState { stage: InitStage::Tune(k as u8), ..s },
            Step::Call(TrackerCall::SendCommand(tuning(s.version)[k])),
        )
    } else {
        (
            InitState { stage: InitStage::EventFilter, ..s },
            Step::Call(TrackerCall::SendCommand(Command::LinkEventFilter)),
        )
    }
}

/// The script has ended on `fault`.
pub open spec fn init_failed(s: InitState, fault: Fault) -> (InitState, Step) {
    (InitState { stage: InitStage::Finished, ..s }, Step::Failed(fault))
}

/// The script goes on to `stage` with `call`.
pub open spec fn init_call(s: InitState, stage: InitStage, call: TrackerCall) -> (InitState, Step) {
    (InitState { stage, ..s }, Step::Call(call))
}

/// One step of the set-up script.
///
/// The script sets the address, opens the connection, puts the tracker in
/// offline mode, flushes its key queue and asks for its version. It then
/// sends the tuning commands of that version, the link event filter and the
/// link sample data, which names the head target for software of major
/// version 4 and above. At the end it closes the connection again if it is
/// reported closed or the break key was pressed.
pub open spec fn init_step(s: InitState, reply: TrackerReply) -> (InitState, Step) {
    match (s.stage, reply) {
        (InitStage::Begin, TrackerReply::Nothing) => init_call(
            s,
            InitStage::Address,
            TrackerCall::SetAddress,
        ),
        (InitStage::Address, TrackerReply::Status(r)) => if r == 0 {
            init_call(s, InitStage::Open, TrackerCall::OpenConnection(s.mode))
        } else {
            init_failed(s, Fault::InvalidIp)
        },
        (InitStage::Open, TrackerReply::Status(r)) => if r == 0 {
            init_call(s, InitStage::Offline, TrackerCall::SetOfflineMode)
        } else {
            init_failed(s, Fault::Connection)
        },
        (InitStage::Offline, TrackerReply::Nothing) => init_call(
            s,
            InitStage::Flush,
            TrackerCall::FlushGetkeyQueue,
        ),
        (InitStage::Flush, TrackerReply::Nothing) => init_call(
            s,
            InitStage::Version,
            TrackerCall::GetTrackerVersion,
        ),
        (InitStage::Version, TrackerReply::Version(version, software)) => after_tuning(
            InitState { version, software, ..s },
            0,
        ),
        (InitStage::Tune(k), TrackerReply::Status(r)) => if k >= tuning(s.version).len() {
            init_failed(s, Fault::Protocol)
        } else if r == 0 {
            after_tuning(s, k + 1)
        } else {
            init_failed(s, Fault::Refused(tuning(s.version)[k as int]))
        },
        (InitStage::EventFilter, TrackerReply::Status(r)) => if r == 0 {
            init_call(
                s,
                InitStage::SampleData,
                TrackerCall::SendCommand(Command::LinkSampleData { htarget: s.software >= 4 }),
            )
        } else {
            init_failed(s, Fault::Refused(Command::LinkEventFilter))
        },
        (InitStage::SampleData, TrackerReply::Status(r)) => if r == 0 {
            init_call(s, InitStage::Connected, TrackerCall::IsConnected)
        } else {
            init_failed(s, Fault::Refused(Command::LinkSampleData { htarget: s.software >= 4 }))
        },
        (InitStage::Connected, TrackerReply::Status(r)) => match connection_reply(r) {
            None => init_failed(s, Fault::Api(r)),
            Some(ConnectionStatus::Closed) => init_call(
                s,
                InitStage::Close,
                TrackerCall::CloseConnection,
            ),
            Some(_) => init_call(s, InitStage::Break, TrackerCall::BreakPressed),
        },
        (InitStage::Break, TrackerReply::Status(r)) => if r == 0 {
            (InitState { stage: InitStage::Finished, ..s }, Step::Done)
        } else if r == 1 {
            init_call(s, InitStage::Close, TrackerCall::CloseConnection)
        } else {
            init_failed(s, Fault::Api(r))
        },
        (InitStage::Close, TrackerReply::Nothing) => (
            InitState { stage: InitStage::Finished, ..s },
            Step::Done,
        ),
        (InitStage::Finished, _) => (s, Step::Done),
        _ => init_failed(s, Fault::Protocol),
    }
}

/// How many calls the set-up script can still make from a stage, at most.
pub open spec fn init_rank(stage: InitStage) -> nat {
    match stage {
        InitStage::Begin => 13,
        InitStage::Address => 12,
        InitStage::Open => 11,
        InitStage::Offline => 10,
        InitStage::Flush => 9,
        InitStage::Version => 8,
        InitStage::Tune(k) => if k == 0 {
            7
        } else {
            6
        },
        InitStage::EventFilter => 5,
        InitStage::SampleData => 4,
        InitStage::Connected => 3,
        InitStage::Break => 2,
        InitStage::Close => 1,
        InitStage::Finished => 0,
    }
}

/// The tuning command of index `k` for a tracker of the given version.
fn tuning_command(version: i16, k: u8) -> (r: Option<Command>)
    ensures
        r == if k < tuning(version).len() {
            Some(tuning(version)[k as int])
        } else {
            None
        },
{
    if version == 1 {
        if k == 0 {
            Some(Command::SaccadeVelocityThreshold)
        } else if k == 1 {
            Some(Command::SaccadeAccelerationThreshold)
        } else {
            None
        }
    } else if version == 2 {
        if k == 0 {
            Some(Command::SelectParserConfiguration)
        } else if k == 1 {
            Some(Command::SceneCameraGazemap)
        } else {
            None
        }
    } else if version != 0 && k == 0 {
        Some(Command::SelectParserConfiguration)
    } else {
        None
    }
}

impl InitState {
    /// The state before the first step.
    pub fn new(mode: OpenMode) -> (s: InitState)
        ensures
            s == (InitState { stage: InitStage::Begin, mode, version: 0, software: 0 }),
    {
        InitState { stage: InitStage::Begin, mode, version: 0, software: 0 }
    }
}

/// Sets up a connection with the tracker: one step of the script.
///
/// The first step takes `InitState::new` and `TrackerReply::Nothing`. Every
/// later step takes the state that the step before returned and the answer to
/// the call that it asked for. Each call brings the script nearer to its end.
pub fn initialize_eyelink(state: InitState, reply: TrackerReply) -> (r: (InitState, Step))
    ensures
        r == init_step(state, reply),
        r.1 is Call ==> init_rank(r.0.stage) < init_rank(state.stage),
        !(r.1 is Call) ==> r.0.stage == InitStage::Finished,
{
    let failed = |fault: Fault| -> (o: (InitState, Step))
        ensures
            o == init_failed(state, fault),
        { (InitState { stage: InitStage::Finished, ..state }, Step::Failed(fault)) };
    let call = |stage: InitStage, c: TrackerCall| -> (o: (InitState, Step))
        ensures
            o == init_call(state, stage, c),
        { (InitState { stage, ..state }, Step::Call(c)) };
    match (state.stage, reply) {
        (InitStage::Begin, TrackerReply::Nothing) => call(
            InitStage::Address,
            TrackerCall::SetAddress,
        ),
        (InitStage::Address, TrackerReply::Status(r)) => if r == 0 {
            call(InitStage::Open, TrackerCall::OpenConnection(state.mode))
        } else {
            failed(Fault::InvalidIp)
        },
        (InitStage::Open, TrackerReply::Status(r)) => if r == 0 {
            call(InitStage::Offline, TrackerCall::SetOfflineMode)
        } else {
            failed(Fault::Connection)
        },
        (InitStage::Offline, TrackerReply::Nothing) => call(
            InitStage::Flush,
            TrackerCall::FlushGetkeyQueue,
        ),
        (InitStage::Flush, TrackerReply::Nothing) => call(
            InitStage::Version,
            TrackerCall::GetTrackerVersion,
        ),
        (InitStage::Version, TrackerReply::Version(version, software)) => {
            let known = InitState { version, software, ..state };
            match tuning_command(version, 0) {
                Some(cmd) => (
                    InitState { stage: InitStage::Tune(0), ..known },
                    Step::Call(TrackerCall::SendCommand(cmd)),
                ),
                None => (
                    InitState { stage: InitStage::EventFilter, ..known },
                    Step::Call(TrackerCall::SendCommand(Command::LinkEventFilter)),
                ),
            }
        },
        (InitStage::Tune(k), TrackerReply::Status(r)) => match tuning_command(state.version, k) {
            None => failed(Fault::Protocol),
            Some(sent) => if r != 0 {
                failed(Fault::Refused(sent))
            } else {
                match tuning_command(state.version, k + 1) {
                    Some(cmd) => call(InitStage::Tune(k + 1), TrackerCall::SendCommand(cmd)),
                    None => call(
                        InitStage::EventFilter,
                        TrackerCall::SendCommand(Command::LinkEventFilter),
                    ),
                }
            },
        },
        (InitStage::EventFilter, TrackerReply::Status(r)) => if r == 0 {
            call(
                InitStage::SampleData,
                TrackerCall::SendCommand(Command::LinkSampleData { htarget: state.software >= 4 }),
            )
        } else {
            failed(Fault::Refused(Command::LinkEventFilter))
        },
        (InitStage::SampleData, TrackerReply::Status(r)) => if r == 0 {
            call(InitStage::Connected, TrackerCall::IsConnected)
        } else {
            failed(Fault::Refused(Command::LinkSampleData { htarget: state.software >= 4 }))
        },
        (InitStage::Connected, TrackerReply::Status(r)) => if r == 0 {
            call(InitStage::Close, TrackerCall::CloseConnection)
        } else if r == -1 || r == 1 || r == 2 {
            call(InitStage::Break, TrackerCall::BreakPressed)
        } else {
            failed(Fault::Api(r))
        },
        (InitStage::Break, TrackerReply::Status(r)) => if r == 0 {
            (InitState { stage: InitStage::Finished, ..state }, Step::Done)
        } else if r == 1 {
            call(InitStage::Close, TrackerCall::CloseConnection)
        } else {
            failed(Fault::Api(r))
        },
        (InitStage::Close, TrackerReply::Nothing) => (
            InitState { stage: InitStage::Finished, ..state },
            Step::Done,
        ),
        (InitStage::Finished, _) => (state, Step::Done),
        _ => failed(Fault::Protocol),
    }
}

/// The answer of a tracker that does what it is asked: it takes every
/// command, reports the given versions and a live connection, and the break
/// key is not pressed.
pub open spec fn willing(call: TrackerCall, version: i16, software: i16) -> TrackerReply {
    match call {
        TrackerCall::SetAddress => TrackerReply::Status(0),
        TrackerCall::OpenConnection(_) => TrackerReply::Status(0),
        TrackerCall::GetTrackerVersion => TrackerReply::Version(version, software),
        TrackerCall::SendCommand(_) => TrackerReply::Status(0),
        TrackerCall::IsConnected => TrackerReply::Status(1),
        TrackerCall::BreakPressed => TrackerReply::Status(0),
        TrackerCall::OpenDataFile => TrackerReply::Status(0),
        TrackerCall::ReceiveDataFile => TrackerReply::Size(1),
        TrackerCall::StartRecording { .. } => TrackerReply::Status(0),
        TrackerCall::DoDriftCorrect { .. } => TrackerReply::Status(0),
        _ => TrackerReply::Nothing,
    }
}

/// The calls that the set-up script makes with a willing tracker, from the
/// step that takes `reply` in state `s`, as far as `fuel` calls.
pub open spec fn init_calls(
    s: InitState,
    reply: TrackerReply,
    version: i16,
    software: i16,
    fuel: nat,
) -> Seq<TrackerCall>
    decreases fuel,
{
    if fuel == 0 {
        Seq::empty()
    } else {
        match init_step(s, reply).1 {
            Step::Call(call) => seq![call] + init_calls(
                init_step(s, reply).0,
                willing(call, version, software),
                version,
                software,
                (fuel - 1) as nat,
            ),
            _ => Seq::empty(),
        }
    }
}

/// The set-up script as a whole: with a willing tracker it sets the address,
/// opens the connection, goes offline, flushes the keys, asks for the
/// version, sends the tuning commands of that version, the link event
/// filter and the link sample data, and asks for the connection and the
/// break key.
pub proof fn lemma_init_script(mode: OpenMode, version: i16, software: i16)
    ensures
        init_calls(
            InitState { stage: InitStage::Begin, mode, version: 0, software: 0 },
            TrackerReply::Nothing,
            version,
            software,
            13,
        ) == seq![
            TrackerCall::SetAddress,
            TrackerCall::OpenConnection(mode),
            TrackerCall::SetOfflineMode,
            TrackerCall::FlushGetkeyQueue,
            TrackerCall::GetTrackerVersion,
        ] + tuning(version).map_values(|c: Command| TrackerCall::SendCommand(c)) + seq![
            TrackerCall::SendCommand(Command::LinkEventFilter),
            TrackerCall::SendCommand(Command::LinkSampleData { htarget: software >= 4 }),
            TrackerCall::IsConnected,
            TrackerCall::BreakPressed,
        ],
{
    reveal_with_fuel(init_calls, 14);
    let run = init_calls(
        InitState { stage: InitStage::Begin, mode, version: 0, software: 0 },
        TrackerReply::Nothing,
        version,
        software,
        13,
    );
    let want = seq![
        TrackerCall::SetAddress,
        TrackerCall::OpenConnection(mode),
        TrackerCall::SetOfflineMode,
        TrackerCall::FlushGetkeyQueue,
        TrackerCall::GetTrackerVersion,
    ] + tuning(version).map_values(|c: Command| TrackerCall::SendCommand(c)) + seq![
        TrackerCall::SendCommand(Command::LinkEventFilter),
        TrackerCall::SendCommand(Command::LinkSampleData { htarget: software >= 4 }),
        TrackerCall::IsConnected,
        TrackerCall::BreakPressed,
    ];
    assert(run =~= want);
}

/// Where the script that starts a recording stands: the call whose answer is
/// due.
#[derive(Copy, Clone, Debug, PartialEq, Eq, Structural)]
pub enum StartStage {
    Begin,
    OpenFile,
    /// The connection is being closed because the data file could not be
    /// opened; the code is the tracker's.
    Abort(i16),
    /// The connection is being closed because the name of the data file
    /// cannot be handed to the tracker.
    BadName,
    Preamble,
    Version,
    EventFilter,
    SampleData,
    Offline,
    Delay,
    Start,
    Realtime,
    Finished,
}

/// State of the script that starts a recording.
#[derive(Copy, Clone, Debug, PartialEq, Eq, Structural)]
pub struct StartState {
    pub stage: StartStage,
    /// Whether the recording goes to a data file as well as to the link.
    pub to_file: bool,
    /// Position of the first NUL byte in the name of the data file, counted
    /// in the bytes of the name in UTF-8.
    pub bad_name: Option<usize>,
    /// Major version of the tracker's software, known after the version
    /// query.
    pub software: i16,
}

/// The script has ended on `fault`.
pub open spec fn start_failed(s: StartState, fault: Fault) -> (StartState, Step) {
    (StartState { stage: StartStage::Finished, ..s }, Step::Failed(fault))
}

/// The script goes on to `stage` with `call`.
pub open spec fn start_call(s: StartState, stage: StartStage, call: TrackerCall) -> (
    StartState,
    Step,
) {
    (StartState { stage, ..s }, Step::Call(call))
}

/// An answer to a command: the script goes on where the tracker took it.
pub open spec fn start_sent(
    s: StartState,
    r: i16,
    sent: Command,
    stage: StartStage,
    call: TrackerCall,
) -> (StartState, Step) {
    if r == 0 {
        start_call(s, stage, call)
    } else {
        start_failed(s, Fault::Refused(sent))
    }
}

/// One step of the script that starts a recording.
///
/// With a data file, the script opens it, writes the preamble and sets what
/// the file holds, which names the head target for software of major version
/// 4 and above. If the file cannot be opened, the connection is closed and
/// the script ends on the tracker's code; a file name with a NUL character
/// cannot be handed to the tracker, which counts as a file that cannot be
/// opened. With or without a file, the script
/// then puts the tracker in offline mode, waits 50 ms, starts recording to
/// the link (and to the file, if there is one) and enters realtime mode.
pub open spec fn start_step(s: StartState, reply: TrackerReply) -> (StartState, Step) {
    match (s.stage, reply) {
        (StartStage::Begin, TrackerReply::Nothing) => if !s.to_file {
            start_call(s, StartStage::Offline, TrackerCall::SetOfflineMode)
        } else if s.bad_name is Some {
            start_call(s, StartStage::BadName, TrackerCall::CloseConnection)
        } else {
            start_call(s, StartStage::OpenFile, TrackerCall::OpenDataFile)
        },
        (StartStage::BadName, TrackerReply::Nothing) => match s.bad_name {
            Some(at) => start_failed(s, Fault::FileName(at)),
            None => start_failed(s, Fault::Protocol),
        },
        (StartStage::OpenFile, TrackerReply::Status(r)) => if r == 0 {
            start_call(
                s,
                StartStage::Preamble,
                TrackerCall::SendCommand(Command::AddFilePreamble),
            )
        } else {
            start_call(s, StartStage::Abort(r), TrackerCall::CloseConnection)
        },
        (StartStage::Abort(code), TrackerReply::Nothing) => start_failed(s, Fault::Api(code)),
        (StartStage::Preamble, TrackerReply::Status(r)) => start_sent(
            s,
            r,
            Command::AddFilePreamble,
            StartStage::Version,
            TrackerCall::GetTrackerVersion,
        ),
        (StartStage::Version, TrackerReply::Version(_, software)) => start_call(
            StartState { software, ..s },
            StartStage::EventFilter,
            TrackerCall::SendCommand(Command::FileEventFilter),
        ),
        (StartStage::EventFilter, TrackerReply::Status(r)) => start_sent(
            s,
            r,
            Command::FileEventFilter,
            StartStage::SampleData,
            TrackerCall::SendCommand(Command::FileSampleData { htarget: s.software >= 4 }),
        ),
        (StartStage::SampleData, TrackerReply::Status(r)) => start_sent(
            s,
            r,
            Command::FileSampleData { htarget: s.software >= 4 },
            StartStage::Offline,
            TrackerCall::SetOfflineMode,
        ),
        (StartStage::Offline, TrackerReply::Nothing) => start_call(
            s,
            StartStage::Delay,
            TrackerCall::MsecDelay(50),
        ),
        (StartStage::Delay, TrackerReply::Nothing) => start_call(
            s,
            StartStage::Start,
            TrackerCall::StartRecording {
                file_samples: s.to_file,
                file_events: s.to_file,
                link_samples: true,
                link_events: true,
            },
        ),
        (StartStage::Start, TrackerReply::Status(r)) => if r == 0 {
            start_call(s, StartStage::Realtime, TrackerCall::BeginRealtimeMode(100))
        } else {
            start_failed(s, Fault::Api(r))
        },
        (StartStage::Realtime, TrackerReply::Nothing) => (
            StartState { stage: StartStage::Finished, ..s },
            Step::Done,
        ),
        (StartStage::Finished, _) => (s, Step::Done),
        _ => start_failed(s, Fault::Protocol),
    }
}

/// How many calls the script that starts a recording can still make from a
/// stage, at most.
pub open spec fn start_rank(stage: StartStage) -> nat {
    match stage {
        StartStage::Begin => 10,
        StartStage::OpenFile => 9,
        StartStage::Preamble => 8,
        StartStage::Version => 7,
        StartStage::EventFilter => 6,
        StartStage::SampleData => 5,
        StartStage::Offline => 4,
        StartStage::Delay => 3,
        StartStage::Start => 2,
        StartStage::Realtime => 1,
        StartStage::Abort(_) => 1,
        StartStage::BadName => 1,
        StartStage::Finished => 0,
    }
}

impl StartState {
    /// The state before the first step. `edf` names the data file, if the
    /// recording is to go to one.
    pub fn new(edf: Option<&str>) -> (s: StartState)
        ensures
            s == (StartState {
                stage: StartStage::Begin,
                to_file: edf is Some,
                bad_name: match edf {
                    Some(name) => nul_in(name@),
                    None => None,
                },
                software: 0,
            }),
    {
        match edf {
            None => StartState {
                stage: StartStage::Begin,
                to_file: false,
                bad_name: None,
                software: 0,
            },
            Some(name) => StartState {
                stage: StartStage::Begin,
                to_file: true,
                bad_name: find_nul(name),
                software: 0,
            },
        }
    }
}

/// Starts an eye-trace recording: one step of the script.
///
/// The first step takes `StartState::new` and `TrackerReply::Nothing`. Every
/// later step takes the state that the step before returned and the answer to
/// the call that it asked for. Each call brings the script nearer to its end.
pub fn start_recording(state: StartState, reply: TrackerReply) -> (r: (StartState, Step))
    ensures
        r == start_step(state, reply),
        r.1 is Call ==> start_rank(r.0.stage) < start_rank(state.stage),
        !(r.1 is Call) ==> r.0.stage == StartStage::Finished,
{
    let failed = |fault: Fault| -> (o: (StartState, Step))
        ensures
            o == start_failed(state, fault),
        { (StartState { stage: StartStage::Finished, ..state }, Step::Failed(fault)) };
    let call = |stage: StartStage, c: TrackerCall| -> (o: (StartState, Step))
        ensures
            o == start_call(state, stage, c),
        { (StartState { stage, ..state }, Step::Call(c)) };
    let file_data = Command::FileSampleData { htarget: state.software >= 4 };
    match (state.stage, reply) {
        (StartStage::Begin, TrackerReply::Nothing) => if !state.to_file {
            call(StartStage::Offline, TrackerCall::SetOfflineMode)
        } else if state.bad_name.is_some() {
            call(StartStage::BadName, TrackerCall::CloseConnection)
        } else {
            call(StartStage::OpenFile, TrackerCall::OpenDataFile)
        },
        (StartStage::BadName, TrackerReply::Nothing) => match state.bad_name {
            Some(at) => failed(Fault::FileName(at)),
            None => failed(Fault::Protocol),
        },
        (StartStage::OpenFile, TrackerReply::Status(r)) => if r == 0 {
            call(StartStage::Preamble, TrackerCall::SendCommand(Command::AddFilePreamble))
        } else {
            call(StartStage::Abort(r), TrackerCall::CloseConnection)
        },
        (StartStage::Abort(code), TrackerReply::Nothing) => failed(Fault::Api(code)),
        (StartStage::Preamble, TrackerReply::Status(r)) => if r == 0 {
            call(StartStage::Version, TrackerCall::GetTrackerVersion)
        } else {
            failed(Fault::Refused(Command::AddFilePreamble))
        },
        (StartStage::Version, TrackerReply::Version(_, software)) => (
            StartState { stage: StartStage::EventFilter, software, ..state },
            Step::Call(TrackerCall::SendCommand(Command::FileEventFilter)),
        ),
        (StartStage::EventFilter, TrackerReply::Status(r)) => if r == 0 {
            call(StartStage::SampleData, TrackerCall::SendCommand(file_data))
        } else {
            failed(Fault::Refused(Command::FileEventFilter))
        },
        (StartStage::SampleData, TrackerReply::Status(r)) => if r == 0 {
            call(StartStage::Offline, TrackerCall::SetOfflineMode)
        } else {
            failed(Fault::Refused(file_data))
        },
        (StartStage::Offline, TrackerReply::Nothing) => call(
            StartStage::Delay,
            TrackerCall::MsecDelay(50),
        ),
        (StartStage::Delay, TrackerReply::Nothing) => call(
            StartStage::Start,
            TrackerCall::StartRecording {
                file_samples: state.to_file,
                file_events: state.to_file,
                link_samples: true,
                link_events: true,
            },
        ),
        (StartStage::Start, TrackerReply::Status(r)) => if r == 0 {
            call(StartStage::Realtime, TrackerCall::BeginRealtimeMode(100))
        } else {
            failed(Fault::Api(r))
        },
        (StartStage::Realtime, TrackerReply::Nothing) => (
            StartState { stage: StartStage::Finished, ..state },
            Step::Done,
        ),
        (StartStage::Finished, _) => (state, Step::Done),
        _ => failed(Fault::Protocol),
    }
}

/// The calls that the script that starts a recording makes with a willing
/// tracker, from the step that takes `reply` in state `s`, as far as `fuel`
/// calls.
pub open spec fn start_calls(s: StartState, reply: TrackerReply, software: i16, fuel: nat) -> Seq<
    TrackerCall,
>
    decreases fuel,
{
    if fuel == 0 {
        Seq::empty()
    } else {
        match start_step(s, reply).1 {
            Step::Call(call) => seq![call] + start_calls(
                start_step(s, reply).0,
                willing(call, 0, software),
                software,
                (fuel - 1) as nat,
            ),
            _ => Seq::empty(),
        }
    }
}

/// The script that starts a recording as a whole: with a willing tracker
/// and a data file it opens the file, writes the preamble, asks for the
/// version and sets what the file holds; with or without a file it then
/// goes offline, waits, starts recording and enters realtime mode.
pub proof fn lemma_start_script(to_file: bool, software: i16)
    ensures
        start_calls(
            StartState { stage: StartStage::Begin, to_file, bad_name: None, software: 0 },
            TrackerReply::Nothing,
            software,
            10,
        ) == (if to_file {
            seq![
                TrackerCall::OpenDataFile,
                TrackerCall::SendCommand(Command::AddFilePreamble),
                TrackerCall::GetTrackerVersion,
                TrackerCall::SendCommand(Command::FileEventFilter),
                TrackerCall::SendCommand(Command::FileSampleData { htarget: software >= 4 }),
            ]
        } else {
            Seq::empty()
        }) + seq![
            TrackerCall::SetOfflineMode,
            TrackerCall::MsecDelay(50),
            TrackerCall::StartRecording {
                file_samples: to_file,
                file_events: to_file,
                link_samples: true,
                link_events: true,
            },
            TrackerCall::BeginRealtimeMode(100),
        ],
{
    reveal_with_fuel(start_calls, 11);
    let run = start_calls(
        StartState { stage: StartStage::Begin, to_file, bad_name: None, software: 0 },
        TrackerReply::Nothing,
        software,
        10,
    );
    let tail = seq![
        TrackerCall::SetOfflineMode,
        TrackerCall::MsecDelay(50),
        TrackerCall::StartRecording {
            file_samples: to_file,
            file_events: to_file,
            link_samples: true,
            link_events: true,
        },
        TrackerCall::BeginRealtimeMode(100),
    ];
    if to_file {
        assert(run =~= seq![
            TrackerCall::OpenDataFile,
            TrackerCall::SendCommand(Command::AddFilePreamble),
            TrackerCall::GetTrackerVersion,
            TrackerCall::SendCommand(Command::FileEventFilter),
            TrackerCall::SendCommand(Command::FileSampleData { htarget: software >= 4 }),
        ] + tail);
    } else {
        assert(run =~= Seq::<TrackerCall>::empty() + tail);
    }
}

/// Where the script that stops a recording stands: the call whose answer is
/// due.
#[derive(Copy, Clone, Debug, PartialEq, Eq, Structural)]
pub enum StopStage {
    Begin,
    EndRealtime,
    Settle,
    Stop,
    Offline,
    Delay,
    Break,
    Close,
    Connected,
    CloseFile,
    Receive,
    Finished,
}

/// State of the script that stops a recording.
#[derive(Copy, Clone, Debug, PartialEq, Eq, Structural)]
pub struct StopState {
    pub stage: StopStage,
    /// Whether a data file is to be fetched.
    pub to_file: bool,
    /// Position of the first NUL byte in the name of the data file, counted
    /// in the bytes of the name in UTF-8.
    pub bad_name: Option<usize>,
    /// Whether the connection was reported closed.
    pub closed: bool,
}

/// Shortest wait, in milliseconds, between offline mode and the next call.
pub const MIN_DELAY_MS: u32 = 500;

/// The script has ended on `fault`.
pub open spec fn stop_failed(s: StopState, fault: Fault) -> (StopState, Step) {
    (StopState { stage: StopStage::Finished, ..s }, Step::Failed(fault))
}

/// The script goes on to `stage` with `call`.
pub open spec fn stop_call(s: StopState, stage: StopStage, call: TrackerCall) -> (StopState, Step) {
    (StopState { stage, ..s }, Step::Call(call))
}

/// The script has ended well.
pub open spec fn stop_done(s: StopState) -> (StopState, Step) {
    (StopState { stage: StopStage::Finished, ..s }, Step::Done)
}

/// One step of the script that stops a recording.
///
/// The script leaves realtime mode, waits 100 ms, stops the recording, puts
/// the tracker in offline mode and waits `MIN_DELAY_MS`. If the break key was
/// pressed it closes the connection and ends there. Otherwise it asks for
/// the state of the connection and, where there is a data file, closes the
/// file and fetches it; a closed connection, or a transfer that gives no
/// file, ends the script on a fault.
pub open spec fn stop_step(s: StopState, reply: TrackerReply) -> (StopState, Step) {
    match (s.stage, reply) {
        (StopStage::Begin, TrackerReply::Nothing) => stop_call(
            s,
            StopStage::EndRealtime,
            TrackerCall::EndRealtimeMode,
        ),
        (StopStage::EndRealtime, TrackerReply::Nothing) => stop_call(
            s,
            StopStage::Settle,
            TrackerCall::MsecDelay(100),
        ),
        (StopStage::Settle, TrackerReply::Nothing) => stop_call(
            s,
            StopStage::Stop,
            TrackerCall::StopRecording,
        ),
        (StopStage::Stop, TrackerReply::Nothing) => stop_call(
            s,
            StopStage::Offline,
            TrackerCall::SetOfflineMode,
        ),
        (StopStage::Offline, TrackerReply::Nothing) => stop_call(
            s,
            StopStage::Delay,
            TrackerCall::MsecDelay(MIN_DELAY_MS),
        ),
        (StopStage::Delay, TrackerReply::Nothing) => stop_call(
            s,
            StopStage::Break,
            TrackerCall::BreakPressed,
        ),
        (StopStage::Break, TrackerReply::Status(r)) => if r == 1 {
            stop_call(s, StopStage::Close, TrackerCall::CloseConnection)
        } else if r == 0 {
            stop_call(s, StopStage::Connected, TrackerCall::IsConnected)
        } else {
            stop_failed(s, Fault::Api(r))
        },
        (StopStage::Close, TrackerReply::Nothing) => stop_done(s),
        (StopStage::Connected, TrackerReply::Status(r)) => match connection_reply(r) {
            None => stop_failed(s, Fault::Api(r)),
            Some(status) => if s.to_file {
                stop_call(
                    StopState { closed: status == ConnectionStatus::Closed, ..s },
                    StopStage::CloseFile,
                    TrackerCall::SendCommand(Command::CloseDataFile),
                )
            } else {
                stop_done(s)
            },
        },
        (StopStage::CloseFile, TrackerReply::Status(r)) => if r != 0 {
            stop_failed(s, Fault::Refused(Command::CloseDataFile))
        } else if s.closed {
            stop_failed(s, Fault::Transfer)
        } else {
            match s.bad_name {
                Some(at) => stop_failed(s, Fault::FileName(at)),
                None => stop_call(s, StopStage::Receive, TrackerCall::ReceiveDataFile),
            }
        },
        (StopStage::Receive, TrackerReply::Size(n)) => if n == 0 || n == FILE_CANT_OPEN || n
            == FILE_XFER_ABORTED {
            stop_failed(s, Fault::Data(n))
        } else {
            stop_done(s)
        },
        (StopStage::Finished, _) => (s, Step::Done),
        _ => stop_failed(s, Fault::Protocol),
    }
}

/// How many calls the script that stops a recording can still make from a
/// stage, at most.
pub open spec fn stop_rank(stage: StopStage) -> nat {
    match stage {
        StopStage::Begin => 10,
        StopStage::EndRealtime => 9,
        StopStage::Settle => 8,
        StopStage::Stop => 7,
        StopStage::Offline => 6,
        StopStage::Delay => 5,
        StopStage::Break => 4,
        StopStage::Connected => 3,
        StopStage::CloseFile => 2,
        StopStage::Receive => 1,
        StopStage::Close => 1,
        StopStage::Finished => 0,
    }
}

impl StopState {
    /// The state before the first step. `edf` names the data file, if one
    /// is to be fetched.
    pub fn new(edf: Option<&str>) -> (s: StopState)
        ensures
            s == (StopState {
                stage: StopStage::Begin,
                to_file: edf is Some,
                bad_name: match edf {
                    Some(name) => nul_in(name@),
                    None => None,
                },
                closed: false,
            }),
    {
        match edf {
            None => StopState {
                stage: StopStage::Begin,
                to_file: false,
                bad_name: None,
                closed: false,
            },
            Some(name) => StopState {
                stage: StopStage::Begin,
                to_file: true,
                bad_name: find_nul(name),
                closed: false,
            },
        }
    }
}

/// Stops the eye-trace recording and fetches the data file: one step of the
/// script.
///
/// The first step takes `StopState::new` and `TrackerReply::Nothing`. Every
/// later step takes the state that the step before returned and the answer to
/// the call that it asked for. Each call brings the script nearer to its end.
pub fn stop_recording(state: StopState, reply: TrackerReply) -> (r: (StopState, Step))
    ensures
        r == stop_step(state, reply),
        r.1 is Call ==> stop_rank(r.0.stage) < stop_rank(state.stage),
        !(r.1 is Call) ==> r.0.stage == StopStage::Finished,
{
    let failed = |fault: Fault| -> (o: (StopState, Step))
        ensures
            o == stop_failed(state, fault),
        { (StopState { stage: StopStage::Finished, ..state }, Step::Failed(fault)) };
    let call = |stage: StopStage, c: TrackerCall| -> (o: (StopState, Step))
        ensures
            o == stop_call(state, stage, c),
        { (StopState { stage, ..state }, Step::Call(c)) };
    let done = (StopState { stage: StopStage::Finished, ..state }, Step::Done);
    match (state.stage, reply) {
        (StopStage::Begin, TrackerReply::Nothing) => call(
            StopStage::EndRealtime,
            TrackerCall::EndRealtimeMode,
        ),
        (StopStage::EndRealtime, TrackerReply::Nothing) => call(
            StopStage::Settle,
            TrackerCall::MsecDelay(100),
        ),
        (StopStage::Settle, TrackerReply::Nothing) => call(
            StopStage::Stop,
            TrackerCall::StopRecording,
        ),
        (StopStage::Stop, TrackerReply::Nothing) => call(
            StopStage::Offline,
            TrackerCall::SetOfflineMode,
        ),
        (StopStage::Offline, TrackerReply::Nothing) => call(
            StopStage::Delay,
            TrackerCall::MsecDelay(MIN_DELAY_MS),
        ),
        (StopStage::Delay, TrackerReply::Nothing) => call(
            StopStage::Break,
            TrackerCall::BreakPressed,
        ),
        (StopStage::Break, TrackerReply::Status(r)) => if r == 1 {
            call(StopStage::Close, TrackerCall::CloseConnection)
        } else if r == 0 {
            call(StopStage::Connected, TrackerCall::IsConnected)
        } else {
            failed(Fault::Api(r))
        },
        (StopStage::Close, TrackerReply::Nothing) => done,
        (StopStage::Connected, TrackerReply::Status(r)) => if !(r == 0 || r == -1 || r == 1 || r
            == 2) {
            failed(Fault::Api(r))
        } else if state.to_file {
            (
                StopState { stage: StopStage::CloseFile, closed: r == 0, ..state },
                Step::Call(TrackerCall::SendCommand(Command::CloseDataFile)),
            )
        } else {
            done
        },
        (StopStage::CloseFile, TrackerReply::Status(r)) => if r != 0 {
            failed(Fault::Refused(Command::CloseDataFile))
        } else if state.closed {
            failed(Fault::Transfer)
        } else {
            match state.bad_name {
                Some(at) => failed(Fault::FileName(at)),
                None => call(StopStage::Receive, TrackerCall::ReceiveDataFile),
            }
        },
        (StopStage::Receive, TrackerReply::Size(n)) => if n == 0 || n == FILE_CANT_OPEN || n
            == FILE_XFER_ABORTED {
            failed(Fault::Data(n))
        } else {
            done
        },
        (StopStage::Finished, _) => (state, Step::Done),
        _ => failed(Fault::Protocol),
    }
}

/// The calls that the script that stops a recording makes with a willing
/// tracker, from the step that takes `reply` in state `s`, as far as `fuel`
/// calls.
pub open spec fn stop_calls(s: StopState, reply: TrackerReply, fuel: nat) -> Seq<TrackerCall>
    decreases fuel,
{
    if fuel == 0 {
        Seq::empty()
    } else {
        match stop_step(s, reply).1 {
            Step::Call(call) => seq![call] + stop_calls(
                stop_step(s, reply).0,
                willing(call, 0, 0),
                (fuel - 1) as nat,
            ),
            _ => Seq::empty(),
        }
    }
}

/// The script that stops a recording as a whole: with a willing tracker it
/// leaves realtime mode, waits, stops the recording, goes offline, waits,
/// asks for the break key and the connection, and with a data file closes
/// and fetches the file.
pub proof fn lemma_stop_script(to_file: bool)
    ensures
        stop_calls(
            StopState { stage: StopStage::Begin, to_file, bad_name: None, closed: false },
            TrackerReply::Nothing,
            10,
        ) == seq![
            TrackerCall::EndRealtimeMode,
            TrackerCall::MsecDelay(100),
            TrackerCall::StopRecording,
            TrackerCall::SetOfflineMode,
            TrackerCall::MsecDelay(MIN_DELAY_MS),
            TrackerCall::BreakPressed,
            TrackerCall::IsConnected,
        ] + (if to_file {
            seq![TrackerCall::SendCommand(Command::CloseDataFile), TrackerCall::ReceiveDataFile]
        } else {
            Seq::empty()
        }),
{
    reveal_with_fuel(stop_calls, 11);
    let run = stop_calls(
        StopState { stage: StopStage::Begin, to_file, bad_name: None, closed: false },
        TrackerReply::Nothing,
        10,
    );
    let head = seq![
        TrackerCall::EndRealtimeMode,
        TrackerCall::MsecDelay(100),
        TrackerCall::StopRecording,
        TrackerCall::SetOfflineMode,
        TrackerCall::MsecDelay(MIN_DELAY_MS),
        TrackerCall::BreakPressed,
        TrackerCall::IsConnected,
    ];
    if to_file {
        assert(run =~= head + seq![
            TrackerCall::SendCommand(Command::CloseDataFile),
            TrackerCall::ReceiveDataFile,
        ]);
    } else {
        assert(run =~= head + Seq::<TrackerCall>::empty());
    }
}

/// Where the calibration script stands: the call whose answer is due.
#[derive(Copy, Clone, Debug, PartialEq, Eq, Structural)]
pub enum CalStage {
    Begin,
    Coords,
    Setup,
    Drift,
    Finished,
}

/// State of the calibration script.
#[derive(Copy, Clone, Debug, PartialEq, Eq, Structural)]
pub struct CalState {
    pub stage: CalStage,
    /// Width of the display in pixels.
    pub width: u32,
    /// Height of the display in pixels.
    pub height: u32,
}

/// Half of a display dimension as a target coordinate; it is kept at the
/// largest coordinate where it would pass it.
pub open spec fn half_way(extent: u32) -> i16 {
    if extent / 2 > i16::MAX {
        i16::MAX
    } else {
        (extent / 2) as i16
    }
}

/// The drift correction at the centre of the display.
pub open spec fn centre_drift_correct(s: CalState) -> TrackerCall {
    TrackerCall::DoDriftCorrect { x: half_way(s.width), y: half_way(s.height) }
}

/// One step of the calibration script.
///
/// The script tells the tracker the size of the display, runs the tracker's
/// set-up and calibration, and then corrects the drift with a target at the
/// centre of the display, again for as long as the correction is left with
/// the escape key.
pub open spec fn calibration_step(s: CalState, reply: TrackerReply) -> (CalState, Step) {
    let coords = Command::ScreenPixelCoords { width: s.width, height: s.height };
    match (s.stage, reply) {
        (CalStage::Begin, TrackerReply::Nothing) => (
            CalState { stage: CalStage::Coords, ..s },
            Step::Call(TrackerCall::SendCommand(coords)),
        ),
        (CalStage::Coords, TrackerReply::Status(r)) => if r == 0 {
            (CalState { stage: CalStage::Setup, ..s }, Step::Call(TrackerCall::DoTrackerSetup))
        } else {
            (CalState { stage: CalStage::Finished, ..s }, Step::Failed(Fault::Refused(coords)))
        },
        (CalStage::Setup, TrackerReply::Nothing) => (
            CalState { stage: CalStage::Drift, ..s },
            Step::Call(centre_drift_correct(s)),
        ),
        (CalStage::Drift, TrackerReply::Status(r)) => if r == crate::tracker::ESC_KEY {
            (s, Step::Call(centre_drift_correct(s)))
        } else {
            (CalState { stage: CalStage::Finished, ..s }, Step::Done)
        },
        (CalStage::Finished, _) => (s, Step::Done),
        _ => (CalState { stage: CalStage::Finished, ..s }, Step::Failed(Fault::Protocol)),
    }
}

/// Half of a display dimension as a target coordinate.
fn half(extent: u32) -> (h: i16)
    ensures
        h == half_way(extent),
{
    if extent / 2 > i16::MAX as u32 {
        i16::MAX
    } else {
        (extent / 2) as i16
    }
}

impl CalState {
    /// The state before the first step, for a display of the given size.
    pub fn new(width: u32, height: u32) -> (s: CalState)
        ensures
            s == (CalState { stage: CalStage::Begin, width, height }),
    {
        CalState { stage: CalStage::Begin, width, height }
    }
}

/// Runs a calibration and a drift correction: one step of the script.
///
/// The first step takes `CalState::new` and `TrackerReply::Nothing`, after
/// the calibration display was opened. Every later step takes the state that
/// the step before returned and the answer to the call that it asked for.
/// When the script has ended, the calibration display is closed.
pub fn run_calibration(state: CalState, reply: TrackerReply) -> (r: (CalState, Step))
    ensures
        r == calibration_step(state, reply),
        !(r.1 is Call) ==> r.0.stage == CalStage::Finished,
{
    let coords = Command::ScreenPixelCoords { width: state.width, height: state.height };
    let drift = TrackerCall::DoDriftCorrect { x: half(state.width), y: half(state.height) };
    match (state.stage, reply) {
        (CalStage::Begin, TrackerReply::Nothing) => (
            CalState { stage: CalStage::Coords, ..state },
            Step::Call(TrackerCall::SendCommand(coords)),
        ),
        (CalStage::Coords, TrackerReply::Status(r)) => if r == 0 {
            (CalState { stage: CalStage::Setup, ..state }, Step::Call(TrackerCall::DoTrackerSetup))
        } else {
            (CalState { stage: CalStage::Finished, ..state }, Step::Failed(Fault::Refused(coords)))
        },
        (CalStage::Setup, TrackerReply::Nothing) => (
            CalState { stage: CalStage::Drift, ..state },
            Step::Call(drift),
        ),
        (CalStage::Drift, TrackerReply::Status(r)) => if r == crate::tracker::ESC_KEY {
            (state, Step::Call(drift))
        } else {
            (CalState { stage: CalStage::Finished, ..state }, Step::Done)
        },
        (CalStage::Finished, _) => (state, Step::Done),
        _ => (CalState { stage: CalStage::Finished, ..state }, Step::Failed(Fault::Protocol)),
    }
}

} // verus!
