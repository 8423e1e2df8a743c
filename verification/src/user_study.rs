//! The state machine of the user study.
//!
//! A session shows one video under a series of artificial delays. For each
//! delay the participant switches between ten quality presets with the digit
//! keys and accepts one of them. The machine here takes the key events and
//! says what to show next. Playing the videos, calibrating the tracker and
//! keeping the log are the caller's.

use vstd::prelude::*;
use crate::{Crf, FvideoServerError};

verus! {

/// A command for the encoder thread.
#[derive(Copy, Clone, Debug, PartialEq, Eq, Structural)]
pub enum ServerCmd {
    Start,
    Stop,
}

/// The videos of the study.
#[derive(Copy, Clone, Debug, PartialEq, Eq, Structural)]
pub enum Source {
    PierSeaside,
    Barscene,
    SquareTimelapse,
    Rollercoaster,
    ToddlerFountain,
}

/// A quality preset.
#[derive(Copy, Clone, Debug, PartialEq, Eq, Structural)]
pub struct Quality {
    /// Size of the fovea in macroblocks.
    pub fg_size: u32,
    /// Rate factor of the foreground.
    pub fg_crf: Crf,
    /// Width of the background in pixels.
    pub bg_size: u32,
    /// Rate factor of the background.
    pub bg_crf: Crf,
}

/// An artificial delay with its ten quality presets.
#[derive(Copy, Clone, Debug, PartialEq)]
pub struct Delay {
    /// The delay in milliseconds.
    pub delay: u64,
    /// The presets that the digit keys 0 to 9 select.
    pub presets: [Quality; 10],
}

/// The settings of a video: how often each delay is shown.
#[derive(Clone, Debug)]
pub struct Video {
    pub attempts: u32,
    pub delays: Vec<Delay>,
}

/// What can go wrong in a session.
#[derive(Debug)]
pub enum UserStudyError {
    /// The player could not show this video.
    MpvError(String),
    /// No preset has this number.
    InvalidQuality(u32),
    /// Reading or writing failed; the message is the system's.
    IoError(String),
    /// The settings could not be read; the message is the reader's.
    TomlError(String),
    FvideoServerError(FvideoServerError),
    /// The display is gone.
    SendNalError,
    /// The encoder is gone.
    SendGazeError,
    /// The encoder is gone.
    SendCmdError,
}

/// The states of a session.
#[derive(Copy, Clone, Debug, PartialEq, Eq, Structural)]
pub enum State {
    Video { quality: u32 },
    Accept { quality: u32 },
    Pause,
    Init,
    Calibrate,
    Baseline,
    Quit,
}

/// The events that move a session from state to state.
#[derive(Copy, Clone, Debug, PartialEq, Eq, Structural)]
pub enum Event {
    Accept,
    Quit,
    Baseline,
    Calibrate,
    Pause,
    Resume,
    Video { quality: u32 },
    /// Nothing happened.
    Idle,
}

/// A key pressed at the terminal.
#[derive(Copy, Clone, Debug, PartialEq, Eq, Structural)]
pub enum Key {
    Esc,
    /// A character typed together with the control key.
    Ctrl(char),
    Char(char),
    Other,
}

/// A key pressed while a video plays.
#[derive(Copy, Clone, Debug, PartialEq, Eq, Structural)]
pub enum PlayKey {
    Escape,
    P,
    C,
    B,
    Return,
    /// A digit key.
    Num(u8),
    Other,
}

/// What the caller is to do after a step.
#[derive(Copy, Clone, Debug, PartialEq)]
pub enum Action {
    /// Nothing.
    Wait,
    /// Calibrate the tracker.
    Calibrate,
    /// Play the uncompressed version of this video, then call
    /// `baseline_played`.
    PlayBaseline(Source),
    /// Play the video with this delay in milliseconds and this preset, and
    /// hand the keys pressed meanwhile to `key_pressed`.
    PlayVideo { delay: u64, quality: Quality },
}

/// A session of the user study.
#[derive(Debug)]
pub struct UserStudy {
    /// The delays that are still to be shown; the last one is the current
    /// one.
    pub delays: Vec<Delay>,
    pub state: State,
    /// Name of the participant.
    pub name: String,
    pub source: Source,
    /// Where the session's output goes, if it is kept.
    pub output: Option<String>,
}

/// The state after an event.
///
/// Quitting, calibrating, the baseline and the choice of a preset are always
/// possible. A video can be paused or accepted, a pause can be left for the
/// best preset. Every other event leaves the state as it is.
pub open spec fn next_state(state: State, event: Event) -> State {
    match (state, event) {
        (_, Event::Quit) => State::Quit,
        (_, Event::Calibrate) => State::Calibrate,
        (_, Event::Baseline) => State::Baseline,
        (_, Event::Video { quality }) => State::Video { quality },
        (State::Video { quality }, Event::Pause) => State::Pause,
        (State::Pause, Event::Resume) => State::Video { quality: 0 },
        (State::Video { quality }, Event::Accept) => State::Accept { quality },
        _ => state,
    }
}

/// The event for a key pressed at the terminal.
pub open spec fn key_event(key: Key) -> Event {
    match key {
        Key::Esc => Event::Quit,
        Key::Ctrl(c) => if c == 'c' {
            Event::Quit
        } else {
            Event::Idle
        },
        Key::Char(c) => if '0' <= c <= '9' {
            Event::Video { quality: (c as u32 - '0' as u32) as u32 }
        } else if c == '\n' {
            Event::Accept
        } else if c == 'p' {
            Event::Pause
        } else if c == 'c' {
            Event::Calibrate
        } else if c == 'b' {
            Event::Baseline
        } else if c == 'r' {
            Event::Resume
        } else {
            Event::Idle
        },
        Key::Other => Event::Idle,
    }
}

/// The event for a key pressed while a video plays; `None` for a key that
/// means nothing there.
pub open spec fn play_key_event(key: PlayKey) -> Option<Event> {
    match key {
        PlayKey::Escape => Some(Event::Quit),
        PlayKey::P => Some(Event::Pause),
        PlayKey::C => Some(Event::Calibrate),
        PlayKey::B => Some(Event::Baseline),
        PlayKey::Return => Some(Event::Accept),
        PlayKey::Num(n) => if n <= 9 {
            Some(Event::Video { quality: n as u32 })
        } else {
            None
        },
        PlayKey::Other => None,
    }
}

/// `n` copies of `delays`, one after the other.
pub open spec fn repeated(delays: Seq<Delay>, n: nat) -> Seq<Delay>
    decreases n,
{
    if n == 0 {
        Seq::empty()
    } else {
        repeated(delays, (n - 1) as nat) + delays
    }
}

/// What a step does in a state: the state after it and what the caller is
/// to do. `current` is the delay that is being shown, if one is left, and
/// `left` tells whether one is left after that.
pub open spec fn step_of(state: State, source: Source, current: Option<Delay>, left: bool) -> (
    State,
    Result<Action, u32>,
) {
    match state {
        State::Init => (State::Calibrate, Ok(Action::Wait)),
        State::Accept { quality } => if left {
            (State::Pause, Ok(Action::Wait))
        } else {
            (State::Quit, Ok(Action::Wait))
        },
        State::Pause => (State::Pause, Ok(Action::Wait)),
        State::Calibrate => (State::Pause, Ok(Action::Calibrate)),
        State::Baseline => (State::Baseline, Ok(Action::PlayBaseline(source))),
        State::Video { quality } => match current {
            None => (State::Quit, Ok(Action::Wait)),
            Some(d) => if quality <= 9 {
                (
                    state,
                    Ok(Action::PlayVideo { delay: d.delay, quality: d.presets[quality as int] }),
                )
            } else {
                (state, Err(quality))
            },
        },
        State::Quit => (State::Quit, Ok(Action::Wait)),
    }
}

impl Source {
    /// Path of the uncompressed video.
    pub fn baseline(self) -> (path: &'static str)
        ensures
            path@ == self.spec_baseline(),
    {
        match self {
            Source::PierSeaside => "data/pierseaside.h264",
            Source::ToddlerFountain => "data/toddlerfountain.h264",
            Source::SquareTimelapse => "data/square_timelapse.h264",
            Source::Barscene => "data/barscene.h264",
            Source::Rollercoaster => "data/rollercoaster.h264",
        }
    }

    /// Path of the uncompressed video.
    pub open spec fn spec_baseline(self) -> Seq<char> {
        match self {
            Source::PierSeaside => "data/pierseaside.h264"@,
            Source::ToddlerFountain => "data/toddlerfountain.h264"@,
            Source::SquareTimelapse => "data/square_timelapse.h264"@,
            Source::Barscene => "data/barscene.h264"@,
            Source::Rollercoaster => "data/rollercoaster.h264"@,
        }
    }

    /// Path of the source video.
    pub fn video(self) -> (path: &'static str)
        ensures
            path@ == self.spec_video(),
    {
        match self {
            Source::PierSeaside => "/home/lukehsiao/Videos/Netflix_PierSeaside_3840x2160_60fps_yuv420p.y4m",
            Source::ToddlerFountain => "/home/lukehsiao/Videos/Netflix_ToddlerFountain_3840x2160_60fps_yuv420p.y4m",
            Source::SquareTimelapse => "/home/lukehsiao/Videos/Netflix_SquareAndTimelapse_3840x2160_60fps_yuv420p.y4m",
            Source::Barscene => "/home/lukehsiao/Videos/Netflix_BarScene_3840x2160_60fps_yuv420p.y4m",
            Source::Rollercoaster => "/home/lukehsiao/Videos/Netflix_RollerCoaster_3840x2160_60fps_yuv420p.y4m",
        }
    }

    /// Path of the source video.
    pub open spec fn spec_video(self) -> Seq<char> {
        match self {
            Source::PierSeaside => "/home/lukehsiao/Videos/Netflix_PierSeaside_3840x2160_60fps_yuv420p.y4m"@,
            Source::ToddlerFountain => "/home/lukehsiao/Videos/Netflix_ToddlerFountain_3840x2160_60fps_yuv420p.y4m"@,
            Source::SquareTimelapse => "/home/lukehsiao/Videos/Netflix_SquareAndTimelapse_3840x2160_60fps_yuv420p.y4m"@,
            Source::Barscene => "/home/lukehsiao/Videos/Netflix_BarScene_3840x2160_60fps_yuv420p.y4m"@,
            Source::Rollercoaster => "/home/lukehsiao/Videos/Netflix_RollerCoaster_3840x2160_60fps_yuv420p.y4m"@,
        }
    }

    /// Name of the video in the settings.
    pub fn key(self) -> (name: &'static str)
        ensures
            name@ == self.spec_key(),
    {
        match self {
            Source::PierSeaside => "pier_seaside",
            Source::ToddlerFountain => "toddler_fountain",
            Source::SquareTimelapse => "square_timelapse",
            Source::Barscene => "barscene",
            Source::Rollercoaster => "rollercoaster",
        }
    }

    /// Name of the video in the settings.
    pub open spec fn spec_key(self) -> Seq<char> {
        match self {
            Source::PierSeaside => "pier_seaside"@,
            Source::ToddlerFountain => "toddler_fountain"@,
            Source::SquareTimelapse => "square_timelapse"@,
            Source::Barscene => "barscene"@,
            Source::Rollercoaster => "rollercoaster"@,
        }
    }
}

/// Puts the delays in a random order.
///
/// Calls `rand::seq::SliceRandom::shuffle` with the generator that
/// `rand::thread_rng` gives. Trusted: the call permutes the elements, so the
/// vector holds the same delays as before, each as often as before. Nothing
/// is claimed of their order.
#[verifier::external_body]
fn shuffle(delays: &mut Vec<Delay>)
    ensures
        final(delays)@.to_multiset() == old(delays)@.to_multiset(),
{
    rand::seq::SliceRandom::shuffle(delays.as_mut_slice(), &mut rand::thread_rng());
}

/// Makes the queue of delays before it is shuffled: `attempts` copies of
/// the delays of the settings.
fn queue_delays(setting: &Video) -> (delays: Vec<Delay>)
    ensures
        delays@ == repeated(setting.delays@, setting.attempts as nat),
{
    let mut delays: Vec<Delay> = Vec::new();
    let mut round: u32 = 0;
    while round < setting.attempts
        invariant
            round <= setting.attempts,
            delays@ == repeated(setting.delays@, round as nat),
        decreases setting.attempts - round,
    {
        let ghost before = delays@;
        let mut k: usize = 0;
        while k < setting.delays.len()
            invariant
                k <= setting.delays.len(),
                delays@ == before + setting.delays@.take(k as int),
            decreases setting.delays.len() - k,
        {
            delays.push(setting.delays[k]);
            proof {
                assert(setting.delays@.take(k + 1) =~= setting.delays@.take(k as int).push(
                    setting.delays@[k as int],
                ));
            }
            k += 1;
        }
        proof {
            assert(setting.delays@.take(setting.delays@.len() as int) =~= setting.delays@);
        }
        round += 1;
    }
    delays
}

/// The event for a key pressed at the terminal.
pub fn event_for_key(key: Key) -> (event: Event)
    ensures
        event == key_event(key),
{
    match key {
        Key::Esc => Event::Quit,
        Key::Ctrl(c) => if c == 'c' {
            Event::Quit
        } else {
            Event::Idle
        },
        Key::Char(c) => {
            let u = c as u32;
            if 0x30 <= u && u <= 0x39 {
                Event::Video { quality: u - 0x30 }
            } else if c == '\n' {
                Event::Accept
            } else if c == 'p' {
                Event::Pause
            } else if c == 'c' {
                Event::Calibrate
            } else if c == 'b' {
                Event::Baseline
            } else if c == 'r' {
                Event::Resume
            } else {
                Event::Idle
            }
        },
        Key::Other => Event::Idle,
    }
}

/// The event for a key pressed while a video plays. Each such event ends
/// the video: the caller sends `ServerCmd::Stop` to the encoder.
pub fn event_for_play_key(key: PlayKey) -> (event: Option<Event>)
    ensures
        event == play_key_event(key),
{
    match key {
        PlayKey::Escape => Some(Event::Quit),
        PlayKey::P => Some(Event::Pause),
        PlayKey::C => Some(Event::Calibrate),
        PlayKey::B => Some(Event::Baseline),
        PlayKey::Return => Some(Event::Accept),
        PlayKey::Num(n) => if n <= 9 {
            Some(Event::Video { quality: n as u32 })
        } else {
            None
        },
        PlayKey::Other => None,
    }
}

impl UserStudy {
    /// Makes a session for the given participant and video. The delays of
    /// the settings are queued `attempts` times each and put in a random
    /// order.
    pub fn new(name: &str, source: Source, output: Option<&str>, setting: &Video) -> (study:
        UserStudy)
        ensures
            study.state == State::Init,
            study.name@ == name@,
            study.source == source,
            match output {
                Some(path) => study.output matches Some(p) && p@ == path@,
                None => study.output is None,
            },
            study.delays@.to_multiset() == repeated(
                setting.delays@,
                setting.attempts as nat,
            ).to_multiset(),
    {
        let mut delays = queue_delays(setting);
        shuffle(&mut delays);
        let output = match output {
            Some(path) => Some(path.to_owned()),
            None => None,
        };
        UserStudy { delays, state: State::Init, name: name.to_owned(), source, output }
    }

    /// Takes an event.
    pub fn next(&mut self, event: Event)
        ensures
            final(self).state == next_state(old(self).state, event),
            final(self).delays == old(self).delays,
            final(self).name == old(self).name,
            final(self).source == old(self).source,
            final(self).output == old(self).output,
    {
        match (self.state, event) {
            (_, Event::Quit) => {
                self.state = State::Quit;
            },
            (_, Event::Calibrate) => {
                self.state = State::Calibrate;
            },
            (_, Event::Baseline) => {
                self.state = State::Baseline;
            },
            (_, Event::Video { quality }) => {
                self.state = State::Video { quality };
            },
            (State::Video { quality: _ }, Event::Pause) => {
                self.state = State::Pause;
            },
            (State::Pause, Event::Resume) => {
                self.state = State::Video { quality: 0 };
            },
            (State::Video { quality }, Event::Accept) => {
                self.state = State::Accept { quality };
            },
            _ => {},
        }
    }

    /// Does what the state asks for and says what the caller is to do.
    ///
    /// A fresh session goes on to the calibration. A calibration and an
    /// accepted preset are followed by a pause, and the accepted delay
    /// leaves the queue; once the queue is empty the session is over. A
    /// video is played with the current delay and the chosen preset; a
    /// preset above 9 gives `InvalidQuality`. The baseline is played by the
    /// caller, who reports back with `baseline_played`.
    pub fn run(&mut self) -> (r: Result<Action, UserStudyError>)
        ensures
            final(self).name == old(self).name,
            final(self).source == old(self).source,
            final(self).output == old(self).output,
            final(self).delays@ == if old(self).state is Accept && old(self).delays@.len() > 0 {
                old(self).delays@.drop_last()
            } else {
                old(self).delays@
            },
            final(self).state == old(self).outcome().0,
            match old(self).outcome().1 {
                Ok(action) => r == Ok::<Action, UserStudyError>(action),
                Err(q) => r matches Err(UserStudyError::InvalidQuality(n)) && n == q,
            },
    {
        let ghost before = self.delays@;
        match self.state {
            State::Init => {
                self.state = State::Calibrate;
                Ok(Action::Wait)
            },
            State::Accept { quality: _ } => {
                let _ = self.delays.pop();
                if self.delays.len() == 0 {
                    self.state = State::Quit;
                } else {
                    self.state = State::Pause;
                }
                Ok(Action::Wait)
            },
            State::Pause => Ok(Action::Wait),
            State::Calibrate => {
                self.state = State::Pause;
                Ok(Action::Calibrate)
            },
            State::Baseline => Ok(Action::PlayBaseline(self.source)),
            State::Video { quality } => {
                let n = self.delays.len();
                if n == 0 {
                    self.state = State::Quit;
                    return Ok(Action::Wait);
                }
                if quality > 9 {
                    return Err(UserStudyError::InvalidQuality(quality));
                }
                let current = self.delays[n - 1];
                Ok(Action::PlayVideo { delay: current.delay, quality: current.presets[quality as usize] })
            },
            State::Quit => Ok(Action::Wait),
        }
    }

    /// What `run` does in the session's state.
    pub open spec fn outcome(&self) -> (State, Result<Action, u32>) {
        step_of(
            self.state,
            self.source,
            if self.delays@.len() > 0 {
                Some(self.delays@.last())
            } else {
                None
            },
            self.delays@.len() > 1,
        )
    }

    /// Takes note of how the baseline went: the session pauses after it, or
    /// ends with `MpvError` where the player failed.
    pub fn baseline_played(&mut self, ok: bool) -> (r: Result<(), UserStudyError>)
        ensures
            final(self).delays == old(self).delays,
            final(self).name == old(self).name,
            final(self).source == old(self).source,
            final(self).output == old(self).output,
            ok ==> r is Ok && final(self).state == State::Pause,
            !ok ==> final(self).state == old(self).state,
            !ok ==> (r matches Err(UserStudyError::MpvError(path)) && path@
                == old(self).source.spec_baseline()),
    {
        if ok {
            self.state = State::Pause;
            Ok(())
        } else {
            Err(UserStudyError::MpvError(self.source.baseline().to_owned()))
        }
    }
}

/// One turn of the session's main loop: the event is taken, and unless the
/// session is over the state's work is done. `None` says that the session is
/// over.
pub fn run(study: &mut UserStudy, event: Event) -> (r: Result<Option<Action>, UserStudyError>)
    ensures
        final(study).name == old(study).name,
        final(study).source == old(study).source,
        final(study).output == old(study).output,
        next_state(old(study).state, event) == State::Quit ==> {
            &&& r matches Ok(None)
            &&& final(study).state == State::Quit
            &&& final(study).delays == old(study).delays
        },
        next_state(old(study).state, event) != State::Quit ==> {
            let taken = step_of(
                next_state(old(study).state, event),
                old(study).source,
                if old(study).delays@.len() > 0 {
                    Some(old(study).delays@.last())
                } else {
                    None
                },
                old(study).delays@.len() > 1,
            );
            &&& final(study).state == taken.0
            &&& taken.1 matches Ok(action) ==> r == Ok::<Option<Action>, UserStudyError>(
                Some(action),
            )
            &&& taken.1 matches Err(q) ==> (r matches Err(UserStudyError::InvalidQuality(n)) && n
                == q)
            &&& final(study).delays@ == if next_state(old(study).state, event) is Accept && old(
                study).delays@.len() > 0 {
                old(study).delays@.drop_last()
            } else {
                old(study).delays@
            }
        },
{
    study.next(event);
    if let State::Quit = study.state {
        Ok(None)
    } else {
        match study.run() {
            Ok(action) => Ok(Some(action)),
            Err(e) => Err(e),
        }
    }
}

} // verus!
