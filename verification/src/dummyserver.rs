//! Dummy encoders for latency measurements.
//!
//! A dummy encoder has no source video. It shows a black picture until the
//! gaze has moved away from where it was first seen, then a picture with a
//! white square in the bottom-left corner, and ends soon after. A photodiode
//! on the display can time the change.

use vstd::prelude::*;
use crate::pacing::{advance_pts, next_pts};
use crate::picture::{crop_centre, crop_origin, picture_cropped, Picture};
use crate::{fovea_size, gaze_moved, moved, Dims, EncodedFrames, FvideoServerError, GazeSample, NalData};

verus! {

/// How far the gaze has to move, in video pixels along an axis, for the
/// encoder to switch to white.
pub const DIFF_THRESH: i32 = 50;

/// How many white pictures the encoder gives before it ends.
pub const LINGER_FRAMES: i64 = 1;

/// The side of the white square in a picture of the given width.
pub open spec fn box_side(width: u32) -> int {
    width as int / 19
}

/// The trigger of a dummy encoder.
#[derive(Copy, Clone, Debug, PartialEq, Eq, Structural)]
pub struct Trigger {
    /// The first gaze that was seen.
    pub first_gaze: Option<GazeSample>,
    /// Whether the gaze has moved away from the first one.
    pub triggered: bool,
    /// Number of white pictures given so far.
    pub triggered_buff: i64,
}

/// One encode: the trigger after it, and whether the picture is white. There
/// is no picture once `LINGER_FRAMES` white ones were given.
pub open spec fn trigger_step(s: Trigger, gaze: GazeSample) -> (Trigger, Option<bool>) {
    if s.triggered_buff >= LINGER_FRAMES {
        (s, None)
    } else {
        let first = match s.first_gaze {
            Some(f) => f,
            None => gaze,
        };
        let triggered = s.triggered || moved(gaze, first, DIFF_THRESH as int);
        (
            Trigger {
                first_gaze: Some(first),
                triggered,
                triggered_buff: if triggered {
                    (s.triggered_buff + 1) as i64
                } else {
                    s.triggered_buff
                },
            },
            Some(triggered),
        )
    }
}

/// What a run of encodes gives, one entry for each gaze.
pub open spec fn trigger_run(s: Trigger, gazes: Seq<GazeSample>) -> Seq<Option<bool>>
    decreases gazes.len(),
{
    if gazes.len() == 0 {
        Seq::empty()
    } else {
        seq![trigger_step(s, gazes[0]).1] + trigger_run(
            trigger_step(s, gazes[0]).0,
            gazes.drop_first(),
        )
    }
}

/// A trigger that has seen no gaze.
pub open spec fn fresh_trigger() -> Trigger {
    Trigger { first_gaze: None, triggered: false, triggered_buff: 0 }
}

impl Trigger {
    /// The count of white pictures is between 0 and `LINGER_FRAMES`, and is
    /// 0 before the trigger.
    pub open spec fn wf(&self) -> bool {
        &&& 0 <= self.triggered_buff <= LINGER_FRAMES
        &&& !self.triggered ==> self.triggered_buff == 0
    }

    /// A trigger that has seen no gaze.
    pub fn new() -> (t: Trigger)
        ensures
            t == fresh_trigger(),
            t.wf(),
    {
        Trigger { first_gaze: None, triggered: false, triggered_buff: 0 }
    }

    /// Takes note of the gaze of one encode and tells whether its picture is
    /// white; there is no picture once the encoder has ended.
    pub fn observe(&mut self, gaze: GazeSample) -> (r: Option<bool>)
        requires
            old(self).wf(),
        ensures
            final(self).wf(),
            (*final(self), r) == trigger_step(*old(self), gaze),
    {
        if self.triggered_buff >= LINGER_FRAMES {
            return None;
        }
        let first = match self.first_gaze {
            Some(f) => f,
            None => gaze,
        };
        self.first_gaze = Some(first);
        if !self.triggered && gaze_moved(&gaze, &first, DIFF_THRESH) {
            self.triggered = true;
        }
        if self.triggered {
            self.triggered_buff = self.triggered_buff + 1;
        }
        Some(self.triggered)
    }
}

/// Once triggered, a run gives white pictures until `LINGER_FRAMES` are
/// reached and nothing after that.
pub proof fn lemma_run_after_trigger(s: Trigger, gazes: Seq<GazeSample>)
    requires
        s.wf(),
        s.triggered,
    ensures
        trigger_run(s, gazes).len() == gazes.len(),
        forall|i: int|
            0 <= i < gazes.len() ==> #[trigger] trigger_run(s, gazes)[i] == (if i < LINGER_FRAMES
                - s.triggered_buff {
                Some(true)
            } else {
                None
            }),
    decreases gazes.len(),
{
    if gazes.len() > 0 {
        let next = trigger_step(s, gazes[0]).0;
        let rest = gazes.drop_first();
        lemma_run_after_trigger(next, rest);
        assert forall|i: int| 0 <= i < gazes.len() implies #[trigger] trigger_run(s, gazes)[i] == (
        if i < LINGER_FRAMES - s.triggered_buff {
            Some(true)
        } else {
            None
        }) by {
            if i > 0 {
                assert(trigger_run(s, gazes)[i] == trigger_run(next, rest)[i - 1]);
            }
        }
    }
}

/// Before the trigger, a run gives black pictures up to the first gaze that
/// is more than the threshold away from `first`; from that gaze on it gives
/// `LINGER_FRAMES` white pictures and then nothing.
pub proof fn lemma_run_before_trigger(s: Trigger, gazes: Seq<GazeSample>, first: GazeSample, k: int)
    requires
        !s.triggered,
        s.triggered_buff == 0,
        0 <= k <= gazes.len(),
        s.first_gaze == Some(first) || (s.first_gaze is None && gazes.len() > 0 && gazes[0]
            == first),
        forall|i: int| 0 <= i < k ==> !moved(#[trigger] gazes[i], first, DIFF_THRESH as int),
        k < gazes.len() ==> moved(gazes[k], first, DIFF_THRESH as int),
    ensures
        trigger_run(s, gazes).len() == gazes.len(),
        forall|i: int|
            0 <= i < gazes.len() ==> #[trigger] trigger_run(s, gazes)[i] == (if i < k {
                Some(false)
            } else if i < k + LINGER_FRAMES {
                Some(true)
            } else {
                None
            }),
    decreases gazes.len(),
{
    if gazes.len() > 0 {
        let next = trigger_step(s, gazes[0]).0;
        let rest = gazes.drop_first();
        if k == 0 {
            lemma_run_after_trigger(next, rest);
        } else {
            assert(!moved(gazes[0], first, DIFF_THRESH as int));
            assert forall|i: int| 0 <= i < k - 1 implies !moved(
                #[trigger] rest[i],
                first,
                DIFF_THRESH as int,
            ) by {
                assert(rest[i] == gazes[i + 1]);
            }
            lemma_run_before_trigger(next, rest, first, k - 1);
        }
        assert forall|i: int| 0 <= i < gazes.len() implies #[trigger] trigger_run(s, gazes)[i] == (
        if i < k {
            Some(false)
        } else if i < k + LINGER_FRAMES {
            Some(true)
        } else {
            None
        }) by {
            if i > 0 {
                assert(trigger_run(s, gazes)[i] == trigger_run(next, rest)[i - 1]);
            }
        }
    }
}

/// Trigger semantics: an encoder gives black pictures until the gaze is
/// first more than the threshold away from the first gaze; with that gaze and
/// for `LINGER_FRAMES` encodes in all it gives the white picture, and
/// afterwards it gives nothing. `k` is the position of that gaze, or the
/// length of the run where the gaze never moves that far.
pub proof fn lemma_trigger_semantics(gazes: Seq<GazeSample>, k: int)
    requires
        0 <= k <= gazes.len(),
        forall|i: int| 0 <= i < k ==> !moved(#[trigger] gazes[i], gazes[0], DIFF_THRESH as int),
        k < gazes.len() ==> moved(gazes[k], gazes[0], DIFF_THRESH as int),
    ensures
        trigger_run(fresh_trigger(), gazes).len() == gazes.len(),
        forall|i: int|
            0 <= i < gazes.len() ==> #[trigger] trigger_run(fresh_trigger(), gazes)[i] == (if i
                < k {
                Some(false)
            } else if i < k + LINGER_FRAMES {
                Some(true)
            } else {
                None
            }),
{
    if gazes.len() > 0 {
        lemma_run_before_trigger(fresh_trigger(), gazes, gazes[0], k);
    }
}

/// What a dummy encoder asks to be encoded.
#[derive(Copy, Clone, Debug, PartialEq, Eq, Structural)]
pub struct DummyFrame {
    /// Whether the picture is the white one.
    pub white: bool,
    /// Presentation time of the picture.
    pub timestamp: i64,
}

/// The message of the error that ends a dummy encoder.
pub open spec fn finished() -> Seq<char> {
    "Finished."@
}

/// Makes the black and the white picture of a dummy encoder.
fn dummy_pictures(width: u32, height: u32) -> (r: Option<(Picture, Picture)>)
    ensures
        r is Some == (width as int * height as int <= usize::MAX),
        r matches Some((black, white)) ==> {
            &&& all_black(black, width, height)
            &&& white_boxed(white, width, height)
        },
{
    let mut black = match Picture::new(width, height) {
        Some(p) => p,
        None => {
            return None;
        },
    };
    let mut white = match Picture::new(width, height) {
        Some(p) => p,
        None => {
            return None;
        },
    };
    black.paint_black();
    white.paint_white_box(width / 19);
    Some((black, white))
}

/// `pic` is the black picture of the given size.
pub open spec fn all_black(pic: Picture, width: u32, height: u32) -> bool {
    &&& pic.wf()
    &&& pic@.width == width
    &&& pic@.height == height
    &&& forall|k: int| 0 <= k < pic@.planes[0].len() ==> pic@.planes[0][k] == crate::picture::BLACK
    &&& forall|i: int, k: int|
        1 <= i < 3 && 0 <= k < pic@.planes[i].len() ==> pic@.planes[i][k]
            == crate::picture::NEUTRAL
}

/// `pic` is the picture of the given size that is black but for the white
/// square in its bottom-left corner.
pub open spec fn white_boxed(pic: Picture, width: u32, height: u32) -> bool {
    &&& pic.wf()
    &&& pic@.width == width
    &&& pic@.height == height
    &&& forall|r: int, c: int|
        0 <= r < height && 0 <= c < width ==> #[trigger] pic@.pixel(0, r, c) == (if r + box_side(
            width,
        ) > height && c < box_side(width) {
            crate::picture::WHITE
        } else {
            crate::picture::BLACK
        })
    &&& forall|i: int, k: int|
        1 <= i < 3 && 0 <= k < pic@.planes[i].len() ==> pic@.planes[i][k]
            == crate::picture::NEUTRAL
}

/// A white-boxed picture stays one when only its presentation time changes.
pub proof fn lemma_white_boxed_restamped(before: Picture, after: Picture, width: u32, height: u32)
    requires
        white_boxed(before, width, height),
        after@.planes == before@.planes,
        after@.width == before@.width,
        after@.height == before@.height,
    ensures
        white_boxed(after, width, height),
{
    assert forall|i: int| 0 <= i < 3 implies (#[trigger] after@.planes[i]).len()
        == after@.plane_width(i) * after@.plane_height(i) by {
        assert(before@.planes[i].len() == before@.plane_width(i) * before@.plane_height(i));
    }
    assert forall|r: int, c: int| 0 <= r < height && 0 <= c < width implies #[trigger] after@.pixel(
        0,
        r,
        c,
    ) == (if r + box_side(width) > height && c < box_side(width) {
        crate::picture::WHITE
    } else {
        crate::picture::BLACK
    }) by {
        assert(after@.pixel(0, r, c) == before@.pixel(0, r, c));
    }
}

/// Dummy encoder with a single stream.
pub struct FvideoDummyServer {
    pub pic_black: Picture,
    pub pic_white: Picture,
    pub width: u32,
    pub height: u32,
    /// Presentation time of the next picture.
    pub timestamp: i64,
    pub trigger: Trigger,
}

impl FvideoDummyServer {
    /// The two pictures have the encoder's size and content.
    pub open spec fn wf(&self) -> bool {
        &&& self.trigger.wf()
        &&& all_black(self.pic_black, self.width, self.height)
        &&& white_boxed(self.pic_white, self.width, self.height)
    }

    /// Makes a dummy encoder for pictures of the given size. It fails with
    /// `X264Error` where a picture of that size does not fit in memory.
    pub fn new(width: u32, height: u32) -> (r: Result<FvideoDummyServer, FvideoServerError>)
        ensures
            r is Ok == (width as int * height as int <= usize::MAX),
            r matches Ok(s) ==> {
                &&& s.wf()
                &&& s.width == width
                &&& s.height == height
                &&& s.timestamp == 0
                &&& s.trigger == fresh_trigger()
            },
            r matches Err(e) ==> e matches FvideoServerError::X264Error(m) && m@
                == "Allocation Failure"@,
    {
        match dummy_pictures(width, height) {
            None => Err(FvideoServerError::X264Error("Allocation Failure".to_owned())),
            Some((pic_black, pic_white)) => Ok(
                FvideoDummyServer {
                    pic_black,
                    pic_white,
                    width,
                    height,
                    timestamp: 0,
                    trigger: Trigger::new(),
                },
            ),
        }
    }

    /// Whether the gaze has moved away from the first one.
    pub fn triggered(&self) -> (t: bool)
        ensures
            t == self.trigger.triggered,
    {
        self.trigger.triggered
    }

    /// Arms the trigger again.
    pub fn reset_trigger(&mut self)
        requires
            old(self).wf(),
        ensures
            final(self).wf(),
            final(self).trigger == (Trigger {
                triggered: false,
                triggered_buff: 0,
                ..old(self).trigger
            }),
            final(self).timestamp == old(self).timestamp,
            final(self).width == old(self).width,
            final(self).height == old(self).height,
    {
        self.trigger.triggered = false;
        self.trigger.triggered_buff = 0;
    }

    /// The picture to encode for a frame.
    pub fn picture(&self, white: bool) -> (pic: &Picture)
        ensures
            *pic == if white {
                self.pic_white
            } else {
                self.pic_black
            },
    {
        if white {
            &self.pic_white
        } else {
            &self.pic_black
        }
    }

    /// Chooses the picture to encode for the given gaze: black until the gaze
    /// has moved more than `DIFF_THRESH` away from the first gaze, white from
    /// then on. After `LINGER_FRAMES` white pictures the encoder ends with
    /// `EncoderError`.
    pub fn encode_frame(&mut self, gaze: GazeSample) -> (r: Result<DummyFrame, FvideoServerError>)
        requires
            old(self).wf(),
        ensures
            final(self).wf(),
            final(self).width == old(self).width,
            final(self).height == old(self).height,
            final(self).trigger == trigger_step(old(self).trigger, gaze).0,
            match trigger_step(old(self).trigger, gaze).1 {
                None => {
                    &&& r matches Err(FvideoServerError::EncoderError(m)) && m@ == finished()
                    &&& final(self).timestamp == old(self).timestamp
                },
                Some(white) => {
                    &&& r == Ok::<DummyFrame, FvideoServerError>(
                        DummyFrame { white, timestamp: old(self).timestamp },
                    )
                    &&& final(self).timestamp == next_pts(old(self).timestamp)
                    &&& final(self).picture_of(white)@.timestamp == old(self).timestamp
                },
            },
    {
        match self.trigger.observe(gaze) {
            None => Err(FvideoServerError::EncoderError("Finished.".to_owned())),
            Some(white) => {
                let timestamp = self.timestamp;
                if white {
                    let ghost before = self.pic_white;
                    self.pic_white.set_timestamp(timestamp);
                    proof {
                        lemma_white_boxed_restamped(
                            before,
                            self.pic_white,
                            self.width,
                            self.height,
                        );
                    }
                } else {
                    self.pic_black.set_timestamp(timestamp);
                }
                self.timestamp = advance_pts(timestamp);
                Ok(DummyFrame { white, timestamp })
            },
        }
    }

    /// The picture to encode for a frame.
    pub open spec fn picture_of(&self, white: bool) -> Picture {
        if white {
            self.pic_white
        } else {
            self.pic_black
        }
    }
}

/// Puts the output of the dummy encoder's single stream into the form that
/// the display takes: there is no foreground.
pub fn single_stream_frames(nal: Option<NalData>) -> (frames: EncodedFrames)
    ensures
        frames.0 is None,
        frames.1 == nal,
{
    (None, nal)
}

/// What a two-stream dummy encoder asks to be encoded: the foreground picture
/// that it has made, and the black or the white picture scaled down as
/// background.
#[derive(Copy, Clone, Debug, PartialEq, Eq, Structural)]
pub struct DummyTwoStreamFrame {
    /// Whether the pictures show the white square.
    pub white: bool,
    /// The gaze at which the foreground was cropped.
    pub gaze: GazeSample,
    /// Presentation time of both pictures.
    pub timestamp: i64,
}

/// Dummy encoder with two streams.
pub struct FvideoDummyTwoStreamServer {
    /// Side of the foreground square in pixels.
    pub fovea: u32,
    /// Size of the background stream.
    pub rescale: Dims,
    pub pic_black: Picture,
    pub pic_white: Picture,
    /// The foreground picture.
    pub fg_pic: Picture,
    pub width: u32,
    pub height: u32,
    /// Presentation time of the last picture.
    pub timestamp: i64,
    pub trigger: Trigger,
}

/// The gaze moved to the centre of the white square.
pub open spec fn box_gaze(gaze: GazeSample, width: u32, height: u32) -> GazeSample {
    GazeSample {
        p_x: (box_side(width) / 2) as u32,
        p_y: if box_side(width) / 2 <= height {
            (height - box_side(width) / 2) as u32
        } else {
            0
        },
        ..gaze
    }
}

/// The gaze at which a two-stream dummy encoder crops: the sample's own, but
/// the centre of the white square for the sample that triggers.
pub open spec fn dummy_gaze(s: Trigger, gaze: GazeSample, width: u32, height: u32) -> GazeSample {
    if !s.triggered && trigger_step(s, gaze).1 == Some(true) {
        box_gaze(gaze, width, height)
    } else {
        gaze
    }
}

/// What one encode of a two-stream dummy encoder gives.
#[derive(Copy, Clone, Debug, PartialEq, Eq, Structural)]
pub enum DummyOutcome {
    /// A frame, black or white.
    Frame { white: bool },
    /// The encoder has ended.
    Finished,
    /// The gaze lies at the largest coordinate and cannot be cropped at.
    OutOfRange,
}

/// One encode of a two-stream dummy encoder for a source of the given size:
/// the trigger after it and what it gives. The trigger is left as it is
/// where the encode gives no frame.
pub open spec fn two_stream_step(s: Trigger, gaze: GazeSample, width: u32, height: u32) -> (
    Trigger,
    DummyOutcome,
) {
    match trigger_step(s, gaze).1 {
        None => (s, DummyOutcome::Finished),
        Some(white) => if crate::twostreamserver::croppable(dummy_gaze(s, gaze, width, height)) {
            (trigger_step(s, gaze).0, DummyOutcome::Frame { white })
        } else {
            (s, DummyOutcome::OutOfRange)
        },
    }
}

/// What a run of encodes of a two-stream dummy encoder gives, one entry for
/// each gaze.
pub open spec fn two_stream_run(s: Trigger, gazes: Seq<GazeSample>, width: u32, height: u32) -> Seq<
    DummyOutcome,
>
    decreases gazes.len(),
{
    if gazes.len() == 0 {
        Seq::empty()
    } else {
        seq![two_stream_step(s, gazes[0], width, height).1] + two_stream_run(
            two_stream_step(s, gazes[0], width, height).0,
            gazes.drop_first(),
            width,
            height,
        )
    }
}

/// What an entry of a trigger's run is as an outcome of the two-stream
/// encoder.
pub open spec fn as_outcome(entry: Option<bool>) -> DummyOutcome {
    match entry {
        Some(white) => DummyOutcome::Frame { white },
        None => DummyOutcome::Finished,
    }
}

/// A run has an entry for each gaze.
pub proof fn lemma_run_lengths(s: Trigger, gazes: Seq<GazeSample>)
    ensures
        trigger_run(s, gazes).len() == gazes.len(),
    decreases gazes.len(),
{
    if gazes.len() > 0 {
        lemma_run_lengths(trigger_step(s, gazes[0]).0, gazes.drop_first());
    }
}

/// The centre of the white square can be cropped at: it lies below the
/// largest coordinate. It does so in every source but one that is as high as
/// the largest coordinate and so narrow that the square's half side is 0.
pub open spec fn box_croppable(width: u32, height: u32) -> bool {
    height < u32::MAX || box_side(width) / 2 > 0
}

/// Once triggered, a run of the two-stream encoder gives what the run of its
/// trigger gives, where the gazes of the white frames can be cropped at.
pub proof fn lemma_two_stream_run_after_trigger(
    s: Trigger,
    gazes: Seq<GazeSample>,
    width: u32,
    height: u32,
)
    requires
        s.wf(),
        s.triggered,
        forall|i: int|
            0 <= i < gazes.len() && i < LINGER_FRAMES - s.triggered_buff
                ==> crate::twostreamserver::croppable(#[trigger] gazes[i]),
    ensures
        two_stream_run(s, gazes, width, height).len() == gazes.len(),
        trigger_run(s, gazes).len() == gazes.len(),
        forall|i: int|
            0 <= i < gazes.len() ==> #[trigger] two_stream_run(s, gazes, width, height)[i]
                == as_outcome(trigger_run(s, gazes)[i]),
    decreases gazes.len(),
{
    if gazes.len() > 0 {
        let rest = gazes.drop_first();
        let next = trigger_step(s, gazes[0]).0;
        if s.triggered_buff < LINGER_FRAMES {
            assert(crate::twostreamserver::croppable(gazes[0]));
        }
        assert(two_stream_step(s, gazes[0], width, height).0 == next);
        assert forall|i: int|
            0 <= i < rest.len() && i < LINGER_FRAMES
                - next.triggered_buff implies crate::twostreamserver::croppable(
            #[trigger] rest[i],
        ) by {
            assert(rest[i] == gazes[i + 1]);
        }
        lemma_run_lengths(next, rest);
        lemma_two_stream_run_after_trigger(next, rest, width, height);
        assert forall|i: int| 0 <= i < gazes.len() implies #[trigger] two_stream_run(
            s,
            gazes,
            width,
            height,
        )[i] == as_outcome(trigger_run(s, gazes)[i]) by {
            if i > 0 {
                assert(two_stream_run(s, gazes, width, height)[i] == two_stream_run(
                    next,
                    rest,
                    width,
                    height,
                )[i - 1]);
                assert(trigger_run(s, gazes)[i] == trigger_run(next, rest)[i - 1]);
            }
        }
    }
}

/// Before the trigger, a run of the two-stream encoder gives what the run of
/// its trigger gives, where the gaze of every frame can be cropped at: the
/// sample's own for a black frame and for a white frame after the first, the
/// centre of the white square for the first white frame. `k` is the position
/// of the first gaze that is more than the threshold away from `first`.
pub proof fn lemma_two_stream_run_before_trigger(
    s: Trigger,
    gazes: Seq<GazeSample>,
    first: GazeSample,
    k: int,
    width: u32,
    height: u32,
)
    requires
        !s.triggered,
        s.triggered_buff == 0,
        0 <= k <= gazes.len(),
        s.first_gaze == Some(first) || (s.first_gaze is None && gazes.len() > 0 && gazes[0]
            == first),
        forall|i: int| 0 <= i < k ==> !moved(#[trigger] gazes[i], first, DIFF_THRESH as int),
        k < gazes.len() ==> moved(gazes[k], first, DIFF_THRESH as int),
        forall|i: int|
            0 <= i < gazes.len() && i < k + LINGER_FRAMES && i != k
                ==> crate::twostreamserver::croppable(#[trigger] gazes[i]),
        k < gazes.len() ==> box_croppable(width, height),
    ensures
        two_stream_run(s, gazes, width, height).len() == gazes.len(),
        trigger_run(s, gazes).len() == gazes.len(),
        forall|i: int|
            0 <= i < gazes.len() ==> #[trigger] two_stream_run(s, gazes, width, height)[i]
                == as_outcome(trigger_run(s, gazes)[i]),
    decreases gazes.len(),
{
    if gazes.len() > 0 {
        let rest = gazes.drop_first();
        let next = trigger_step(s, gazes[0]).0;
        if k == 0 {
            assert(moved(gazes[0], first, DIFF_THRESH as int));
            assert(dummy_gaze(s, gazes[0], width, height) == box_gaze(gazes[0], width, height));
            assert(crate::twostreamserver::croppable(box_gaze(gazes[0], width, height)));
            assert(two_stream_step(s, gazes[0], width, height).0 == next);
            assert forall|i: int|
                0 <= i < rest.len() && i < LINGER_FRAMES
                    - next.triggered_buff implies crate::twostreamserver::croppable(
                #[trigger] rest[i],
            ) by {
                assert(rest[i] == gazes[i + 1]);
            }
            lemma_two_stream_run_after_trigger(next, rest, width, height);
        } else {
            assert(!moved(gazes[0], first, DIFF_THRESH as int));
            assert(crate::twostreamserver::croppable(gazes[0]));
            assert(dummy_gaze(s, gazes[0], width, height) == gazes[0]);
            assert(two_stream_step(s, gazes[0], width, height).0 == next);
            assert forall|i: int| 0 <= i < k - 1 implies !moved(
                #[trigger] rest[i],
                first,
                DIFF_THRESH as int,
            ) by {
                assert(rest[i] == gazes[i + 1]);
            }
            assert forall|i: int|
                0 <= i < rest.len() && i < k - 1 + LINGER_FRAMES && i != k
                    - 1 implies crate::twostreamserver::croppable(#[trigger] rest[i]) by {
                assert(rest[i] == gazes[i + 1]);
            }
            if k < gazes.len() {
                assert(rest[k - 1] == gazes[k]);
            }
            lemma_two_stream_run_before_trigger(next, rest, first, k - 1, width, height);
        }
        lemma_run_lengths(next, rest);
        assert forall|i: int| 0 <= i < gazes.len() implies #[trigger] two_stream_run(
            s,
            gazes,
            width,
            height,
        )[i] == as_outcome(trigger_run(s, gazes)[i]) by {
            if i > 0 {
                assert(two_stream_run(s, gazes, width, height)[i] == two_stream_run(
                    next,
                    rest,
                    width,
                    height,
                )[i - 1]);
                assert(trigger_run(s, gazes)[i] == trigger_run(next, rest)[i - 1]);
            }
        }
    }
}

/// Trigger semantics of the two-stream encoder: the encoder gives black
/// frames until the gaze is first more than the threshold away from the
/// first gaze; with that gaze and for `LINGER_FRAMES` encodes in all it
/// gives white frames, and afterwards it has ended. `k` is the position of
/// that gaze, or the length of the run where the gaze never moves that far.
///
/// This holds where the gaze of every frame can be cropped at. The gaze of a
/// black frame, and of a white frame after the first, is the sample's own;
/// that of the first white frame is the centre of the white square. A frame
/// whose gaze lies at the largest coordinate is refused, and the run is then
/// another. The samples after the encoder has ended can be any.
pub proof fn lemma_two_stream_trigger_semantics(
    gazes: Seq<GazeSample>,
    k: int,
    width: u32,
    height: u32,
)
    requires
        0 <= k <= gazes.len(),
        forall|i: int| 0 <= i < k ==> !moved(#[trigger] gazes[i], gazes[0], DIFF_THRESH as int),
        k < gazes.len() ==> moved(gazes[k], gazes[0], DIFF_THRESH as int),
        forall|i: int|
            0 <= i < gazes.len() && i < k + LINGER_FRAMES && i != k
                ==> crate::twostreamserver::croppable(#[trigger] gazes[i]),
        k < gazes.len() ==> box_croppable(width, height),
    ensures
        two_stream_run(fresh_trigger(), gazes, width, height).len() == gazes.len(),
        forall|i: int|
            0 <= i < gazes.len() ==> #[trigger] two_stream_run(
                fresh_trigger(),
                gazes,
                width,
                height,
            )[i] == (if i < k {
                DummyOutcome::Frame { white: false }
            } else if i < k + LINGER_FRAMES {
                DummyOutcome::Frame { white: true }
            } else {
                DummyOutcome::Finished
            }),
{
    if gazes.len() > 0 {
        lemma_two_stream_run_before_trigger(fresh_trigger(), gazes, gazes[0], k, width, height);
    }
    lemma_trigger_semantics(gazes, k);
    assert forall|i: int| 0 <= i < gazes.len() implies #[trigger] two_stream_run(
        fresh_trigger(),
        gazes,
        width,
        height,
    )[i] == (if i < k {
        DummyOutcome::Frame { white: false }
    } else if i < k + LINGER_FRAMES {
        DummyOutcome::Frame { white: true }
    } else {
        DummyOutcome::Finished
    }) by {
        assert(two_stream_run(fresh_trigger(), gazes, width, height)[i] == as_outcome(
            trigger_run(fresh_trigger(), gazes)[i],
        ));
    }
}

/// Once triggered, an encoder stays triggered, whatever gaze it is given.
pub proof fn lemma_trigger_stays(s: Trigger, gaze: GazeSample, width: u32, height: u32)
    requires
        s.triggered,
    ensures
        trigger_step(s, gaze).0.triggered,
        two_stream_step(s, gaze, width, height).0.triggered,
{
}

/// The first gaze that is more than the threshold away from the first one
/// gives a white frame, whatever the sample's own position is, in every
/// source but one: where the source is as high as the largest coordinate
/// and less than 38 pixels wide, the centre of the white square lies at the
/// largest coordinate, and the encode is refused and changes nothing.
pub proof fn lemma_two_stream_first_white(s: Trigger, gaze: GazeSample, width: u32, height: u32)
    requires
        s.wf(),
        !s.triggered,
        s.first_gaze matches Some(first) && moved(gaze, first, DIFF_THRESH as int),
    ensures
        box_croppable(width, height) <==> !(height == u32::MAX && width < 38),
        box_croppable(width, height) ==> two_stream_step(s, gaze, width, height).1 == (
        DummyOutcome::Frame { white: true }) && two_stream_step(
            s,
            gaze,
            width,
            height,
        ).0.triggered,
        !box_croppable(width, height) ==> two_stream_step(s, gaze, width, height)
            == (s, DummyOutcome::OutOfRange),
{
}

impl FvideoDummyTwoStreamServer {
    /// The pictures have the encoder's sizes and content.
    pub open spec fn wf(&self) -> bool {
        &&& self.trigger.wf()
        &&& all_black(self.pic_black, self.width, self.height)
        &&& white_boxed(self.pic_white, self.width, self.height)
        &&& self.fg_pic.wf()
        &&& self.fg_pic@.width == self.fovea
        &&& self.fg_pic@.height == self.fovea
    }

    /// The picture that a frame is made from.
    pub open spec fn picture_of(&self, white: bool) -> Picture {
        if white {
            self.pic_white
        } else {
            self.pic_black
        }
    }

    /// Makes a two-stream dummy encoder for a source of size `src_dims`, a
    /// background of size `rescale_dims` and a fovea of `fovea` macroblocks.
    ///
    /// It fails with `TwoStreamError` for a fovea of 0, with
    /// `TryFromIntError` where the side of the fovea is no `u32`, and with
    /// `X264Error` where a picture does not fit in memory.
    pub fn new(src_dims: Dims, rescale_dims: Dims, fovea: u32) -> (r: Result<
        FvideoDummyTwoStreamServer,
        FvideoServerError,
    >)
        ensures
            if fovea == 0 {
                r matches Err(FvideoServerError::TwoStreamError(m)) && m@
                    == "TwoStream requires fovea to be non-zero."@
            } else if crate::fovea_pixels(fovea, src_dims.height) > u32::MAX {
                r matches Err(FvideoServerError::TryFromIntError)
            } else if src_dims.width as int * src_dims.height as int > usize::MAX
                || crate::fovea_pixels(fovea, src_dims.height) * crate::fovea_pixels(
                fovea,
                src_dims.height,
            ) > usize::MAX {
                r matches Err(FvideoServerError::X264Error(m)) && m@ == "Allocation Failure"@
            } else {
                r matches Ok(s) && {
                    &&& s.wf()
                    &&& s.fovea == crate::fovea_pixels(fovea, src_dims.height)
                    &&& s.rescale == rescale_dims
                    &&& s.width == src_dims.width
                    &&& s.height == src_dims.height
                    &&& s.timestamp == 0
                    &&& s.trigger == fresh_trigger()
                }
            },
    {
        if fovea == 0 {
            return Err(
                FvideoServerError::TwoStreamError(
                    "TwoStream requires fovea to be non-zero.".to_owned(),
                ),
            );
        }
        let side = match fovea_size(fovea, src_dims.height) {
            Some(side) => side,
            None => {
                return Err(FvideoServerError::TryFromIntError);
            },
        };
        let (pic_black, pic_white) = match dummy_pictures(src_dims.width, src_dims.height) {
            Some(pair) => pair,
            None => {
                return Err(FvideoServerError::X264Error("Allocation Failure".to_owned()));
            },
        };
        let fg_pic = match Picture::new(side, side) {
            Some(p) => p,
            None => {
                return Err(FvideoServerError::X264Error("Allocation Failure".to_owned()));
            },
        };
        Ok(
            FvideoDummyTwoStreamServer {
                fovea: side,
                rescale: rescale_dims,
                pic_black,
                pic_white,
                fg_pic,
                width: src_dims.width,
                height: src_dims.height,
                timestamp: 0,
                trigger: Trigger::new(),
            },
        )
    }

    /// Whether the gaze has moved away from the first one.
    pub fn triggered(&self) -> (t: bool)
        ensures
            t == self.trigger.triggered,
    {
        self.trigger.triggered
    }

    /// The picture that a frame is made from.
    pub fn picture(&self, white: bool) -> (pic: &Picture)
        ensures
            *pic == self.picture_of(white),
    {
        if white {
            &self.pic_white
        } else {
            &self.pic_black
        }
    }

    /// Makes the foreground picture for the given gaze and names the picture
    /// to scale down as background.
    ///
    /// The pictures are black until the gaze has moved more than
    /// `DIFF_THRESH` away from the first gaze, and white from then on; the
    /// sample that triggers is moved to the centre of the white square.
    /// After `LINGER_FRAMES` white frames the encoder ends with
    /// `EncoderError`. A gaze at the largest coordinate cannot be cropped and
    /// gives `TwoStreamError`.
    pub fn encode_frame(&mut self, gaze: GazeSample) -> (r: Result<
        DummyTwoStreamFrame,
        FvideoServerError,
    >)
        requires
            old(self).wf(),
        ensures
            final(self).wf(),
            final(self).fovea == old(self).fovea,
            final(self).rescale == old(self).rescale,
            final(self).width == old(self).width,
            final(self).height == old(self).height,
            final(self).pic_black == old(self).pic_black,
            final(self).pic_white == old(self).pic_white,
            final(self).trigger == two_stream_step(
                old(self).trigger,
                gaze,
                old(self).width,
                old(self).height,
            ).0,
            match two_stream_step(old(self).trigger, gaze, old(self).width, old(self).height).1 {
                DummyOutcome::Frame { white } => r matches Ok(frame) && frame.white == white
                    && final(self).trigger.triggered == white,
                DummyOutcome::Finished => r matches Err(FvideoServerError::EncoderError(_)),
                DummyOutcome::OutOfRange => r matches Err(FvideoServerError::TwoStreamError(_)),
            },
            match trigger_step(old(self).trigger, gaze).1 {
                None => {
                    &&& r matches Err(FvideoServerError::EncoderError(m)) && m@ == finished()
                    &&& final(self).trigger == old(self).trigger
                    &&& final(self).timestamp == old(self).timestamp
                    &&& final(self).fg_pic == old(self).fg_pic
                },
                Some(white) => {
                    let at = dummy_gaze(old(self).trigger, gaze, old(self).width, old(self).height);
                    if at.p_x == u32::MAX || at.p_y == u32::MAX {
                        &&& r matches Err(FvideoServerError::TwoStreamError(m)) && m@
                            == "Gaze position out of range."@
                        &&& final(self).trigger == old(self).trigger
                        &&& final(self).timestamp == old(self).timestamp
                        &&& final(self).fg_pic == old(self).fg_pic
                    } else {
                        &&& r == Ok::<DummyTwoStreamFrame, FvideoServerError>(
                            DummyTwoStreamFrame {
                                white,
                                gaze: GazeSample {
                                    p_x: crop_centre(at.p_x, old(self).fovea) as u32,
                                    p_y: crop_centre(at.p_y, old(self).fovea) as u32,
                                    ..at
                                },
                                timestamp: next_pts(old(self).timestamp),
                            },
                        )
                        &&& final(self).trigger == trigger_step(old(self).trigger, gaze).0
                        &&& final(self).timestamp == next_pts(next_pts(old(self).timestamp))
                        &&& final(self).fg_pic@.timestamp == next_pts(old(self).timestamp)
                        &&& picture_cropped(
                            old(self).picture_of(white)@,
                            old(self).fg_pic@,
                            final(self).fg_pic@,
                            crop_origin(at.p_x, old(self).fovea),
                            crop_origin(at.p_y, old(self).fovea),
                        )
                    }
                },
            },
    {
        let mut trigger = self.trigger;
        let white = match trigger.observe(gaze) {
            None => {
                return Err(FvideoServerError::EncoderError("Finished.".to_owned()));
            },
            Some(white) => white,
        };
        let mut at = gaze;
        if white && !self.trigger.triggered {
            let half = self.width / 19 / 2;
            at.p_x = half;
            at.p_y = if half <= self.height {
                self.height - half
            } else {
                0
            };
        }
        if at.p_x == u32::MAX || at.p_y == u32::MAX {
            return Err(FvideoServerError::TwoStreamError("Gaze position out of range.".to_owned()));
        }
        self.trigger = trigger;
        let timestamp = advance_pts(self.timestamp);
        if white {
            self.pic_white.crop(&mut self.fg_pic, &mut at);
        } else {
            self.pic_black.crop(&mut self.fg_pic, &mut at);
        }
        let ghost mid = self.fg_pic@;
        self.fg_pic.set_timestamp(timestamp);
        self.timestamp = advance_pts(timestamp);
        proof {
            assert(self.fg_pic@.planes == mid.planes);
            assert forall|i: int| 0 <= i < 3 implies (#[trigger] self.fg_pic@.planes[i]).len()
                == self.fg_pic@.plane_width(i) * self.fg_pic@.plane_height(i) by {
                assert(mid.planes[i].len() == mid.plane_width(i) * mid.plane_height(i));
            }
        }
        Ok(DummyTwoStreamFrame { white, gaze: at, timestamp })
    }
}

/// Puts the output of the two encoders into the form that the display takes.
/// The frame counts only where both encoders gave output.
pub fn pair_dummy_frames(frame: DummyTwoStreamFrame, fg: Option<NalData>, bg: Option<NalData>) -> (
    frames: EncodedFrames)
    ensures
        frames == match (fg, bg) {
            (Some(f), Some(b)) => (Some((f, frame.gaze)), Some(b)),
            _ => (None::<(NalData, GazeSample)>, None::<NalData>),
        },
{
    match (fg, bg) {
        (Some(f), Some(b)) => (Some((f, frame.gaze)), Some(b)),
        _ => (None, None),
    }
}

} // verus!
