//! Gaze samples on their way from the tracker to the encoder.
//!
//! A reading in display pixels is projected into the video, stamped with a
//! time and a sequence number, and queued. The queue hands samples on at
//! once, or only after an artificial delay; it keeps statistics of the
//! samples that it has released.

use std::collections::VecDeque;
use vstd::prelude::*;
use crate::tracker::EyeData;
use crate::{Coords, Dims, GazeSample};

verus! {

/// The rectangle of the display that shows the video.
#[derive(Copy, Clone, Debug, PartialEq, Eq, Structural)]
pub struct Rect {
    pub x: i32,
    pub y: i32,
    pub width: u32,
    pub height: u32,
}

/// A display coordinate projected onto an axis of the video rectangle that
/// starts at `origin` and is `extent` pixels long: the offset from the
/// origin, kept between the first and the last pixel of the axis. An axis
/// without pixels gives 0.
pub open spec fn project(d: u32, origin: i32, extent: u32) -> int {
    if d - origin < 0 || extent == 0 {
        0
    } else if d - origin > extent - 1 {
        extent - 1
    } else {
        d - origin
    }
}

/// A display position lies inside the video rectangle.
pub open spec fn inside(rect: Rect, d_x: u32, d_y: u32) -> bool {
    &&& rect.x <= d_x < rect.x + rect.width
    &&& rect.y <= d_y < rect.y + rect.height
}

/// Projects a display coordinate onto an axis of the video rectangle.
pub fn project_axis(d: u32, origin: i32, extent: u32) -> (p: u32)
    ensures
        p == project(d, origin, extent),
        extent > 0 ==> p < extent,
        extent == 0 ==> p == 0,
{
    let offset: i64 = d as i64 - origin as i64;
    if offset < 0 || extent == 0 {
        0
    } else if offset > extent as i64 - 1 {
        extent - 1
    } else {
        offset as u32
    }
}

/// Takes a gaze position in display pixels to video coordinates.
///
/// The video is shown unscaled in `rect`. A position outside of it is moved
/// to the nearest pixel of the video, so that the result always lies inside
/// the video.
pub fn to_video_coords(rect: &Rect, d_x: u32, d_y: u32) -> (p: (u32, u32))
    ensures
        p.0 == project(d_x, rect.x, rect.width),
        p.1 == project(d_y, rect.y, rect.height),
        rect.width > 0 ==> p.0 < rect.width,
        rect.height > 0 ==> p.1 < rect.height,
        inside(*rect, d_x, d_y) ==> p.0 == d_x - rect.x && p.1 == d_y - rect.y,
{
    (project_axis(d_x, rect.x, rect.width), project_axis(d_y, rect.y, rect.height))
}

/// The sample for a reading at display position (`d_x`, `d_y`).
pub open spec fn projected(disp: Dims, rect: Rect, d_x: u32, d_y: u32, time: u64, seqno: u64) -> GazeSample {
    GazeSample {
        time,
        seqno,
        d_width: disp.width,
        d_height: disp.height,
        d_x,
        d_y,
        p_x: project(d_x, rect.x, rect.width) as u32,
        p_y: project(d_y, rect.y, rect.height) as u32,
        m_x: (project(d_x, rect.x, rect.width) / 16) as u32,
        m_y: (project(d_y, rect.y, rect.height) / 16) as u32,
    }
}

/// Makes the sample for a reading at display position (`d_x`, `d_y`).
pub fn project_sample(disp: Dims, rect: &Rect, d_x: u32, d_y: u32, time: u64, seqno: u64) -> (g:
    GazeSample)
    ensures
        g == projected(disp, *rect, d_x, d_y, time, seqno),
{
    let (p_x, p_y) = to_video_coords(rect, d_x, d_y);
    GazeSample {
        time,
        seqno,
        d_width: disp.width,
        d_height: disp.height,
        d_x,
        d_y,
        p_x,
        p_y,
        m_x: p_x / 16,
        m_y: p_y / 16,
    }
}

/// Gaze projection: every display position, inside the video rectangle or
/// not, gives a video position inside the video, and the macroblock position
/// is the video position divided by 16. A position inside the rectangle
/// gives its offset from the rectangle's corner.
pub proof fn lemma_gaze_projection(disp: Dims, rect: Rect, d_x: u32, d_y: u32, time: u64, seqno: u64)
    requires
        rect.width > 0,
        rect.height > 0,
    ensures
        0 <= projected(disp, rect, d_x, d_y, time, seqno).p_x < rect.width,
        0 <= projected(disp, rect, d_x, d_y, time, seqno).p_y < rect.height,
        projected(disp, rect, d_x, d_y, time, seqno).m_x == projected(
            disp,
            rect,
            d_x,
            d_y,
            time,
            seqno,
        ).p_x / 16,
        projected(disp, rect, d_x, d_y, time, seqno).m_y == projected(
            disp,
            rect,
            d_x,
            d_y,
            time,
            seqno,
        ).p_y / 16,
        inside(rect, d_x, d_y) ==> projected(disp, rect, d_x, d_y, time, seqno).p_x == d_x
            - rect.x && projected(disp, rect, d_x, d_y, time, seqno).p_y == d_y - rect.y,
{
}

/// Which of the tracker's two eye slots to read: the left one for the left
/// eye and for both eyes, the right one for the right eye.
pub fn eye_index(eye: Option<EyeData>) -> (r: Option<usize>)
    ensures
        r == match eye {
            Some(EyeData::Left) => Some(0usize),
            Some(EyeData::Right) => Some(1usize),
            Some(EyeData::Binocular) => Some(0usize),
            None => None,
        },
{
    match eye {
        Some(EyeData::Left) => Some(0),
        Some(EyeData::Right) => Some(1),
        Some(EyeData::Binocular) => Some(0),
        None => None,
    }
}

/// Statistics of the gaze samples that were released.
#[derive(Copy, Clone, Debug, PartialEq, Eq, Structural)]
pub struct GazeStats {
    /// Distance travelled along each axis, in video pixels.
    pub total_gaze: Coords,
    /// Position of the last sample.
    pub last_gaze: Coords,
    /// Smallest coordinates seen.
    pub min_gaze: Coords,
    /// Largest coordinates seen.
    pub max_gaze: Coords,
}

/// The sum of a total and a step, kept at the largest value where it would
/// pass it.
pub open spec fn add_capped(total: u64, step: int) -> u64 {
    if total + step > u64::MAX {
        u64::MAX
    } else {
        (total + step) as u64
    }
}

/// The distance between two coordinates.
pub open spec fn span(a: u64, b: u64) -> int {
    if a >= b {
        a - b
    } else {
        b - a
    }
}

/// The smaller of two coordinates.
pub open spec fn lower(a: u64, b: u64) -> u64 {
    if a <= b {
        a
    } else {
        b
    }
}

/// The larger of two coordinates.
pub open spec fn upper(a: u64, b: u64) -> u64 {
    if a >= b {
        a
    } else {
        b
    }
}

/// The statistics after the release of a sample at video position
/// (`p_x`, `p_y`).
pub open spec fn stats_after(s: GazeStats, p_x: u32, p_y: u32) -> GazeStats {
    GazeStats {
        total_gaze: Coords {
            x: add_capped(s.total_gaze.x, span(s.last_gaze.x, p_x as u64)),
            y: add_capped(s.total_gaze.y, span(s.last_gaze.y, p_y as u64)),
        },
        last_gaze: Coords { x: p_x as u64, y: p_y as u64 },
        min_gaze: Coords { x: lower(s.min_gaze.x, p_x as u64), y: lower(s.min_gaze.y, p_y as u64) },
        max_gaze: Coords { x: upper(s.max_gaze.x, p_x as u64), y: upper(s.max_gaze.y, p_y as u64) },
    }
}

/// Adds the distance between `last` and `p` to `total`.
fn travelled(total: u64, last: u64, p: u64) -> (r: u64)
    ensures
        r == add_capped(total, span(last, p)),
{
    let step = if last >= p {
        last - p
    } else {
        p - last
    };
    if step > u64::MAX - total {
        u64::MAX
    } else {
        total + step
    }
}

impl GazeStats {
    /// The statistics before any sample, for a video of size `src`: nothing
    /// travelled, the last position at the centre of the video.
    pub fn new(src: Dims) -> (s: GazeStats)
        ensures
            s == (GazeStats {
                total_gaze: Coords { x: 0, y: 0 },
                last_gaze: Coords { x: (src.width / 2) as u64, y: (src.height / 2) as u64 },
                min_gaze: Coords { x: u64::MAX, y: u64::MAX },
                max_gaze: Coords { x: 0, y: 0 },
            }),
    {
        GazeStats {
            total_gaze: Coords { x: 0, y: 0 },
            last_gaze: Coords { x: (src.width / 2) as u64, y: (src.height / 2) as u64 },
            min_gaze: Coords { x: u64::MAX, y: u64::MAX },
            max_gaze: Coords { x: 0, y: 0 },
        }
    }

    /// Takes note of a sample that was released.
    pub fn update(&mut self, p_x: u32, p_y: u32)
        ensures
            *final(self) == stats_after(*old(self), p_x, p_y),
    {
        let x = p_x as u64;
        let y = p_y as u64;
        self.min_gaze.x = if self.min_gaze.x <= x {
            self.min_gaze.x
        } else {
            x
        };
        self.min_gaze.y = if self.min_gaze.y <= y {
            self.min_gaze.y
        } else {
            y
        };
        self.max_gaze.x = if self.max_gaze.x >= x {
            self.max_gaze.x
        } else {
            x
        };
        self.max_gaze.y = if self.max_gaze.y >= y {
            self.max_gaze.y
        } else {
            y
        };
        self.total_gaze.x = travelled(self.total_gaze.x, self.last_gaze.x, x);
        self.total_gaze.y = travelled(self.total_gaze.y, self.last_gaze.y, y);
        self.last_gaze.x = x;
        self.last_gaze.y = y;
    }
}

/// The queue of gaze samples.
#[derive(Debug)]
pub struct GazeQueue {
    /// The sample that was delivered last.
    pub last: GazeSample,
    /// The samples that were taken and not released yet, oldest first.
    pub samples: VecDeque<GazeSample>,
    /// Sequence number of the next sample that is delivered.
    pub seqno: u64,
    /// How long a sample is held back, in nanoseconds.
    pub delay: Option<u64>,
    pub stats: GazeStats,
}

/// What a queue holds.
pub struct QueueView {
    /// The sample that was delivered last.
    pub last: GazeSample,
    /// The samples that are held back, oldest first.
    pub pending: Seq<GazeSample>,
    pub seqno: u64,
    pub delay: Option<u64>,
    pub stats: GazeStats,
}

/// The sequence number after `seqno`; it stays at the largest value.
pub open spec fn next_seqno(seqno: u64) -> u64 {
    if seqno < u64::MAX {
        (seqno + 1) as u64
    } else {
        seqno
    }
}

/// The later of two times.
pub open spec fn later(a: u64, b: u64) -> u64 {
    if a >= b {
        a
    } else {
        b
    }
}

/// The macroblock position of a sample is its video position divided by 16.
pub open spec fn in_macroblocks(g: GazeSample) -> bool {
    g.m_x == g.p_x / 16 && g.m_y == g.p_y / 16
}

/// A sample with its macroblock position made from its video position.
pub open spec fn with_macroblocks(g: GazeSample) -> GazeSample {
    GazeSample { m_x: g.p_x / 16, m_y: g.p_y / 16, ..g }
}

impl QueueView {
    /// Nothing is held back without a delay. The samples that are held back
    /// are in the order of their times, and none is older than the sample
    /// delivered last. Every sample has its macroblock position made from
    /// its video position.
    pub open spec fn valid(self) -> bool {
        &&& self.delay is None ==> self.pending.len() == 0
        &&& in_macroblocks(self.last)
        &&& forall|i: int, j: int|
            0 <= i <= j < self.pending.len() ==> (#[trigger] self.pending[i]).time <= (
            #[trigger] self.pending[j]).time
        &&& forall|i: int|
            0 <= i < self.pending.len() ==> self.last.time <= (#[trigger] self.pending[i]).time
                && in_macroblocks(self.pending[i])
    }

    /// The newest sample that the queue knows of.
    pub open spec fn newest(self) -> GazeSample {
        if self.pending.len() > 0 {
            self.pending.last()
        } else {
            self.last
        }
    }

    /// The sample that a call takes into the queue: the fresh reading, or
    /// the newest sample again where there is none, stamped with the time of
    /// the call (no earlier than the newest sample's).
    pub open spec fn taken(self, fresh: Option<GazeSample>, now: u64) -> GazeSample {
        let base = match fresh {
            Some(g) => g,
            None => self.newest(),
        };
        GazeSample {
            time: later(now, self.newest().time),
            seqno: self.seqno,
            m_x: base.p_x / 16,
            m_y: base.p_y / 16,
            ..base
        }
    }

    /// The oldest sample that is held back once the call has taken its own.
    pub open spec fn oldest(self, fresh: Option<GazeSample>, now: u64) -> GazeSample {
        self.pending.push(self.taken(fresh, now))[0]
    }

    /// Whether a call releases the oldest sample that is held back: always
    /// without a delay, and with a delay once the sample is that old.
    pub open spec fn releases(self, fresh: Option<GazeSample>, now: u64) -> bool {
        match self.delay {
            None => true,
            Some(d) => now >= self.oldest(fresh, now).time && now - self.oldest(fresh, now).time
                >= d,
        }
    }

    /// The queue after a call. The sample that the call delivers is the
    /// released one, or the one delivered last where none is released; it
    /// gets the next sequence number.
    pub open spec fn after(self, fresh: Option<GazeSample>, now: u64) -> QueueView {
        let grown = self.pending.push(self.taken(fresh, now));
        if self.releases(fresh, now) {
            QueueView {
                last: GazeSample { seqno: self.seqno, ..grown[0] },
                pending: grown.drop_first(),
                seqno: next_seqno(self.seqno),
                delay: self.delay,
                stats: stats_after(self.stats, grown[0].p_x, grown[0].p_y),
            }
        } else {
            QueueView {
                last: GazeSample { seqno: self.seqno, ..self.last },
                pending: grown,
                seqno: next_seqno(self.seqno),
                ..self
            }
        }
    }

    /// The sample that a call delivers.
    pub open spec fn delivered(self, fresh: Option<GazeSample>, now: u64) -> GazeSample {
        self.after(fresh, now).last
    }

    /// The queue after a poll that waits for the gaze to move: the sample of
    /// the poll is the newest one, and nothing is held back. Where the gaze
    /// has moved, the counter of sequence numbers advances.
    pub open spec fn replaced(self, gaze: GazeSample, thresh: int) -> QueueView {
        QueueView {
            last: GazeSample {
                seqno: self.seqno,
                time: later(gaze.time, self.newest().time),
                m_x: gaze.p_x / 16,
                m_y: gaze.p_y / 16,
                ..gaze
            },
            pending: Seq::empty(),
            seqno: if crate::moved(gaze, self.last, thresh) {
                next_seqno(self.seqno)
            } else {
                self.seqno
            },
            ..self
        }
    }

    /// The queue after a run of polls that wait for the gaze to move, one
    /// for each sample.
    pub open spec fn polled(self, gazes: Seq<GazeSample>, thresh: int) -> QueueView
        decreases gazes.len(),
    {
        if gazes.len() == 0 {
            self
        } else {
            self.polled(gazes.drop_last(), thresh).replaced(gazes.last(), thresh)
        }
    }

    /// The sample that was seen before the poll at position `i` of a wait:
    /// the sample delivered last for the first poll, and the sample of the
    /// poll before for every other.
    pub open spec fn seen_before(self, gazes: Seq<GazeSample>, i: int) -> GazeSample {
        if i == 0 {
            self.last
        } else {
            gazes[i - 1]
        }
    }
}

impl View for GazeQueue {
    type V = QueueView;

    open spec fn view(&self) -> QueueView {
        QueueView {
            last: self.last,
            pending: self.samples@,
            seqno: self.seqno,
            delay: self.delay,
            stats: self.stats,
        }
    }
}

impl GazeQueue {
    /// The queue's invariant holds.
    pub open spec fn wf(&self) -> bool {
        self@.valid()
    }

    /// Makes a queue whose last sample is `first`, for a video of size
    /// `src`. A delay of 0 milliseconds is no delay.
    pub fn new(first: GazeSample, src: Dims, delay_ms: u64) -> (q: GazeQueue)
        ensures
            q.wf(),
            q@ == (QueueView {
                last: GazeSample { seqno: 0, ..with_macroblocks(first) },
                pending: Seq::empty(),
                seqno: 0,
                delay: if delay_ms == 0 {
                    None
                } else if delay_ms > u64::MAX / 1_000_000 {
                    Some(u64::MAX)
                } else {
                    Some((delay_ms * 1_000_000) as u64)
                },
                stats: GazeStats {
                    total_gaze: Coords { x: 0, y: 0 },
                    last_gaze: Coords { x: (src.width / 2) as u64, y: (src.height / 2) as u64 },
                    min_gaze: Coords { x: u64::MAX, y: u64::MAX },
                    max_gaze: Coords { x: 0, y: 0 },
                },
            }),
    {
        let mut samples: VecDeque<GazeSample> = VecDeque::new();
        samples.reserve(256);
        let mut last = first;
        last.seqno = 0;
        last.m_x = last.p_x / 16;
        last.m_y = last.p_y / 16;
        let delay = if delay_ms == 0 {
            None
        } else if delay_ms > u64::MAX / 1_000_000 {
            Some(u64::MAX)
        } else {
            Some(delay_ms * 1_000_000)
        };
        GazeQueue { last, samples, seqno: 0, delay, stats: GazeStats::new(src) }
    }

    /// Takes a sample into the queue and delivers one.
    ///
    /// `fresh` is the new reading, if there is one; without one the newest
    /// sample is taken again. `now` is the time of the call in nanoseconds.
    /// Without a delay the sample that was taken is delivered at once. With
    /// a delay the oldest sample that is held back is delivered if it is as
    /// old as the delay; otherwise the sample delivered last is delivered
    /// again. The sample that is delivered has a larger sequence number than
    /// every sample delivered before, as long as the counter has not reached
    /// its largest value.
    pub fn deliver(&mut self, fresh: Option<GazeSample>, now: u64) -> (g: GazeSample)
        requires
            old(self).wf(),
        ensures
            final(self).wf(),
            final(self)@ == old(self)@.after(fresh, now),
            g == old(self)@.delivered(fresh, now),
            g.seqno == old(self).seqno,
            final(self).seqno == next_seqno(old(self).seqno),
            in_macroblocks(g),
            g.time >= old(self).last.time,
            old(self).delay matches Some(d) ==> (now >= g.time && now - g.time >= d) || g == (
            GazeSample { seqno: old(self).seqno, ..old(self).last }),
    {
        let ghost before = self@;
        let n = self.samples.len();
        let newest = if n > 0 {
            self.samples[n - 1]
        } else {
            self.last
        };
        let mut taken = match fresh {
            Some(g) => g,
            None => newest,
        };
        taken.time = if now >= newest.time {
            now
        } else {
            newest.time
        };
        taken.seqno = self.seqno;
        taken.m_x = taken.p_x / 16;
        taken.m_y = taken.p_y / 16;
        assert(taken == before.taken(fresh, now));
        self.samples.push_back(taken);
        let ghost grown = before.pending.push(taken);
        assert(self.samples@ == grown);
        let oldest = self.samples[0];
        assert(oldest == grown[0]);
        let release = match self.delay {
            None => true,
            Some(d) => now >= oldest.time && now - oldest.time >= d,
        };
        proof {
            assert forall|i: int, j: int| 0 <= i <= j < grown.len() implies (#[trigger] grown[i]).time
                <= (#[trigger] grown[j]).time by {
                if j < before.pending.len() {
                    assert(before.pending[i].time <= before.pending[j].time);
                } else if i < before.pending.len() {
                    assert(before.pending[i].time <= before.pending[n - 1].time);
                }
            }
            assert forall|i: int| 0 <= i < grown.len() implies before.last.time <= (
            #[trigger] grown[i]).time && in_macroblocks(grown[i]) by {
                if i < before.pending.len() {
                    assert(before.last.time <= before.pending[i].time);
                }
            }
        }
        if release {
            let _ = self.samples.pop_front();
            self.stats.update(oldest.p_x, oldest.p_y);
            self.last = oldest;
        }
        self.last.seqno = self.seqno;
        if self.seqno < u64::MAX {
            self.seqno = self.seqno + 1;
        }
        proof {
            if release {
                assert(self.samples@ =~= grown.drop_first());
                assert forall|i: int, j: int| 0 <= i <= j < self.samples@.len() implies (
                #[trigger] self.samples@[i]).time <= (#[trigger] self.samples@[j]).time by {
                    assert(self.samples@[i] == grown[i + 1]);
                    assert(self.samples@[j] == grown[j + 1]);
                }
                assert forall|i: int| 0 <= i < self.samples@.len() implies self.last.time <= (
                #[trigger] self.samples@[i]).time && in_macroblocks(self.samples@[i]) by {
                    assert(self.samples@[i] == grown[i + 1]);
                    assert(grown[0].time <= grown[i + 1].time);
                }
            } else {
                assert(self.samples@ =~= grown);
            }
        }
        self.last
    }

    /// Takes the sample of a poll that waits for the gaze to move.
    ///
    /// The sample becomes the newest one of the queue, and what was held
    /// back is dropped. Where it is more than `thresh` video pixels away
    /// from the sample seen before it along an axis, that sample is
    /// returned as it was seen, with the sequence number that it had: it is
    /// the last one before the move. The counter of sequence numbers
    /// advances then, so that whatever is delivered later has a larger
    /// number.
    pub fn replace(&mut self, gaze: GazeSample, thresh: i32) -> (r: Option<GazeSample>)
        requires
            old(self).wf(),
        ensures
            final(self).wf(),
            final(self)@ == old(self)@.replaced(gaze, thresh as int),
            r == if crate::moved(gaze, old(self).last, thresh as int) {
                Some(old(self).last)
            } else {
                None
            },
            r matches Some(g) ==> in_macroblocks(g),
    {
        let n = self.samples.len();
        let newest = if n > 0 {
            self.samples[n - 1]
        } else {
            self.last
        };
        let before = self.last;
        let mut taken = gaze;
        taken.seqno = self.seqno;
        if taken.time < newest.time {
            taken.time = newest.time;
        }
        taken.m_x = taken.p_x / 16;
        taken.m_y = taken.p_y / 16;
        let jumped = crate::gaze_moved(&gaze, &self.last, thresh);
        self.samples.clear();
        self.last = taken;
        if jumped && self.seqno < u64::MAX {
            self.seqno = self.seqno + 1;
        }
        if jumped {
            Some(before)
        } else {
            None
        }
    }
}

/// A call leaves the queue valid.
pub proof fn lemma_after_valid(q: QueueView, fresh: Option<GazeSample>, now: u64)
    requires
        q.valid(),
    ensures
        q.after(fresh, now).valid(),
        q.after(fresh, now).last.time >= q.last.time,
{
    let taken = q.taken(fresh, now);
    let grown = q.pending.push(taken);
    let a = q.after(fresh, now);
    let n = q.pending.len() as int;
    assert forall|i: int, j: int| 0 <= i <= j < grown.len() implies (#[trigger] grown[i]).time <= (
    #[trigger] grown[j]).time by {
        if j < n {
            assert(q.pending[i].time <= q.pending[j].time);
        } else if i < n {
            assert(q.pending[i].time <= q.pending[n - 1].time);
        }
    }
    assert forall|i: int| 0 <= i < grown.len() implies q.last.time <= (#[trigger] grown[i]).time
        && in_macroblocks(grown[i]) by {
        if i < n {
            assert(q.last.time <= q.pending[i].time);
        }
    }
    if q.releases(fresh, now) {
        assert forall|i: int, j: int| 0 <= i <= j < a.pending.len() implies (
        #[trigger] a.pending[i]).time <= (#[trigger] a.pending[j]).time by {
            assert(a.pending[i] == grown[i + 1]);
            assert(a.pending[j] == grown[j + 1]);
        }
        assert forall|i: int| 0 <= i < a.pending.len() implies a.last.time <= (
        #[trigger] a.pending[i]).time && in_macroblocks(a.pending[i]) by {
            assert(a.pending[i] == grown[i + 1]);
            assert(grown[0].time <= grown[i + 1].time);
        }
        assert(q.last.time <= grown[0].time);
    } else {
        assert forall|i: int, j: int| 0 <= i <= j < a.pending.len() implies (
        #[trigger] a.pending[i]).time <= (#[trigger] a.pending[j]).time by {
            assert(a.pending[i] == grown[i]);
            assert(a.pending[j] == grown[j]);
        }
    }
}

/// Gaze monotonicity: of two samples delivered one after the other, with or
/// without a delay and whatever was read, the second has a larger sequence
/// number than the first, as long as the counter has not reached its
/// largest value, and no earlier time.
pub proof fn lemma_gaze_monotone(
    q: QueueView,
    fresh1: Option<GazeSample>,
    now1: u64,
    fresh2: Option<GazeSample>,
    now2: u64,
)
    requires
        q.valid(),
    ensures
        q.after(fresh1, now1).valid(),
        q.delivered(fresh1, now1).seqno == q.seqno,
        q.after(fresh1, now1).delivered(fresh2, now2).seqno == next_seqno(q.seqno),
        q.seqno < u64::MAX ==> q.delivered(fresh1, now1).seqno < q.after(fresh1, now1).delivered(
            fresh2,
            now2,
        ).seqno,
        q.delivered(fresh1, now1).seqno <= q.after(fresh1, now1).delivered(fresh2, now2).seqno,
        q.delivered(fresh1, now1).time <= q.after(fresh1, now1).delivered(fresh2, now2).time,
{
    lemma_after_valid(q, fresh1, now1);
    lemma_after_valid(q.after(fresh1, now1), fresh2, now2);
}

/// Delayed release: with a delay, the sample that a call delivers is as old
/// as the delay, or it is the sample delivered last under a new sequence
/// number. The statistics change by the released sample alone.
pub proof fn lemma_gaze_delay(q: QueueView, fresh: Option<GazeSample>, now: u64, d: u64)
    requires
        q.valid(),
        q.delay == Some(d),
    ensures
        q.releases(fresh, now) ==> now - q.delivered(fresh, now).time >= d && q.after(
            fresh,
            now,
        ).stats == stats_after(
            q.stats,
            q.delivered(fresh, now).p_x,
            q.delivered(fresh, now).p_y,
        ),
        !q.releases(fresh, now) ==> q.delivered(fresh, now) == (GazeSample {
            seqno: q.seqno,
            ..q.last
        }) && q.after(fresh, now).stats == q.stats,
{
}

/// A sample as the queue keeps it after a poll: under the sequence number
/// `seqno`, at the time `time`, with its macroblock position made from its
/// video position.
pub open spec fn kept(g: GazeSample, seqno: u64, time: u64) -> GazeSample {
    GazeSample { seqno, time, m_x: g.p_x / 16, m_y: g.p_y / 16, ..g }
}

/// Polls that see no move leave the counter of sequence numbers as it is,
/// and the sample of the last of them is the one that the queue keeps.
proof fn lemma_polls_without_move(q: QueueView, gazes: Seq<GazeSample>, thresh: int, k: int)
    requires
        q.valid(),
        0 <= k <= gazes.len(),
        forall|i: int|
            0 <= i < k ==> !crate::moved(#[trigger] gazes[i], q.seen_before(gazes, i), thresh),
    ensures
        q.polled(gazes.take(k), thresh).valid(),
        q.polled(gazes.take(k), thresh).seqno == q.seqno,
        k == 0 ==> q.polled(gazes.take(k), thresh) == q,
        k > 0 ==> q.polled(gazes.take(k), thresh).last == kept(
            gazes[k - 1],
            q.seqno,
            q.polled(gazes.take(k), thresh).last.time,
        ) && q.polled(gazes.take(k), thresh).last.time >= gazes[k - 1].time,
    decreases k,
{
    if k > 0 {
        lemma_polls_without_move(q, gazes, thresh, k - 1);
        assert(gazes.take(k).drop_last() =~= gazes.take(k - 1));
        assert(gazes.take(k).last() == gazes[k - 1]);
        assert(!crate::moved(gazes[k - 1], q.seen_before(gazes, k - 1), thresh));
    }
}

/// The triggered wait: a run of polls ends with the first sample that is
/// more than the threshold away from the sample seen before it, which is the
/// sample delivered last for the first poll and the sample of the poll
/// before for every other. `k` is the position of that sample. No poll
/// before it ends the wait. The sample that the queue holds as its last one
/// when that poll comes, and which the poll returns, is the sample seen
/// before: the one delivered last, unchanged, or the one of the poll before
/// as the queue keeps it. With that poll the counter of sequence numbers
/// advances, and the sample of the poll becomes the newest of the queue.
pub proof fn lemma_triggered_wait(q: QueueView, gazes: Seq<GazeSample>, thresh: int, k: int)
    requires
        q.valid(),
        0 <= k < gazes.len(),
        forall|i: int|
            0 <= i < k ==> !crate::moved(#[trigger] gazes[i], q.seen_before(gazes, i), thresh),
        crate::moved(gazes[k], q.seen_before(gazes, k), thresh),
    ensures
        forall|i: int|
            0 <= i < k ==> !crate::moved(
                #[trigger] gazes[i],
                q.polled(gazes.take(i), thresh).last,
                thresh,
            ),
        crate::moved(gazes[k], q.polled(gazes.take(k), thresh).last, thresh),
        k == 0 ==> q.polled(gazes.take(k), thresh).last == q.last,
        k > 0 ==> q.polled(gazes.take(k), thresh).last == kept(
            gazes[k - 1],
            q.seqno,
            q.polled(gazes.take(k), thresh).last.time,
        ) && q.polled(gazes.take(k), thresh).last.time >= gazes[k - 1].time,
        q.polled(gazes.take(k + 1), thresh).valid(),
        q.polled(gazes.take(k + 1), thresh).seqno == next_seqno(q.seqno),
        q.polled(gazes.take(k + 1), thresh).pending.len() == 0,
        q.polled(gazes.take(k + 1), thresh).last == kept(
            gazes[k],
            q.seqno,
            q.polled(gazes.take(k + 1), thresh).last.time,
        ),
{
    assert forall|i: int| 0 <= i < k implies !crate::moved(
        #[trigger] gazes[i],
        q.polled(gazes.take(i), thresh).last,
        thresh,
    ) by {
        lemma_polls_without_move(q, gazes, thresh, i);
    }
    lemma_polls_without_move(q, gazes, thresh, k);
    assert(gazes.take(k + 1).drop_last() =~= gazes.take(k));
    assert(gazes.take(k + 1).last() == gazes[k]);
}

/// Every sample that is delivered has its macroblock position made from
/// its video position.
pub proof fn lemma_gaze_macroblocks(q: QueueView, fresh: Option<GazeSample>, now: u64)
    requires
        q.valid(),
    ensures
        in_macroblocks(q.delivered(fresh, now)),
{
    lemma_after_valid(q, fresh, now);
}

} // verus!
