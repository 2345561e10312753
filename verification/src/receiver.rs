use vstd::prelude::*;
use crate::expressions::{UnifiedExpressions, NUM_SHAPES, UNIFIED_COUNT};
use crate::level::Level;
use crate::params::AvatarParameters;
use crate::unified::{Euler, Posef, UnifiedShapes, UnifiedTrackingData};

verus! {

/// Data counts as fresh for this many milliseconds.
pub const LIVENESS_WINDOW_MS: u64 = 1000;

/// Parameter that reports how the avatar is moved.
pub const MOTION_PARAM: &'static str = "Motion";

/// Parameter that holds the face still.
pub const FACE_FREEZE_PARAM: &'static str = "FaceFreeze";

/// Parameters that report that the wearer is away.
pub const AFK_PARAM: &'static str = "AFK";

pub const IS_AFK_PARAM: &'static str = "IsAfk";

/// Parameter that holds back what would be sent.
pub const FACE_PAUSE_PARAM: &'static str = "FacePause";

/// A whole frame from a backend; every part may be missing.
#[derive(Clone, Copy, Debug, PartialEq, Eq)]
pub struct TrackingFrame {
    pub eyes: [Option<Euler>; 2],
    pub shapes: Option<UnifiedShapes>,
    pub head: Option<Posef>,
    pub hands: [Option<Posef>; 2],
}

/// One update that a backend has queued.
#[derive(Clone, Copy, Debug, PartialEq, Eq)]
pub enum TrackingEvent {
    /// A new value for one unified channel.
    Shape(UnifiedExpressions, Level),
    /// A frame of eyes, face and poses.
    Frame(TrackingFrame),
}

/// How much of what the backends queued a tick takes in.
#[derive(Clone, Copy, Debug, PartialEq, Eq, Structural)]
pub enum Ingestion {
    /// The wearer is away: nothing.
    Nothing,
    /// The motion override holds eyes and face: poses only.
    PoseOnly,
    Everything,
}

/// The poses of head and hands, and when the head was last heard of, in
/// milliseconds since the start.
#[derive(Clone, Copy, Debug, PartialEq, Eq)]
pub struct OscTrack {
    pub head: Option<Posef>,
    pub left_hand: Option<Posef>,
    pub right_hand: Option<Posef>,
    pub last_received: Option<u64>,
}

/// Whether the wearer is reported away.
pub open spec fn is_afk(params: &AvatarParameters) -> bool {
    params.is_true_spec(AFK_PARAM@) || params.is_true_spec(IS_AFK_PARAM@)
}

/// Whether the motion override holds eyes and face: exactly one of the
/// motion flag and the face freeze is set.
pub open spec fn is_frozen(params: &AvatarParameters) -> bool {
    params.is_int_spec(MOTION_PARAM@, 1) != params.is_true_spec(FACE_FREEZE_PARAM@)
}

/// How much a tick takes in under these parameters.
pub open spec fn ingestion_of(params: &AvatarParameters) -> Ingestion {
    if is_afk(params) {
        Ingestion::Nothing
    } else if is_frozen(params) {
        Ingestion::PoseOnly
    } else {
        Ingestion::Everything
    }
}

/// How much a tick takes in under these parameters.
pub fn ingestion_mode(params: &AvatarParameters) -> (mode: Ingestion)
    ensures
        mode == ingestion_of(params),
{
    let motion = params.is_int(MOTION_PARAM, 1);
    let face_override = params.is_true(FACE_FREEZE_PARAM);
    let afk = params.is_true(AFK_PARAM) || params.is_true(IS_AFK_PARAM);
    if afk {
        Ingestion::Nothing
    } else if motion != face_override {
        Ingestion::PoseOnly
    } else {
        Ingestion::Everything
    }
}

/// Whether the output is held back.
pub fn output_paused(params: &AvatarParameters) -> (paused: bool)
    ensures
        paused == params.is_true_spec(FACE_PAUSE_PARAM@),
{
    params.is_true(FACE_PAUSE_PARAM)
}

/// Whether something heard at `last` is still fresh at `now`: it was heard
/// less than a second ago.
pub open spec fn spec_is_live(last: Option<u64>, now: u64) -> bool {
    match last {
        Some(t) => now - t < LIVENESS_WINDOW_MS,
        None => false,
    }
}

/// Whether something heard at `last` is still fresh at `now`.
#[verifier::when_used_as_spec(spec_is_live)]
pub fn is_live(last: Option<u64>, now: u64) -> (live: bool)
    ensures
        live == spec_is_live(last, now),
{
    match last {
        Some(t) => now < t || now - t < LIVENESS_WINDOW_MS,
        None => false,
    }
}

/// The channel vector `shapes` with its unified channels taken from `fresh`.
pub open spec fn merged_shapes(shapes: Seq<Level>, fresh: Seq<Level>) -> Seq<Level> {
    Seq::new(
        NUM_SHAPES as nat,
        |i: int|
            if i < UNIFIED_COUNT {
                fresh[i]
            } else {
                shapes[i]
            },
    )
}

/// The channel vector after one event.
pub open spec fn shapes_after_event(shapes: Seq<Level>, event: TrackingEvent) -> Seq<Level> {
    match event {
        TrackingEvent::Shape(e, value) => shapes.update(e.spec_index() as int, value),
        TrackingEvent::Frame(frame) => match frame.shapes {
            Some(fresh) => merged_shapes(shapes, fresh@),
            None => shapes,
        },
    }
}

/// The channel vector after the first `upto` events, taken in order: where
/// two events write the same channel, the later one stays.
pub open spec fn shapes_after(shapes: Seq<Level>, events: Seq<TrackingEvent>, upto: int) -> Seq<
    Level,
>
    decreases upto,
{
    if upto <= 0 {
        shapes
    } else {
        shapes_after_event(shapes_after(shapes, events, upto - 1), events[upto - 1])
    }
}

/// Whether the event writes the channel at position `i`.
pub open spec fn writes_channel(event: TrackingEvent, i: int) -> bool {
    match event {
        TrackingEvent::Shape(e, _) => e.spec_index() == i,
        TrackingEvent::Frame(frame) => frame.shapes is Some && 0 <= i < UNIFIED_COUNT,
    }
}

/// The value that the event writes to the channel at position `i`.
pub open spec fn written_value(event: TrackingEvent, i: int) -> Level {
    match event {
        TrackingEvent::Shape(_, value) => value,
        TrackingEvent::Frame(frame) => frame.shapes->0@[i],
    }
}

/// The last write stays: a channel holds what the last of the queued events
/// that writes it has written, and what it held before where none does.
pub proof fn lemma_last_write_wins(shapes: Seq<Level>, events: Seq<TrackingEvent>, upto: int, i: int)
    requires
        shapes.len() == NUM_SHAPES,
        0 <= upto <= events.len(),
        0 <= i < NUM_SHAPES,
    ensures
        shapes_after(shapes, events, upto).len() == NUM_SHAPES,
        forall|k: int|
            0 <= k < upto && writes_channel(events[k], i) && (forall|j: int|
                k < j < upto ==> !writes_channel(events[j], i)) ==> shapes_after(
                shapes,
                events,
                upto,
            )[i] == written_value(events[k], i),
        (forall|j: int| 0 <= j < upto ==> !writes_channel(events[j], i)) ==> shapes_after(
            shapes,
            events,
            upto,
        )[i] == shapes[i],
    decreases upto,
{
    if upto > 0 {
        lemma_last_write_wins(shapes, events, upto - 1, i);
        let before = shapes_after(shapes, events, upto - 1);
        let last = events[upto - 1];
        if writes_channel(last, i) {
            assert(shapes_after(shapes, events, upto)[i] == written_value(last, i));
        } else {
            assert(shapes_after(shapes, events, upto)[i] == before[i]);
            assert forall|k: int|
                0 <= k < upto && writes_channel(events[k], i) && (forall|j: int|
                    k < j < upto ==> !writes_channel(events[j], i)) implies shapes_after(
                shapes,
                events,
                upto,
            )[i] == written_value(events[k], i) by {
                assert(k < upto - 1);
                assert(forall|j: int| k < j < upto - 1 ==> !writes_channel(events[j], i));
            }
        }
    }
}

/// The gaze of eye `which` after one event.
pub open spec fn eye_after_event(eye: Option<Euler>, which: int, event: TrackingEvent) -> Option<
    Euler,
> {
    match event {
        TrackingEvent::Frame(frame) => match frame.eyes@[which] {
            Some(e) => Some(e),
            None => eye,
        },
        TrackingEvent::Shape(_, _) => eye,
    }
}

/// The gaze of eye `which` after the first `upto` events.
pub open spec fn eye_after(
    eye: Option<Euler>,
    which: int,
    events: Seq<TrackingEvent>,
    upto: int,
) -> Option<Euler>
    decreases upto,
{
    if upto <= 0 {
        eye
    } else {
        eye_after_event(eye_after(eye, which, events, upto - 1), which, events[upto - 1])
    }
}

/// Whether one of the first `upto` events brings eye or face data.
pub open spec fn brings_face(events: Seq<TrackingEvent>, upto: int) -> bool
    decreases upto,
{
    if upto <= 0 {
        false
    } else {
        brings_face(events, upto - 1) || match events[upto - 1] {
            TrackingEvent::Shape(_, _) => true,
            TrackingEvent::Frame(frame) => frame.shapes is Some,
        }
    }
}

/// The poses after one event.
pub open spec fn track_after_event(track: OscTrack, event: TrackingEvent, now: u64) -> OscTrack {
    match event {
        TrackingEvent::Frame(frame) => OscTrack {
            head: if frame.head is Some {
                frame.head
            } else {
                track.head
            },
            left_hand: if frame.hands@[0] is Some {
                frame.hands@[0]
            } else {
                track.left_hand
            },
            right_hand: if frame.hands@[1] is Some {
                frame.hands@[1]
            } else {
                track.right_hand
            },
            last_received: if frame.head is Some {
                Some(now)
            } else {
                track.last_received
            },
        },
        TrackingEvent::Shape(_, _) => track,
    }
}

/// The poses after the first `upto` events.
pub open spec fn track_after(track: OscTrack, events: Seq<TrackingEvent>, upto: int, now: u64) -> OscTrack
    decreases upto,
{
    if upto <= 0 {
        track
    } else {
        track_after_event(track_after(track, events, upto - 1, now), events[upto - 1], now)
    }
}

impl OscTrack {
    /// No pose known yet.
    pub fn new() -> (t: OscTrack)
        ensures
            t.head is None,
            t.left_hand is None,
            t.right_hand is None,
            t.last_received is None,
    {
        OscTrack { head: None, left_hand: None, right_hand: None, last_received: None }
    }

    /// Takes the poses of the queued events in, in order.
    pub fn drain(&mut self, events: &Vec<TrackingEvent>, now: u64)
        ensures
            *final(self) == track_after(*old(self), events@, events@.len() as int, now),
    {
        let mut i: usize = 0;
        while i < events.len()
            invariant
                i <= events@.len(),
                *self == track_after(*old(self), events@, i as int, now),
            decreases events@.len() - i,
        {
            if let TrackingEvent::Frame(frame) = &events[i] {
                if frame.head.is_some() {
                    self.head = frame.head;
                    self.last_received = Some(now);
                }
                if frame.hands[0].is_some() {
                    self.left_hand = frame.hands[0];
                }
                if frame.hands[1].is_some() {
                    self.right_hand = frame.hands[1];
                }
            }
            i += 1;
        }
    }
}

impl UnifiedTrackingData {
    /// Takes every unified channel from `fresh` and leaves the combined ones alone.
    pub fn load_unified(&mut self, fresh: &UnifiedShapes)
        ensures
            final(self).shapes@ == merged_shapes(old(self).shapes@, fresh@),
            final(self).eyes == old(self).eyes,
            final(self).old_shapes == old(self).old_shapes,
            final(self).expression_tracking == old(self).expression_tracking,
            final(self).lip_tracking == old(self).lip_tracking,
    {
        let mut k: usize = 0;
        while k < UNIFIED_COUNT
            invariant
                k <= UNIFIED_COUNT,
                self.eyes == old(self).eyes,
                self.old_shapes == old(self).old_shapes,
                self.expression_tracking == old(self).expression_tracking,
                self.lip_tracking == old(self).lip_tracking,
                forall|j: int| 0 <= j < k ==> self.shapes@[j] == fresh@[j],
                forall|j: int| k <= j < NUM_SHAPES ==> self.shapes@[j] == old(self).shapes@[j],
            decreases UNIFIED_COUNT - k,
        {
            self.shapes[k] = fresh[k];
            k += 1;
        }
        assert(self.shapes@ =~= merged_shapes(old(self).shapes@, fresh@));
    }

    /// Takes eyes and face of the queued events in, in order; says whether
    /// any of them brought face data.
    pub fn drain_into(&mut self, events: &Vec<TrackingEvent>) -> (fresh: bool)
        ensures
            final(self).shapes@ == shapes_after(old(self).shapes@, events@, events@.len() as int),
            final(self).eyes@[0] == eye_after(old(self).eyes@[0], 0, events@, events@.len() as int),
            final(self).eyes@[1] == eye_after(old(self).eyes@[1], 1, events@, events@.len() as int),
            final(self).old_shapes == old(self).old_shapes,
            final(self).expression_tracking == old(self).expression_tracking,
            final(self).lip_tracking == old(self).lip_tracking,
            fresh == brings_face(events@, events@.len() as int),
    {
        let mut fresh = false;
        let mut i: usize = 0;
        while i < events.len()
            invariant
                i <= events@.len(),
                self.shapes@ == shapes_after(old(self).shapes@, events@, i as int),
                self.eyes@[0] == eye_after(old(self).eyes@[0], 0, events@, i as int),
                self.eyes@[1] == eye_after(old(self).eyes@[1], 1, events@, i as int),
                self.old_shapes == old(self).old_shapes,
                self.expression_tracking == old(self).expression_tracking,
                self.lip_tracking == old(self).lip_tracking,
                fresh == brings_face(events@, i as int),
            decreases events@.len() - i,
        {
            match &events[i] {
                TrackingEvent::Shape(e, value) => {
                    self.shapes[e.index()] = *value;
                    fresh = true;
                },
                TrackingEvent::Frame(frame) => {
                    if let Some(left) = frame.eyes[0] {
                        self.eyes[0] = Some(left);
                    }
                    if let Some(right) = frame.eyes[1] {
                        self.eyes[1] = Some(right);
                    }
                    if let Some(shapes) = &frame.shapes {
                        self.load_unified(shapes);
                        fresh = true;
                    }
                },
            }
            i += 1;
        }
        fresh
    }
}

} // verus!
