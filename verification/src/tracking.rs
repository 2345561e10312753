use vstd::prelude::*;
use crate::bundle::{AvatarBundle, OscMessageView};
use crate::cli::FaceSetup;
use crate::discovery::{
    cleared_table, discover, discovered, empty_table, fresh_descriptor, table_is_wf, table_view,
    table_wf, TableView,
};
use crate::encoder::{texts_view, MysteryParam, MysteryParamView};
use crate::expressions::{CombinedExpression, UnifiedExpressions, NUM_SHAPES};
use crate::oscjson::OscJsonNode;
use crate::params::AvatarParameters;
use crate::receiver::{
    brings_face, eye_after, ingestion_mode, ingestion_of, is_live, output_paused, shapes_after,
    track_after, Ingestion, OscTrack, TrackingEvent, FACE_PAUSE_PARAM,
};
use crate::text::{joined, owned};
use crate::unified::{
    activation_messages, blush_rising, channel_messages, eye_messages, is_derivation, table_after,
    UnifiedTrackingData,
};

verus! {

/// What the addresses of the default descriptors begin with.
pub const DEFAULT_ADDRESS_PREFIX: &'static str = "FT/v2/";

/// Number of combined channels that have a descriptor before any discovery.
pub const DEFAULT_COMBINED_COUNT: usize = 15;

/// Number of unified channels that have a descriptor before any discovery.
pub const DEFAULT_UNIFIED_COUNT: usize = 6;

/// The combined channels that have a descriptor before any discovery.
pub open spec fn default_combined() -> Seq<CombinedExpression> {
    seq![
        CombinedExpression::BrowExpressionLeft,
        CombinedExpression::BrowExpressionRight,
        CombinedExpression::EyeLidLeft,
        CombinedExpression::EyeLidRight,
        CombinedExpression::JawX,
        CombinedExpression::LipFunnelLower,
        CombinedExpression::LipFunnelUpper,
        CombinedExpression::LipPucker,
        CombinedExpression::MouthLowerDown,
        CombinedExpression::MouthStretchTightenLeft,
        CombinedExpression::MouthStretchTightenRight,
        CombinedExpression::MouthUpperUp,
        CombinedExpression::MouthX,
        CombinedExpression::SmileSadLeft,
        CombinedExpression::SmileSadRight,
    ]
}

/// The unified channels that have a descriptor before any discovery.
pub open spec fn default_unified() -> Seq<UnifiedExpressions> {
    seq![
        UnifiedExpressions::CheekPuffLeft,
        UnifiedExpressions::CheekPuffRight,
        UnifiedExpressions::EyeSquintLeft,
        UnifiedExpressions::EyeSquintRight,
        UnifiedExpressions::JawOpen,
        UnifiedExpressions::MouthClosed,
    ]
}

/// The descriptor that sends the channel `name` directly to its default address.
pub open spec fn default_descriptor(name: Seq<char>) -> MysteryParamView {
    MysteryParamView {
        main_address: Some(DEFAULT_ADDRESS_PREFIX@ + name),
        ..fresh_descriptor(name)
    }
}

/// The table with default descriptors for the first `upto` of the default combined channels.
pub open spec fn with_default_combined(upto: int) -> TableView
    decreases upto,
{
    if upto <= 0 {
        empty_table()
    } else {
        let c = default_combined()[upto - 1];
        with_default_combined(upto - 1).update(
            c.spec_index() as int,
            Some(default_descriptor(c.spec_name())),
        )
    }
}

/// The table with default descriptors for all default combined channels
/// and the first `upto` of the default unified ones.
pub open spec fn with_default_unified(upto: int) -> TableView
    decreases upto,
{
    if upto <= 0 {
        with_default_combined(DEFAULT_COMBINED_COUNT as int)
    } else {
        let u = default_unified()[upto - 1];
        with_default_unified(upto - 1).update(
            u.spec_index() as int,
            Some(default_descriptor(u.spec_name())),
        )
    }
}

/// The table in use before any discovery.
pub open spec fn default_table() -> TableView {
    with_default_unified(DEFAULT_UNIFIED_COUNT as int)
}

/// The summary lines of the descriptors below `upto`, in the order of the channels.
pub open spec fn summaries(table: TableView, upto: int) -> Seq<Seq<char>>
    decreases upto,
{
    if upto <= 0 {
        Seq::empty()
    } else {
        let rest = summaries(table, upto - 1);
        match table[upto - 1] {
            Some(p) => rest.push(p.summary()),
            None => rest,
        }
    }
}

/// The descriptor that sends the channel `name` directly to its default address.
fn default_param(name: &str) -> (p: MysteryParam)
    ensures
        p@ == default_descriptor(name@),
        p.wf(),
{
    let mut p = MysteryParam::new(owned(name));
    p.main_address = Some(joined(DEFAULT_ADDRESS_PREFIX, name));
    assert(p@.addresses =~= default_descriptor(name@).addresses);
    assert(p@.last_bits =~= default_descriptor(name@).last_bits);
    p
}

/// The face tracking stage: the canonical state, the descriptors by which
/// it is sent, and when face data was last taken in.
#[derive(Clone, Debug, PartialEq, Eq)]
pub struct ExtTracking {
    pub data: UnifiedTrackingData,
    pub params: Vec<Option<MysteryParam>>,
    pub setup: FaceSetup,
    pub last_face: Option<u64>,
}

impl ExtTracking {
    /// The descriptors have one place per channel and are well formed.
    pub open spec fn wf(&self) -> bool {
        table_wf(table_view(self.params@))
    }

    /// Checks that the descriptors have one place per channel and are well formed.
    pub fn is_wf(&self) -> (r: bool)
        ensures
            r == self.wf(),
    {
        table_is_wf(&self.params)
    }

    /// A stage with the state at rest and the default descriptors.
    pub fn new(setup: FaceSetup) -> (me: ExtTracking)
        ensures
            me.wf(),
            table_view(me.params@) == default_table(),
            me.setup == setup,
            me.last_face is None,
            forall|i: int| 0 <= i < NUM_SHAPES ==> me.data.shapes@[i] == 0,
            me.data.eyes@[0] is None,
            me.data.eyes@[1] is None,
            me.data.old_shapes is None,
            !me.data.expression_tracking,
            !me.data.lip_tracking,
    {
        let default_combined = [
            CombinedExpression::BrowExpressionLeft,
            CombinedExpression::BrowExpressionRight,
            CombinedExpression::EyeLidLeft,
            CombinedExpression::EyeLidRight,
            CombinedExpression::JawX,
            CombinedExpression::LipFunnelLower,
            CombinedExpression::LipFunnelUpper,
            CombinedExpression::LipPucker,
            CombinedExpression::MouthLowerDown,
            CombinedExpression::MouthStretchTightenLeft,
            CombinedExpression::MouthStretchTightenRight,
            CombinedExpression::MouthUpperUp,
            CombinedExpression::MouthX,
            CombinedExpression::SmileSadLeft,
            CombinedExpression::SmileSadRight,
        ];
        let default_unified = [
            UnifiedExpressions::CheekPuffLeft,
            UnifiedExpressions::CheekPuffRight,
            UnifiedExpressions::EyeSquintLeft,
            UnifiedExpressions::EyeSquintRight,
            UnifiedExpressions::JawOpen,
            UnifiedExpressions::MouthClosed,
        ];
        assert(default_combined@ =~= self::default_combined());
        assert(default_unified@ =~= self::default_unified());
        let mut params = cleared_table();
        let mut i: usize = 0;
        while i < DEFAULT_COMBINED_COUNT
            invariant
                i <= DEFAULT_COMBINED_COUNT,
                default_combined@ == self::default_combined(),
                table_wf(table_view(params@)),
                table_view(params@) == with_default_combined(i as int),
            decreases DEFAULT_COMBINED_COUNT - i,
        {
            let e = default_combined[i];
            let ghost before = table_view(params@);
            params[e.index()] = Some(default_param(e.name()));
            i += 1;
            assert(table_view(params@) =~= before.update(
                e.spec_index() as int,
                Some(default_descriptor(e.spec_name())),
            ));
        }
        let mut k: usize = 0;
        while k < DEFAULT_UNIFIED_COUNT
            invariant
                k <= DEFAULT_UNIFIED_COUNT,
                default_unified@ == self::default_unified(),
                table_wf(table_view(params@)),
                table_view(params@) == with_default_unified(k as int),
            decreases DEFAULT_UNIFIED_COUNT - k,
        {
            let e = default_unified[k];
            let ghost before = table_view(params@);
            params[e.index()] = Some(default_param(e.name()));
            k += 1;
            assert(table_view(params@) =~= before.update(
                e.spec_index() as int,
                Some(default_descriptor(e.spec_name())),
            ));
        }
        ExtTracking { data: UnifiedTrackingData::new(), params, setup, last_face: None }
    }

    /// Rebuilds the descriptors from a newly announced parameter tree.
    /// Nothing of the old descriptors is kept.
    pub fn osc_json(&mut self, avatar_node: &OscJsonNode)
        ensures
            table_view(final(self).params@) == discovered(avatar_node@),
            final(self).wf(),
            final(self).data == old(self).data,
            final(self).setup == old(self).setup,
            final(self).last_face == old(self).last_face,
    {
        self.params = discover(avatar_node);
    }

    /// One line for every channel that has a descriptor, saying what it offers.
    pub fn print_params(&self) -> (lines: Vec<String>)
        requires
            self.wf(),
        ensures
            texts_view(lines@) == summaries(table_view(self.params@), NUM_SHAPES as int),
    {
        let mut lines: Vec<String> = Vec::new();
        let mut i: usize = 0;
        while i < NUM_SHAPES
            invariant
                i <= NUM_SHAPES,
                self.params@.len() == NUM_SHAPES,
                texts_view(lines@) == summaries(table_view(self.params@), i as int),
            decreases NUM_SHAPES - i,
        {
            if let Some(p) = &self.params[i] {
                lines.push(p.summary());
            }
            i += 1;
            assert(texts_view(lines@) =~= summaries(table_view(self.params@), i as int));
        }
        lines
    }

    /// Whether face data was taken in during the last second before `now`.
    pub fn face_live(&self, now: u64) -> (live: bool)
        ensures
            live == is_live(self.last_face, now),
    {
        is_live(self.last_face, now)
    }

    /// What the stage takes of the queued events under these parameters:
    /// all of them, or none.
    pub open spec fn taken(params: &AvatarParameters, events: Seq<TrackingEvent>) -> int {
        if ingestion_of(params) == Ingestion::Everything {
            events.len() as int
        } else {
            0
        }
    }

    /// The poses after a tick: the poses of the queued events are taken in
    /// unless the wearer is away.
    pub open spec fn track_stepped(
        track: OscTrack,
        params: &AvatarParameters,
        events: Seq<TrackingEvent>,
        now: u64,
    ) -> OscTrack {
        if ingestion_of(params) == Ingestion::Nothing {
            track
        } else {
            track_after(track, events, events.len() as int, now)
        }
    }

    /// `after` is what one tick makes of the stage `before`: eyes and face
    /// of the queued events are taken in as far as the parameters allow,
    /// the combined channels are derived from that, and, unless the output
    /// is paused, every descriptor has sent its channel.
    pub open spec fn is_step(
        before: &ExtTracking,
        after: &ExtTracking,
        params: &AvatarParameters,
        events: Seq<TrackingEvent>,
        delta_t: u32,
        now: u64,
    ) -> bool {
        let upto = Self::taken(params, events);
        let paused = params.is_true_spec(FACE_PAUSE_PARAM@);
        let table = table_view(before.params@);
        &&& after.wf()
        &&& after.setup == before.setup
        &&& after.data.eyes@[0] == eye_after(before.data.eyes@[0], 0, events, upto)
        &&& after.data.eyes@[1] == eye_after(before.data.eyes@[1], 1, events, upto)
        &&& is_derivation(
            shapes_after(before.data.shapes@, events, upto),
            after.data.shapes@,
            blush_rising(params, after.data.eyes),
            delta_t,
        )
        &&& after.last_face == if brings_face(events, upto) {
            Some(now)
        } else {
            before.last_face
        }
        &&& paused ==> {
            &&& table_view(after.params@) == table
            &&& after.data.old_shapes == before.data.old_shapes
            &&& after.data.expression_tracking == before.data.expression_tracking
            &&& after.data.lip_tracking == before.data.lip_tracking
        }
        &&& !paused ==> {
            &&& table_view(after.params@) == table_after(
                table,
                after.data.shapes@,
                NUM_SHAPES as int,
            )
            &&& after.data.old_shapes == Some(after.data.shapes)
            &&& after.data.expression_tracking
            &&& after.data.lip_tracking
        }
    }

    /// What one tick sends, given the state that it ends in: nothing while
    /// the output is paused; else what switches tracking on, then every
    /// channel that has a descriptor, then the eyes.
    pub open spec fn step_messages(
        before: &ExtTracking,
        after: &UnifiedTrackingData,
        params: &AvatarParameters,
    ) -> Seq<OscMessageView> {
        if params.is_true_spec(FACE_PAUSE_PARAM@) {
            Seq::empty()
        } else {
            let table = table_view(before.params@);
            activation_messages(before.data.expression_tracking, before.data.lip_tracking)
                + channel_messages(table, after.shapes@, NUM_SHAPES as int) + eye_messages(
                after.eyes,
                table[CombinedExpression::EyeLidLeft.spec_index() as int] is Some,
                after.shapes@[UnifiedExpressions::EyeClosedLeft.spec_index() as int],
            )
        }
    }

    /// One tick of the stage. Takes in what the backends have queued, as far
    /// as the avatar parameters allow: nothing while the wearer is away,
    /// poses only while the motion override holds, else everything. Then
    /// derives the combined channels, and, unless the output is paused,
    /// encodes the state into `bundle`.
    pub fn step(
        &mut self,
        params: &AvatarParameters,
        track: &mut OscTrack,
        events: &Vec<TrackingEvent>,
        delta_t: u32,
        now: u64,
        bundle: &mut AvatarBundle,
    )
        requires
            old(self).wf(),
        ensures
            Self::is_step(old(self), final(self), params, events@, delta_t, now),
            *final(track) == Self::track_stepped(*old(track), params, events@, now),
            final(bundle)@ == old(bundle)@ + Self::step_messages(
                old(self),
                &final(self).data,
                params,
            ),
    {
        match ingestion_mode(params) {
            Ingestion::Nothing => {},
            Ingestion::PoseOnly => {
                track.drain(events, now);
            },
            Ingestion::Everything => {
                track.drain(events, now);
                if self.data.drain_into(events) {
                    self.last_face = Some(now);
                }
            },
        }
        self.data.calc_combined(params, delta_t);
        if output_paused(params) {
            assert(bundle@ =~= old(bundle)@ + Self::step_messages(old(self), &self.data, params));
            return ;
        }
        self.data.apply_to_bundle(&mut self.params, bundle);
    }
}

} // verus!
