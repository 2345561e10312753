use vstd::prelude::*;
use crate::autopilot::{AutoPilotStatus, ExtAutoPilot, Followed, Heights};
use crate::bundle::{messages_view, AvatarBundle, OscMessageView, OscValueView};
use crate::cli::FaceSetup;
use crate::discovery::{discovered, table_view};
use crate::gogo::ExtGogo;
use crate::inbound::{Inbound, InboundView, Tracker};
use crate::level::Level;
use crate::oscjson::OscJsonNode;
use crate::params::AvatarParameters;
use crate::receiver::{OscTrack, TrackingEvent};
use crate::storage::ExtStorage;
use crate::tracking::ExtTracking;
use crate::transport::{dispatched, is_chunking, plan_transport, Dispatch, CHUNK_SIZE};
use crate::unified::Posef;
use crate::watchdog::{next_mode, Scheduler, SchedulerEvent};

verus! {

/// Time of the first tick, in microseconds.
pub const FIRST_DELTA_T: u32 = 11_000;

/// What the stages share: the poses, the avatar parameters heard so far,
/// and the time since the last tick in microseconds.
#[derive(Clone, Debug, PartialEq, Eq)]
pub struct AppState {
    pub tracking: OscTrack,
    pub params: AvatarParameters,
    pub delta_t: u32,
}

/// The stages of a tick.
#[derive(Clone, Debug, PartialEq, Eq)]
pub struct AvatarOsc {
    pub ext_autopilot: ExtAutoPilot,
    pub ext_storage: ExtStorage,
    pub ext_gogo: ExtGogo,
    pub ext_tracking: ExtTracking,
}

/// What is left to do after an inbound message was taken in.
#[derive(Clone, Debug, PartialEq, Eq)]
pub enum Action {
    Nothing,
    /// A tick has to run now.
    Tick,
    /// The parameter tree of this avatar has to be fetched.
    Fetch { avatar: String },
    /// The pose of a tracker has to be worked out from its position and angles.
    Place { tracker: Tracker, pose: [Level; 6] },
    /// The message is of no use; it may be noted down.
    Note,
}

/// What an action holds.
pub enum ActionView {
    Nothing,
    Tick,
    Fetch { avatar: Seq<char> },
    Place { tracker: Tracker, pose: Seq<Level> },
    Note,
}

impl View for Action {
    type V = ActionView;

    open spec fn view(&self) -> ActionView {
        match self {
            Action::Nothing => ActionView::Nothing,
            Action::Tick => ActionView::Tick,
            Action::Fetch { avatar } => ActionView::Fetch { avatar: avatar@ },
            Action::Place { tracker, pose } => ActionView::Place { tracker: *tracker, pose: pose@ },
            Action::Note => ActionView::Note,
        }
    }
}

/// What a tick leaves to be done outside: the messages to send, and what to save.
#[derive(Clone, Debug, PartialEq, Eq)]
pub struct TickOutcome {
    pub plan: Dispatch,
    pub save_storage: bool,
    pub save_gogo: bool,
    pub pilot: AutoPilotStatus,
}

/// The action that an inbound message leaves to be done.
pub open spec fn action_of(inbound: InboundView) -> ActionView {
    match inbound {
        InboundView::Heartbeat => ActionView::Tick,
        InboundView::Pose { tracker, pose } => ActionView::Place { tracker, pose },
        InboundView::AvatarChange { avatar } => ActionView::Fetch { avatar },
        InboundView::Unknown => ActionView::Note,
        _ => ActionView::Nothing,
    }
}

/// The height of a pose, zero where none is known.
pub open spec fn height_of(pose: Option<Posef>) -> Level {
    match pose {
        Some(p) => p.position@[1],
        None => 0,
    }
}

/// The heights of hands and head.
pub open spec fn heights_of(track: OscTrack) -> Heights {
    Heights {
        left_hand: height_of(track.left_hand),
        right_hand: height_of(track.right_hand),
        head: height_of(track.head),
    }
}

fn height(pose: Option<Posef>) -> (h: Level)
    ensures
        h == height_of(pose),
{
    match pose {
        Some(p) => p.position[1],
        None => 0,
    }
}

impl OscTrack {
    /// The poses with `pose` as the pose of `tracker`; the head also notes
    /// when it was heard of.
    pub open spec fn placed(self, tracker: Tracker, pose: Posef, now: u64) -> OscTrack {
        match tracker {
            Tracker::Head => OscTrack { head: Some(pose), last_received: Some(now), ..self },
            Tracker::LeftWrist => OscTrack { left_hand: Some(pose), ..self },
            Tracker::RightWrist => OscTrack { right_hand: Some(pose), ..self },
            Tracker::Other => self,
        }
    }

    /// Takes note of the pose of a tracker, heard at `now`.
    pub fn place(&mut self, tracker: Tracker, pose: Posef, now: u64)
        ensures
            *final(self) == old(self).placed(tracker, pose, now),
    {
        match tracker {
            Tracker::Head => {
                self.last_received = Some(now);
                self.head = Some(pose);
            },
            Tracker::LeftWrist => {
                self.left_hand = Some(pose);
            },
            Tracker::RightWrist => {
                self.right_hand = Some(pose);
            },
            Tracker::Other => {},
        }
    }
}

impl AppState {
    /// Nothing heard yet.
    pub fn new() -> (state: AppState)
        ensures
            state.tracking.head is None,
            state.tracking.left_hand is None,
            state.tracking.right_hand is None,
            state.tracking.last_received is None,
            forall|name: Seq<char>| state.params.spec_get(name) is None,
            state.delta_t == FIRST_DELTA_T,
    {
        AppState { tracking: OscTrack::new(), params: AvatarParameters::new(), delta_t: FIRST_DELTA_T }
    }
}

impl AvatarOsc {
    /// The stages are in order: the store has its places, the descriptors are well formed.
    pub open spec fn wf(&self) -> bool {
        self.ext_storage.wf() && self.ext_tracking.wf()
    }

    /// Checks that the stages are in order.
    pub fn is_wf(&self) -> (r: bool)
        ensures
            r == self.wf(),
    {
        self.ext_storage.is_wf() && self.ext_tracking.is_wf()
    }

    /// The stages at rest, with what was kept of the poses and of the store.
    pub fn new(setup: FaceSetup, ext_gogo: ExtGogo, ext_storage: ExtStorage) -> (me: AvatarOsc)
        requires
            ext_storage.wf(),
        ensures
            me.wf(),
            me.ext_gogo == ext_gogo,
            me.ext_storage == ext_storage,
            me.ext_autopilot == ExtAutoPilot::at_rest(),
            table_view(me.ext_tracking.params@) == crate::tracking::default_table(),
            me.ext_tracking.setup == setup,
    {
        AvatarOsc {
            ext_autopilot: ExtAutoPilot::new(),
            ext_storage,
            ext_gogo,
            ext_tracking: ExtTracking::new(setup),
        }
    }

    /// Takes one inbound message in, at `now` milliseconds since the start,
    /// and says what is left to do. The heartbeat hands the ticks to the
    /// avatar runtime; a reported parameter goes to the store, to the idle
    /// poses and into the parameters heard so far.
    pub fn handle_message(
        &mut self,
        state: &mut AppState,
        scheduler: &mut Scheduler,
        inbound: Inbound,
        now: u64,
    ) -> (action: Action)
        requires
            old(self).wf(),
        ensures
            final(self).wf(),
            action@ == action_of(inbound@),
            final(self).ext_autopilot == old(self).ext_autopilot,
            final(self).ext_tracking == old(self).ext_tracking,
            final(state).tracking == old(state).tracking,
            final(state).delta_t == old(state).delta_t,
            match inbound@ {
                InboundView::Heartbeat => {
                    &&& final(scheduler).mode == next_mode(
                        *old(scheduler),
                        SchedulerEvent::Heartbeat,
                        now,
                    )
                    &&& final(scheduler).watchdog.last_received == now
                    &&& final(self).ext_storage == old(self).ext_storage
                    &&& final(self).ext_gogo == old(self).ext_gogo
                    &&& final(state).params == old(state).params
                },
                InboundView::Parameter { name, value } => {
                    &&& *final(scheduler) == *old(scheduler)
                    &&& final(state).params.spec_get(name) == Some(value)
                    &&& forall|other: Seq<char>|
                        other != name ==> final(state).params.spec_get(other) == old(
                            state,
                        ).params.spec_get(other)
                    &&& final(self).ext_gogo.staging == old(self).ext_gogo.staging_after(
                        name,
                        value,
                        now,
                    )
                    &&& final(self).ext_storage.ext_index == if name
                        == crate::storage::EXT_INDEX_PARAM@ && value is Int {
                        ExtStorage::place_of(value->Int_0)
                    } else {
                        old(self).ext_storage.ext_index
                    }
                    &&& final(self).ext_storage.ext_value == if name
                        == crate::storage::EXT_VALUE_PARAM@ && value is Float {
                        value->Float_0
                    } else {
                        old(self).ext_storage.ext_value
                    }
                    &&& match old(self).ext_storage.writes(name, value) {
                        Some((place, v)) => final(self).ext_storage.data@ == old(
                            self,
                        ).ext_storage.data@.update(place, v) && final(self).ext_storage.int_index
                            == 0,
                        None => final(self).ext_storage.data@ == old(self).ext_storage.data@
                            && final(self).ext_storage.int_index == old(
                            self,
                        ).ext_storage.int_index,
                    }
                },
                _ => {
                    &&& *final(scheduler) == *old(scheduler)
                    &&& final(self).ext_storage == old(self).ext_storage
                    &&& final(self).ext_gogo == old(self).ext_gogo
                    &&& final(state).params == old(state).params
                },
            },
    {
        match inbound {
            Inbound::Heartbeat => {
                scheduler.on_event(SchedulerEvent::Heartbeat, now);
                Action::Tick
            },
            Inbound::Parameter { name, value } => {
                self.ext_storage.notify(name.as_str(), &value);
                self.ext_gogo.notify(name.as_str(), &value, now);
                state.params.insert(name, value);
                Action::Nothing
            },
            Inbound::Pose { tracker, pose } => Action::Place { tracker, pose },
            Inbound::AvatarChange { avatar } => Action::Fetch { avatar },
            Inbound::Unknown => Action::Note,
            Inbound::EmptyParameter => Action::Nothing,
            Inbound::MalformedPose => Action::Nothing,
            Inbound::MalformedAvatarChange => Action::Nothing,
        }
    }

    /// The avatar changed at `now`, and `root` is its parameter tree where
    /// one could be fetched. With a tree the descriptors are rebuilt from
    /// it. The kept idle poses are sent, and the ticks go to the avatar
    /// runtime only if the tree holds the heartbeat parameter.
    pub fn avatar(
        &mut self,
        scheduler: &mut Scheduler,
        root: Option<&OscJsonNode>,
        now: u64,
    ) -> (bundle: AvatarBundle)
        requires
            old(self).wf(),
        ensures
            final(self).wf(),
            bundle@ == old(self).ext_gogo.pose_messages(),
            table_view(final(self).ext_tracking.params@) == match root {
                Some(node) => discovered(node@),
                None => table_view(old(self).ext_tracking.params@),
            },
            final(self).ext_tracking.data == old(self).ext_tracking.data,
            final(self).ext_tracking.setup == old(self).ext_tracking.setup,
            final(self).ext_tracking.last_face == old(self).ext_tracking.last_face,
            final(self).ext_gogo.staging is None,
            final(self).ext_gogo.avatar_changed == Some(now),
            final(self).ext_gogo.idle_stand == old(self).ext_gogo.idle_stand,
            final(self).ext_gogo.idle_crouch == old(self).ext_gogo.idle_crouch,
            final(self).ext_gogo.idle_prone == old(self).ext_gogo.idle_prone,
            final(self).ext_gogo.path == old(self).ext_gogo.path,
            final(self).ext_storage == old(self).ext_storage,
            final(self).ext_autopilot == old(self).ext_autopilot,
            final(scheduler).watchdog == old(scheduler).watchdog,
            final(scheduler).mode == next_mode(
                *old(scheduler),
                SchedulerEvent::Discovered {
                    has_vsync: root matches Some(node) && node@.has_vsync(),
                },
                now,
            ),
    {
        let has_vsync = match root {
            Some(node) => {
                self.ext_tracking.osc_json(node);
                node.has_vsync()
            },
            None => false,
        };
        let mut bundle = AvatarBundle::new_bundle();
        self.ext_gogo.avatar(now, &mut bundle);
        scheduler.on_event(SchedulerEvent::Discovered { has_vsync }, now);
        assert(bundle@ =~= old(self).ext_gogo.pose_messages());
        bundle
    }

    /// One tick at `now` milliseconds since the start: the store, then the
    /// face tracking, then the idle poses, then the autopilot put their
    /// messages into one list, in this order, and the list is cut up for
    /// the way out. `events` is what the backends have queued, `followed`
    /// the way to the target of the autopilot, where there is one.
    pub fn process(
        &mut self,
        state: &mut AppState,
        events: &Vec<TrackingEvent>,
        followed: Option<Followed>,
        now: u64,
    ) -> (outcome: TickOutcome)
        requires
            old(self).wf(),
        ensures
            final(self).wf(),
            final(state).params == old(state).params,
            final(state).delta_t == old(state).delta_t,
            final(state).tracking == ExtTracking::track_stepped(
                old(state).tracking,
                &old(state).params,
                events@,
                now,
            ),
            final(self).ext_storage == old(self).ext_storage.stepped(now),
            ExtTracking::is_step(
                &old(self).ext_tracking,
                &final(self).ext_tracking,
                &old(state).params,
                events@,
                old(state).delta_t,
                now,
            ),
            final(self).ext_gogo == old(self).ext_gogo.stepped(now),
            final(self).ext_autopilot == old(self).ext_autopilot.stepped(
                &old(state).params,
                heights_of(final(state).tracking),
                &final(self).ext_tracking.data,
                followed,
            ),
            messages_view(dispatched(outcome.plan)) == old(self).ext_storage.step_messages(now)
                + ExtTracking::step_messages(
                &old(self).ext_tracking,
                &final(self).ext_tracking.data,
                &old(state).params,
            ) + ExtGogo::loco_messages(&old(state).params) + old(self).ext_autopilot.step_messages(
                &old(state).params,
                heights_of(final(state).tracking),
                &final(self).ext_tracking.data,
                followed,
            ),
            outcome.plan.fast is Some <==> dispatched(outcome.plan).len() > 0,
            is_chunking(
                if outcome.plan.fast is Some {
                    dispatched(outcome.plan).skip(1)
                } else {
                    dispatched(outcome.plan)
                },
                outcome.plan.chunks@,
                CHUNK_SIZE as int,
            ),
            outcome.save_storage == old(self).ext_storage.step_saves(now),
            outcome.save_gogo == old(self).ext_gogo.commit_due(now),
            outcome.pilot == ExtAutoPilot::status_of(&old(state).params, followed),
    {
        let mut bundle = AvatarBundle::new_bundle();
        let save_storage = self.ext_storage.step(now, &mut bundle);
        self.ext_tracking.step(
            &state.params,
            &mut state.tracking,
            events,
            state.delta_t,
            now,
            &mut bundle,
        );
        let save_gogo = self.ext_gogo.step(&state.params, now, &mut bundle);
        let heights = Heights {
            left_hand: height(state.tracking.left_hand),
            right_hand: height(state.tracking.right_hand),
            head: height(state.tracking.head),
        };
        let pilot = self.ext_autopilot.step(
            &state.params,
            heights,
            &self.ext_tracking.data,
            followed,
            &mut bundle,
        );
        let ghost all = bundle@;
        let plan = plan_transport(bundle);
        proof {
            assert(all =~= old(self).ext_storage.step_messages(now) + ExtTracking::step_messages(
                &old(self).ext_tracking,
                &self.ext_tracking.data,
                &old(state).params,
            ) + ExtGogo::loco_messages(&old(state).params) + old(self).ext_autopilot.step_messages(
                &old(state).params,
                heights,
                &self.ext_tracking.data,
                followed,
            ));
        }
        TickOutcome { plan, save_storage, save_gogo, pilot }
    }
}

} // verus!
