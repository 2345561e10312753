use vstd::prelude::*;
use crate::blend::{blend, spec_blend};
use crate::bundle::{input_message, AvatarBundle, OscMessageView, OscValueView};
use crate::encoder::SEND_THRESHOLD;
use crate::expressions::UnifiedExpressions;
use crate::level::{clamp_int, Level, UNIT};
use crate::params::AvatarParameters;
use crate::unified::{negated, unified, Euler, UnifiedTrackingData};

verus! {

/// A target nearer than this is not walked to: a tenth of a metre.
pub const MOVE_THRESHOLD_METERS: Level = 100_000;

/// From this distance on the avatar runs: half a metre.
pub const RUN_THRESHOLD_METERS: Level = 500_000;

pub const GRABBED_PARAM: &'static str = "Seeker_IsGrabbed";

pub const TRACKER_PARAM: &'static str = "Tracker1_Enable";

pub const AUTOPILOT_PARAM: &'static str = "AutoPilot";

pub const EMOTE_PARAM: &'static str = "VRCEmote";

pub const JUMP_BUTTON: &'static str = "Jump";

pub const VOICE_BUTTON: &'static str = "Voice";

pub const LOOK_AXIS: &'static str = "LookHorizontal";

pub const VERTICAL_AXIS: &'static str = "Vertical";

pub const HORIZONTAL_AXIS: &'static str = "Horizontal";

/// The emotes from this one on let the avatar fly.
pub const FLIGHT_EMOTE_FIRST: i32 = 120;

/// The emotes up to this one let the avatar fly.
pub const FLIGHT_EMOTE_LAST: i32 = 124;

/// Whom the avatar follows.
#[derive(Clone, Copy, Debug, PartialEq, Eq, Structural)]
pub enum FollowMode {
    Off,
    /// The hand that grabbed it; it walks but does not turn.
    Grabbed,
    /// A tracker; it turns towards it and keeps a running distance.
    Tracker,
}

/// What the autopilot is doing, for the status line.
#[derive(Clone, Copy, Debug, PartialEq, Eq, Structural)]
pub enum AutoPilotStatus {
    Follow,
    Manual,
    Off,
}

/// The three axes that move the avatar.
#[derive(Clone, Copy, Debug, PartialEq, Eq, Structural)]
pub struct Steering {
    pub look_horizontal: Level,
    pub vertical: Level,
    pub horizontal: Level,
}

/// The way to a target, worked out by whoever knows where the target is.
#[derive(Clone, Copy, Debug, PartialEq, Eq, Structural)]
pub struct Followed {
    pub steering: Steering,
    /// Whether the target was far enough away to walk to.
    pub moved: bool,
}

/// The heights of both hands and of the head.
#[derive(Clone, Copy, Debug, PartialEq, Eq, Structural)]
pub struct Heights {
    pub left_hand: Level,
    pub right_hand: Level,
    pub head: Level,
}

/// Steers the avatar by the face, or after a target.
#[derive(Clone, Copy, Debug, PartialEq, Eq, Structural)]
pub struct ExtAutoPilot {
    pub voice: bool,
    pub voice_lock: bool,
    pub jumped: bool,
    pub jump_cd: i32,
    pub follow_before: bool,
    pub last_sent: Steering,
}

/// Whom the avatar follows under these parameters.
pub open spec fn follow_mode_of(params: &AvatarParameters) -> FollowMode {
    if params.is_true_spec(GRABBED_PARAM@) {
        FollowMode::Grabbed
    } else if params.is_true_spec(TRACKER_PARAM@) {
        FollowMode::Tracker
    } else {
        FollowMode::Off
    }
}

/// Whom the avatar follows under these parameters.
pub fn follow_mode(params: &AvatarParameters) -> (mode: FollowMode)
    ensures
        mode == follow_mode_of(params),
{
    if params.is_true(GRABBED_PARAM) {
        FollowMode::Grabbed
    } else if params.is_true(TRACKER_PARAM) {
        FollowMode::Tracker
    } else {
        FollowMode::Off
    }
}

/// The distance from which a target is walked to.
pub fn follow_distance(mode: FollowMode) -> (d: Level)
    ensures
        d == if mode == FollowMode::Tracker {
            RUN_THRESHOLD_METERS
        } else {
            MOVE_THRESHOLD_METERS
        },
{
    match mode {
        FollowMode::Tracker => RUN_THRESHOLD_METERS,
        _ => MOVE_THRESHOLD_METERS,
    }
}

/// Whether the emote lets the avatar fly.
pub open spec fn flight_emote(params: &AvatarParameters) -> bool {
    params.spec_get(EMOTE_PARAM@) matches Some(OscValueView::Int(e)) && FLIGHT_EMOTE_FIRST <= e
        <= FLIGHT_EMOTE_LAST
}

/// The ticks to wait after a jump that starts with the left hand at
/// `left` and the head at `head`: thirty, less a hundred for each metre
/// that the hand is above the head plus a tenth, up to three tenths.
pub open spec fn spec_jump_cooldown(left: Level, head: Level) -> i32 {
    let diff = clamp_int(left + 100_000 - head, 0, 300_000);
    ((30 * UNIT - 100 * diff) / (UNIT as int)) as i32
}

/// The ticks to wait after a jump.
#[verifier::when_used_as_spec(spec_jump_cooldown)]
pub fn jump_cooldown(left: Level, head: Level) -> (cd: i32)
    ensures
        cd == spec_jump_cooldown(left, head),
        0 <= cd <= 30,
{
    let raw: i64 = left as i64 + 100_000 - head as i64;
    let diff: i64 = if raw < 0 {
        0
    } else if raw > 300_000 {
        300_000
    } else {
        raw
    };
    ((30_000_000 - 100 * diff) / 1_000_000) as i32
}

/// The sideways look that the left eye asks for: against the eye where it
/// looks out of the middle range, else none.
pub open spec fn look_of(eye: Option<Euler>) -> Level {
    match eye {
        Some(e) => if e.z < -600_000 || e.z > 500_000 {
            negated(e.z)
        } else {
            0
        },
        None => 0,
    }
}

/// The up and down that the cheeks ask for: up by six tenths of the puff
/// where both cheeks puff by more than a half together, down by as much of
/// the suck where they suck by more; never more than one.
pub open spec fn vertical_of(shapes: Seq<Level>) -> Level {
    let puff = unified(shapes, UnifiedExpressions::CheekPuffLeft) + unified(
        shapes,
        UnifiedExpressions::CheekPuffRight,
    );
    let suck = unified(shapes, UnifiedExpressions::CheekSuckLeft) + unified(
        shapes,
        UnifiedExpressions::CheekSuckRight,
    );
    if puff > 500_000 {
        clamp_int(spec_blend(3 * puff, 5) as int, i32::MIN as int, UNIT as int) as Level
    } else if suck > 500_000 {
        negated(clamp_int(spec_blend(3 * suck, 5) as int, i32::MIN as int, UNIT as int) as Level)
    } else {
        0
    }
}

/// How far the four brow channels are raised together.
pub open spec fn brows_of(shapes: Seq<Level>) -> int {
    unified(shapes, UnifiedExpressions::BrowInnerUpLeft) + unified(
        shapes,
        UnifiedExpressions::BrowInnerUpRight,
    ) + unified(shapes, UnifiedExpressions::BrowOuterUpLeft) + unified(
        shapes,
        UnifiedExpressions::BrowOuterUpRight,
    )
}

/// Whether `now` is more than a hundredth away from `then`.
pub open spec fn moved(now: Level, then: Level) -> bool {
    now - then > SEND_THRESHOLD || then - now > SEND_THRESHOLD
}

/// The message for one axis, where it moved far enough from what was sent last.
pub open spec fn axis_messages(name: Seq<char>, now: Level, then: Level) -> Seq<OscMessageView> {
    if moved(now, then) {
        seq![input_message(name, OscValueView::Float(now))]
    } else {
        Seq::empty()
    }
}

/// What is remembered of an axis after it was looked at.
pub open spec fn axis_after(now: Level, then: Level) -> Level {
    if moved(now, then) {
        now
    } else {
        then
    }
}

/// The message that presses or releases a button.
pub open spec fn button(name: Seq<char>, down: bool) -> Seq<OscMessageView> {
    seq![input_message(name, OscValueView::Bool(down))]
}

fn axis_moved(now: Level, then: Level) -> (r: bool)
    ensures
        r == moved(now, then),
{
    let delta: i64 = now as i64 - then as i64;
    delta > 10_000 || delta < -10_000
}

impl ExtAutoPilot {
    /// The autopilot before it has done anything.
    pub open spec fn at_rest() -> ExtAutoPilot {
        ExtAutoPilot {
            voice: false,
            voice_lock: false,
            jumped: false,
            jump_cd: 0,
            follow_before: false,
            last_sent: Steering { look_horizontal: 0, vertical: 0, horizontal: 0 },
        }
    }

    /// An autopilot that has done nothing yet.
    pub fn new() -> (me: ExtAutoPilot)
        ensures
            me == Self::at_rest(),
    {
        ExtAutoPilot {
            voice: false,
            voice_lock: false,
            jumped: false,
            jump_cd: 0,
            follow_before: false,
            last_sent: Steering { look_horizontal: 0, vertical: 0, horizontal: 0 },
        }
    }

    /// Whether the avatar may flap: a flight emote plays and both hands are above the head.
    pub open spec fn flapping(params: &AvatarParameters, heights: Heights) -> bool {
        flight_emote(params) && heights.left_hand > heights.head && heights.right_hand
            > heights.head
    }

    /// The jump state after a look at the flight: while flapping, a jump
    /// starts when none is on and the wait is over, else the button is
    /// let go and the wait goes on; once the flapping stops, a jump that is
    /// still on is let go.
    pub open spec fn flight_state(self, params: &AvatarParameters, heights: Heights) -> ExtAutoPilot {
        if Self::flapping(params, heights) {
            if !self.jumped && self.jump_cd <= 0 {
                ExtAutoPilot {
                    jumped: true,
                    jump_cd: jump_cooldown(heights.left_hand, heights.head),
                    ..self
                }
            } else {
                ExtAutoPilot {
                    jumped: false,
                    jump_cd: if self.jump_cd == i32::MIN {
                        i32::MIN
                    } else {
                        (self.jump_cd - 1) as i32
                    },
                    ..self
                }
            }
        } else if self.jumped && params.spec_get(EMOTE_PARAM@) matches Some(OscValueView::Int(_)) {
            ExtAutoPilot { jumped: false, jump_cd: 0, ..self }
        } else {
            self
        }
    }

    /// What a look at the flight sends.
    pub open spec fn flight_messages(self, params: &AvatarParameters, heights: Heights) -> Seq<
        OscMessageView,
    > {
        if Self::flapping(params, heights) {
            button(JUMP_BUTTON@, !self.jumped && self.jump_cd <= 0)
        } else if self.jumped && params.spec_get(EMOTE_PARAM@) matches Some(OscValueView::Int(_)) {
            button(JUMP_BUTTON@, false)
        } else {
            Seq::empty()
        }
    }

    /// Lets the avatar jump again and again while it flaps its arms in a
    /// flight emote. Without an emote parameter nothing happens.
    pub fn avatar_flight(
        &mut self,
        params: &AvatarParameters,
        heights: Heights,
        bundle: &mut AvatarBundle,
    )
        ensures
            *final(self) == old(self).flight_state(params, heights),
            final(bundle)@ == old(bundle)@ + old(self).flight_messages(params, heights),
    {
        let emote: i32 = match params.get(EMOTE_PARAM) {
            Some(crate::bundle::OscValue::Int(e)) => *e,
            _ => {
                assert(bundle@ =~= old(bundle)@ + old(self).flight_messages(params, heights));
                return ;
            },
        };
        let flying = FLIGHT_EMOTE_FIRST <= emote && emote <= FLIGHT_EMOTE_LAST;
        if flying && heights.left_hand > heights.head && heights.right_hand > heights.head {
            if !self.jumped && self.jump_cd <= 0 {
                bundle.send_input_button(JUMP_BUTTON, true);
                self.jumped = true;
                self.jump_cd = jump_cooldown(heights.left_hand, heights.head);
            } else {
                bundle.send_input_button(JUMP_BUTTON, false);
                if self.jump_cd > i32::MIN {
                    self.jump_cd = self.jump_cd - 1;
                }
                self.jumped = false;
            }
        } else if self.jumped {
            bundle.send_input_button(JUMP_BUTTON, false);
            self.jump_cd = 0;
            self.jumped = false;
        }
        assert(bundle@ =~= old(bundle)@ + old(self).flight_messages(params, heights));
    }

    /// The jump state after the eyes were looked at: a glance upwards
    /// starts a jump, any other look lets a jump go.
    pub open spec fn eye_jump(self, eye: Option<Euler>) -> bool {
        match eye {
            Some(e) => e.y > 400_000 && !self.jumped,
            None => self.jumped,
        }
    }

    /// What the eyes send for the jump button.
    pub open spec fn eye_jump_messages(self, eye: Option<Euler>) -> Seq<OscMessageView> {
        match eye {
            Some(e) => if e.y > 400_000 && !self.jumped {
                button(JUMP_BUTTON@, true)
            } else if self.jumped {
                button(JUMP_BUTTON@, false)
            } else {
                Seq::empty()
            },
            None => Seq::empty(),
        }
    }

    /// Whether the brows start to hold the voice button.
    pub open spec fn voice_starts(self, brows: int) -> bool {
        brows > 3_000_000 && !self.voice
    }

    /// Whether the voice button may be let go: the brows came down below two.
    pub open spec fn voice_unlocked(self, brows: int) -> bool {
        !self.voice_lock || brows < 2_000_000
    }

    /// What the brows send for the voice button.
    pub open spec fn voice_messages(self, brows: int) -> Seq<OscMessageView> {
        if self.voice_starts(brows) {
            button(VOICE_BUTTON@, true)
        } else if self.voice && self.voice_unlocked(brows) {
            button(VOICE_BUTTON@, false)
        } else {
            Seq::empty()
        }
    }

    /// The autopilot after the face was looked at.
    pub open spec fn manual_state(self, eye: Option<Euler>, brows: int) -> ExtAutoPilot {
        ExtAutoPilot {
            jumped: self.eye_jump(eye),
            voice: if self.voice_starts(brows) {
                true
            } else if self.voice && self.voice_unlocked(brows) {
                false
            } else {
                self.voice
            },
            voice_lock: if self.voice_starts(brows) {
                true
            } else {
                !self.voice_unlocked(brows)
            },
            ..self
        }
    }

    /// The steering that the face asks for.
    pub open spec fn manual_steering(data: &UnifiedTrackingData) -> Steering {
        Steering {
            look_horizontal: look_of(data.eyes@[0]),
            vertical: vertical_of(data.shapes@),
            horizontal: 0,
        }
    }

    /// Steers by the face: the left eye looks sideways and starts jumps,
    /// the cheeks move up and down, the brows hold the voice button.
    pub fn manual(&mut self, data: &UnifiedTrackingData, bundle: &mut AvatarBundle) -> (steering:
        Steering)
        ensures
            steering == Self::manual_steering(data),
            final(bundle)@ == old(bundle)@ + old(self).eye_jump_messages(data.eyes@[0]) + old(
                self,
            ).voice_messages(brows_of(data.shapes@)),
            *final(self) == old(self).manual_state(data.eyes@[0], brows_of(data.shapes@)),
    {
        let mut look: Level = 0;
        if let Some(eye) = data.eyes[0] {
            if eye.z < -600_000 || eye.z > 500_000 {
                look = negated(eye.z);
            }
            if eye.y > 400_000 && !self.jumped {
                bundle.send_input_button(JUMP_BUTTON, true);
                self.jumped = true;
            } else if self.jumped {
                bundle.send_input_button(JUMP_BUTTON, false);
                self.jumped = false;
            }
        }
        assert(bundle@ =~= old(bundle)@ + old(self).eye_jump_messages(data.eyes@[0]));
        let puff: i64 = data.getu(UnifiedExpressions::CheekPuffLeft) as i64 + data.getu(
            UnifiedExpressions::CheekPuffRight,
        ) as i64;
        let suck: i64 = data.getu(UnifiedExpressions::CheekSuckLeft) as i64 + data.getu(
            UnifiedExpressions::CheekSuckRight,
        ) as i64;
        let mut vertical: Level = 0;
        if puff > 500_000 {
            let up = blend(3 * puff, 5);
            vertical = if up > UNIT {
                UNIT
            } else {
                up
            };
        } else if suck > 500_000 {
            let down = blend(3 * suck, 5);
            vertical = negated(
                if down > UNIT {
                    UNIT
                } else {
                    down
                },
            );
        }
        let brows: i64 = data.getu(UnifiedExpressions::BrowInnerUpLeft) as i64 + data.getu(
            UnifiedExpressions::BrowInnerUpRight,
        ) as i64 + data.getu(UnifiedExpressions::BrowOuterUpLeft) as i64 + data.getu(
            UnifiedExpressions::BrowOuterUpRight,
        ) as i64;
        if brows < 2_000_000 {
            self.voice_lock = false;
        }
        if brows > 3_000_000 && !self.voice {
            bundle.send_input_button(VOICE_BUTTON, true);
            self.voice = true;
            self.voice_lock = true;
        } else if self.voice && !self.voice_lock {
            bundle.send_input_button(VOICE_BUTTON, false);
            self.voice = false;
        }
        assert(bundle@ =~= old(bundle)@ + old(self).eye_jump_messages(data.eyes@[0]) + old(
            self,
        ).voice_messages(brows_of(data.shapes@)));
        Steering { look_horizontal: look, vertical, horizontal: 0 }
    }

    /// What steering sends: each axis that moved by more than a hundredth
    /// from what was sent last; the look, then up and down, then sideways.
    pub open spec fn steer_messages(self, steering: Steering) -> Seq<OscMessageView> {
        axis_messages(LOOK_AXIS@, steering.look_horizontal, self.last_sent.look_horizontal)
            + axis_messages(VERTICAL_AXIS@, steering.vertical, self.last_sent.vertical)
            + axis_messages(HORIZONTAL_AXIS@, steering.horizontal, self.last_sent.horizontal)
    }

    /// The autopilot after the axes were looked at.
    pub open spec fn steered(self, steering: Steering) -> ExtAutoPilot {
        ExtAutoPilot {
            last_sent: Steering {
                look_horizontal: axis_after(
                    steering.look_horizontal,
                    self.last_sent.look_horizontal,
                ),
                vertical: axis_after(steering.vertical, self.last_sent.vertical),
                horizontal: axis_after(steering.horizontal, self.last_sent.horizontal),
            },
            ..self
        }
    }

    /// Sends the axes that moved, and remembers what was sent.
    pub fn steer(&mut self, steering: Steering, bundle: &mut AvatarBundle)
        ensures
            final(bundle)@ == old(bundle)@ + old(self).steer_messages(steering),
            *final(self) == old(self).steered(steering),
    {
        if axis_moved(steering.look_horizontal, self.last_sent.look_horizontal) {
            bundle.send_input_axis(LOOK_AXIS, steering.look_horizontal);
            self.last_sent.look_horizontal = steering.look_horizontal;
        }
        if axis_moved(steering.vertical, self.last_sent.vertical) {
            bundle.send_input_axis(VERTICAL_AXIS, steering.vertical);
            self.last_sent.vertical = steering.vertical;
        }
        if axis_moved(steering.horizontal, self.last_sent.horizontal) {
            bundle.send_input_axis(HORIZONTAL_AXIS, steering.horizontal);
            self.last_sent.horizontal = steering.horizontal;
        }
        assert(bundle@ =~= old(bundle)@ + old(self).steer_messages(steering));
    }

    /// What the autopilot does this tick: it follows where it is told whom
    /// to follow and knows the way, steers by the face where that is
    /// switched on and nobody is followed, and rests otherwise.
    pub open spec fn status_of(params: &AvatarParameters, followed: Option<Followed>) -> AutoPilotStatus {
        if follow_mode_of(params) != FollowMode::Off {
            if followed is Some {
                AutoPilotStatus::Follow
            } else {
                AutoPilotStatus::Off
            }
        } else if params.is_true_spec(AUTOPILOT_PARAM@) {
            AutoPilotStatus::Manual
        } else {
            AutoPilotStatus::Off
        }
    }

    /// The steering of this tick: towards the target, by the face, or none.
    pub open spec fn step_steering(
        params: &AvatarParameters,
        data: &UnifiedTrackingData,
        followed: Option<Followed>,
    ) -> Steering {
        match Self::status_of(params, followed) {
            AutoPilotStatus::Follow => followed->0.steering,
            AutoPilotStatus::Manual => Self::manual_steering(data),
            AutoPilotStatus::Off => Steering { look_horizontal: 0, vertical: 0, horizontal: 0 },
        }
    }

    /// The autopilot after one tick.
    pub open spec fn stepped(
        self,
        params: &AvatarParameters,
        heights: Heights,
        data: &UnifiedTrackingData,
        followed: Option<Followed>,
    ) -> ExtAutoPilot {
        let flown = self.flight_state(params, heights);
        let acted = match Self::status_of(params, followed) {
            AutoPilotStatus::Follow => ExtAutoPilot {
                follow_before: flown.follow_before || followed->0.moved,
                ..flown
            },
            AutoPilotStatus::Manual => flown.manual_state(data.eyes@[0], brows_of(data.shapes@)),
            AutoPilotStatus::Off => flown,
        };
        acted.steered(Self::step_steering(params, data, followed))
    }

    /// What one tick sends: the flight, then what the face asks of the
    /// buttons where it steers, then the axes that moved.
    pub open spec fn step_messages(
        self,
        params: &AvatarParameters,
        heights: Heights,
        data: &UnifiedTrackingData,
        followed: Option<Followed>,
    ) -> Seq<OscMessageView> {
        let flown = self.flight_state(params, heights);
        let buttons = if Self::status_of(params, followed) == AutoPilotStatus::Manual {
            flown.eye_jump_messages(data.eyes@[0]) + flown.voice_messages(brows_of(data.shapes@))
        } else {
            Seq::empty()
        };
        self.flight_messages(params, heights) + buttons + flown.steer_messages(
            Self::step_steering(params, data, followed),
        )
    }

    /// One tick: sees to the flight, then follows, steers by the face or
    /// rests, and sends the axes that moved. `followed` is the way to the
    /// target, where there is one.
    pub fn step(
        &mut self,
        params: &AvatarParameters,
        heights: Heights,
        data: &UnifiedTrackingData,
        followed: Option<Followed>,
        bundle: &mut AvatarBundle,
    ) -> (status: AutoPilotStatus)
        ensures
            status == Self::status_of(params, followed),
            *final(self) == old(self).stepped(params, heights, data, followed),
            final(bundle)@ == old(bundle)@ + old(self).step_messages(
                params,
                heights,
                data,
                followed,
            ),
    {
        self.avatar_flight(params, heights, bundle);
        let ghost flown = *self;
        let ghost flight = old(self).flight_messages(params, heights);
        let ghost rest = Steering { look_horizontal: 0, vertical: 0, horizontal: 0 };
        assert(bundle@ == old(bundle)@ + flight);
        match follow_mode(params) {
            FollowMode::Off => {
                if params.is_true(AUTOPILOT_PARAM) {
                    let steering = self.manual(data, bundle);
                    let ghost buttons = flown.eye_jump_messages(data.eyes@[0])
                        + flown.voice_messages(brows_of(data.shapes@));
                    assert(bundle@ =~= old(bundle)@ + flight + buttons);
                    self.steer(steering, bundle);
                    assert(bundle@ =~= old(bundle)@ + flight + buttons + flown.steer_messages(
                        steering,
                    ));
                    AutoPilotStatus::Manual
                } else {
                    self.steer(rest_steering(), bundle);
                    assert(bundle@ =~= old(bundle)@ + flight + Seq::<OscMessageView>::empty()
                        + flown.steer_messages(rest));
                    AutoPilotStatus::Off
                }
            },
            _ => {
                if let Some(f) = followed {
                    if f.moved {
                        self.follow_before = true;
                    }
                    self.steer(f.steering, bundle);
                    assert(bundle@ =~= old(bundle)@ + flight + Seq::<OscMessageView>::empty()
                        + flown.steer_messages(f.steering));
                    AutoPilotStatus::Follow
                } else {
                    self.steer(rest_steering(), bundle);
                    assert(bundle@ =~= old(bundle)@ + flight + Seq::<OscMessageView>::empty()
                        + flown.steer_messages(rest));
                    AutoPilotStatus::Off
                }
            },
        }
    }
}

/// No steering at all.
pub fn rest_steering() -> (s: Steering)
    ensures
        s == (Steering { look_horizontal: 0, vertical: 0, horizontal: 0 }),
{
    Steering { look_horizontal: 0, vertical: 0, horizontal: 0 }
}

} // verus!
