use vstd::prelude::*;
use crate::bundle::{parameter_message, AvatarBundle, OscMessageView, OscValue, OscValueView};
use crate::params::AvatarParameters;
use crate::text::str_eq;

verus! {

pub const STAND_PARAM: &'static str = "Go/StandIdle";

pub const CROUCH_PARAM: &'static str = "Go/CrouchIdle";

pub const PRONE_PARAM: &'static str = "Go/ProneIdle";

pub const LOCO_PARAM: &'static str = "Go/Locomotion";

pub const TRACKING_TYPE: &'static str = "TrackingType";

/// A chosen pose becomes the kept one after it has stood this long, and
/// after an avatar change nothing is taken in for this long: milliseconds.
pub const SETTLE_MS: u64 = 5000;

/// Tracking types above this one move the avatar by themselves.
pub const LOCO_TRACKING_ABOVE: i32 = 5;

/// The idle poses chosen on the avatar but not kept yet.
#[derive(Clone, Copy, Debug, PartialEq, Eq, Structural)]
pub struct Staging {
    pub idle_stand: i32,
    pub idle_crouch: i32,
    pub idle_prone: i32,
    /// When a pose was last chosen, in milliseconds since the start.
    pub time: u64,
}

/// The idle poses kept for the wearer, and those that are being chosen.
#[derive(Clone, Debug, PartialEq, Eq)]
pub struct ExtGogo {
    pub path: String,
    pub idle_stand: i32,
    pub idle_crouch: i32,
    pub idle_prone: i32,
    pub staging: Option<Staging>,
    /// When the avatar last changed, in milliseconds since the start.
    pub avatar_changed: Option<u64>,
}

/// Which idle pose a parameter name stands for.
#[derive(Clone, Copy, Debug, PartialEq, Eq, Structural)]
pub enum IdlePose {
    Stand,
    Crouch,
    Prone,
}

/// The idle pose that the parameter `name` stands for.
pub open spec fn pose_of(name: Seq<char>) -> Option<IdlePose> {
    if name == STAND_PARAM@ {
        Some(IdlePose::Stand)
    } else if name == CROUCH_PARAM@ {
        Some(IdlePose::Crouch)
    } else if name == PRONE_PARAM@ {
        Some(IdlePose::Prone)
    } else {
        None
    }
}

/// Whether less than the settling time has passed at `now` since `then`.
pub open spec fn spec_settling(then: u64, now: u64) -> bool {
    now - then < SETTLE_MS
}

/// Whether less than the settling time has passed at `now` since `then`.
#[verifier::when_used_as_spec(spec_settling)]
pub fn settling(then: u64, now: u64) -> (r: bool)
    ensures
        r == spec_settling(then, now),
{
    now < then || now - then < SETTLE_MS
}

impl Staging {
    /// The poses being chosen: those already staged, or a copy of the kept
    /// ones; either way they count as chosen at `now`.
    pub open spec fn spec_from_live(gogo: &ExtGogo, now: u64) -> Staging {
        match gogo.staging {
            Some(s) => Staging { time: now, ..s },
            None => Staging {
                idle_stand: gogo.idle_stand,
                idle_crouch: gogo.idle_crouch,
                idle_prone: gogo.idle_prone,
                time: now,
            },
        }
    }

    /// Starts or goes on choosing poses at `now`, and hands out what is staged.
    pub fn from_live(gogo: &mut ExtGogo, now: u64) -> (staging: Staging)
        ensures
            staging == Self::spec_from_live(old(gogo), now),
            final(gogo).staging == Some(staging),
            final(gogo).path == old(gogo).path,
            final(gogo).idle_stand == old(gogo).idle_stand,
            final(gogo).idle_crouch == old(gogo).idle_crouch,
            final(gogo).idle_prone == old(gogo).idle_prone,
            final(gogo).avatar_changed == old(gogo).avatar_changed,
    {
        let staging = match gogo.staging {
            Some(s) => Staging {
                idle_stand: s.idle_stand,
                idle_crouch: s.idle_crouch,
                idle_prone: s.idle_prone,
                time: now,
            },
            None => Staging {
                idle_stand: gogo.idle_stand,
                idle_crouch: gogo.idle_crouch,
                idle_prone: gogo.idle_prone,
                time: now,
            },
        };
        gogo.staging = Some(staging);
        staging
    }

    /// Makes the staged poses the kept ones.
    pub fn commit(self, gogo: &mut ExtGogo)
        ensures
            final(gogo).idle_stand == self.idle_stand,
            final(gogo).idle_crouch == self.idle_crouch,
            final(gogo).idle_prone == self.idle_prone,
            final(gogo).path == old(gogo).path,
            final(gogo).staging == old(gogo).staging,
            final(gogo).avatar_changed == old(gogo).avatar_changed,
    {
        gogo.idle_stand = self.idle_stand;
        gogo.idle_crouch = self.idle_crouch;
        gogo.idle_prone = self.idle_prone;
    }

    /// The staged poses with `value` as the pose `which`.
    pub open spec fn with_pose(self, which: IdlePose, value: i32) -> Staging {
        match which {
            IdlePose::Stand => Staging { idle_stand: value, ..self },
            IdlePose::Crouch => Staging { idle_crouch: value, ..self },
            IdlePose::Prone => Staging { idle_prone: value, ..self },
        }
    }
}

impl ExtGogo {
    /// The kept pose `which`.
    pub open spec fn kept(&self, which: IdlePose) -> i32 {
        match which {
            IdlePose::Stand => self.idle_stand,
            IdlePose::Crouch => self.idle_crouch,
            IdlePose::Prone => self.idle_prone,
        }
    }

    /// The poses as they were last saved at `path`.
    pub fn new(path: String, idle_stand: i32, idle_crouch: i32, idle_prone: i32) -> (me: ExtGogo)
        ensures
            me.path == path,
            me.idle_stand == idle_stand,
            me.idle_crouch == idle_crouch,
            me.idle_prone == idle_prone,
            me.staging is None,
            me.avatar_changed is None,
    {
        ExtGogo { path, idle_stand, idle_crouch, idle_prone, staging: None, avatar_changed: None }
    }

    /// What the staging is after the avatar reported `value` for `name` at
    /// `now`. Nothing is taken in while an avatar change settles, and only
    /// an integer for one of the three poses that differs from the kept
    /// pose is staged.
    pub open spec fn staging_after(&self, name: Seq<char>, value: OscValueView, now: u64) -> Option<
        Staging,
    > {
        if self.avatar_changed matches Some(t) && settling(t, now) {
            self.staging
        } else {
            match (value, pose_of(name)) {
                (OscValueView::Int(v), Some(which)) => if self.kept(which) != v {
                    Some(Staging::spec_from_live(self, now).with_pose(which, v))
                } else {
                    self.staging
                },
                _ => self.staging,
            }
        }
    }

    /// Takes note of a parameter that the avatar reported at `now`.
    pub fn notify(&mut self, name: &str, value: &OscValue, now: u64)
        ensures
            final(self).staging == old(self).staging_after(name@, value@, now),
            final(self).path == old(self).path,
            final(self).idle_stand == old(self).idle_stand,
            final(self).idle_crouch == old(self).idle_crouch,
            final(self).idle_prone == old(self).idle_prone,
            final(self).avatar_changed == old(self).avatar_changed,
    {
        if let Some(t) = self.avatar_changed {
            if settling(t, now) {
                return ;
            }
        }
        if let OscValue::Int(v) = value {
            if str_eq(name, STAND_PARAM) {
                if self.idle_stand != *v {
                    let staging = Staging::from_live(self, now);
                    self.staging = Some(Staging { idle_stand: *v, ..staging });
                }
            } else if str_eq(name, CROUCH_PARAM) {
                if self.idle_crouch != *v {
                    let staging = Staging::from_live(self, now);
                    self.staging = Some(Staging { idle_crouch: *v, ..staging });
                }
            } else if str_eq(name, PRONE_PARAM) {
                if self.idle_prone != *v {
                    let staging = Staging::from_live(self, now);
                    self.staging = Some(Staging { idle_prone: *v, ..staging });
                }
            }
        }
    }

    /// The three messages that set the kept poses on the avatar.
    pub open spec fn pose_messages(&self) -> Seq<OscMessageView> {
        seq![
            parameter_message(STAND_PARAM@, OscValueView::Int(self.idle_stand)),
            parameter_message(CROUCH_PARAM@, OscValueView::Int(self.idle_crouch)),
            parameter_message(PRONE_PARAM@, OscValueView::Int(self.idle_prone)),
        ]
    }

    /// The avatar changed at `now`: whatever was staged is dropped, and the
    /// kept poses are sent to the new avatar.
    pub fn avatar(&mut self, now: u64, bundle: &mut AvatarBundle)
        ensures
            final(bundle)@ == old(bundle)@ + old(self).pose_messages(),
            final(self).staging is None,
            final(self).avatar_changed == Some(now),
            final(self).path == old(self).path,
            final(self).idle_stand == old(self).idle_stand,
            final(self).idle_crouch == old(self).idle_crouch,
            final(self).idle_prone == old(self).idle_prone,
    {
        self.staging = None;
        self.avatar_changed = Some(now);
        bundle.send_parameter(STAND_PARAM, OscValue::Int(self.idle_stand));
        bundle.send_parameter(CROUCH_PARAM, OscValue::Int(self.idle_crouch));
        bundle.send_parameter(PRONE_PARAM, OscValue::Int(self.idle_prone));
        assert(bundle@ =~= old(bundle)@ + old(self).pose_messages());
    }

    /// The message that switches the avatar's own locomotion: due when the
    /// tracking type is known and the locomotion parameter does not say yet
    /// whether that type is above five.
    pub open spec fn loco_messages(parameters: &AvatarParameters) -> Seq<OscMessageView> {
        match parameters.spec_get(TRACKING_TYPE@) {
            Some(OscValueView::Int(tracking)) => {
                let want = OscValueView::Bool(LOCO_TRACKING_ABOVE < tracking);
                if parameters.spec_get(LOCO_PARAM@) != Some(want) {
                    seq![parameter_message(LOCO_PARAM@, want)]
                } else {
                    Seq::empty()
                }
            },
            _ => Seq::empty(),
        }
    }

    /// Whether what is staged has stood long enough at `now` to be kept.
    pub open spec fn commit_due(&self, now: u64) -> bool {
        self.staging matches Some(s) && !settling(s.time, now)
    }

    /// The poses after a tick at `now`: what was staged is kept once it has
    /// stood for the settling time.
    pub open spec fn stepped(&self, now: u64) -> ExtGogo {
        if self.commit_due(now) {
            ExtGogo {
                idle_stand: self.staging->0.idle_stand,
                idle_crouch: self.staging->0.idle_crouch,
                idle_prone: self.staging->0.idle_prone,
                staging: None,
                ..*self
            }
        } else {
            *self
        }
    }

    /// One tick at `now`: sees to the locomotion parameter, and keeps what
    /// was staged once it has stood for the settling time. Says whether the
    /// kept poses changed and should be saved.
    pub fn step(&mut self, parameters: &AvatarParameters, now: u64, bundle: &mut AvatarBundle) -> (save:
        bool)
        ensures
            final(bundle)@ == old(bundle)@ + Self::loco_messages(parameters),
            save == old(self).commit_due(now),
            *final(self) == old(self).stepped(now),
    {
        if let Some(OscValue::Int(tracking)) = parameters.get(TRACKING_TYPE) {
            let want = OscValue::Bool(LOCO_TRACKING_ABOVE < *tracking);
            let told = match parameters.get(LOCO_PARAM) {
                Some(v) => v.same(&want),
                None => false,
            };
            if !told {
                bundle.send_parameter(LOCO_PARAM, want);
            }
        }
        assert(bundle@ =~= old(bundle)@ + Self::loco_messages(parameters));
        if let Some(staging) = self.staging {
            if !settling(staging.time, now) {
                self.staging = None;
                staging.commit(self);
                return true;
            }
        }
        false
    }
}

} // verus!
