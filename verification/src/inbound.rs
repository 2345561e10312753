use vstd::prelude::*;
use crate::bundle::{values_view, OscValue, OscValueView, PARAM_PREFIX};
use crate::level::Level;
use crate::text::{owned, str_eq, strip_prefix};

verus! {

/// Address of the notice that the avatar changed.
pub const AVATAR_PREFIX: &'static str = "/avatar/change";

/// Address prefix of the tracker poses.
pub const TRACK_PREFIX: &'static str = "/tracking/trackers/";

/// Name of the heartbeat parameter.
pub const VSYNC_PARAM: &'static str = "VSync";

/// Which tracked part a pose belongs to.
#[derive(Clone, Copy, Debug, PartialEq, Eq, Structural)]
pub enum Tracker {
    Head,
    LeftWrist,
    RightWrist,
    /// Some other tracker, which is of no use here.
    Other,
}

/// What an inbound message asks for.
#[derive(Clone, Debug, PartialEq, Eq)]
pub enum Inbound {
    /// The heartbeat of the avatar runtime: a tick is due.
    Heartbeat,
    /// The avatar reports the value of a parameter.
    Parameter { name: String, value: OscValue },
    /// A parameter message without a value.
    EmptyParameter,
    /// The pose of a tracker: position x, y, z and the Euler angles x, y, z.
    Pose { tracker: Tracker, pose: [Level; 6] },
    /// A tracker message that does not hold six real numbers.
    MalformedPose,
    /// The avatar changed.
    AvatarChange { avatar: String },
    /// An avatar notice that does not hold one text.
    MalformedAvatarChange,
    /// A message for some other address.
    Unknown,
}

/// What an inbound request holds.
pub enum InboundView {
    Heartbeat,
    Parameter { name: Seq<char>, value: OscValueView },
    EmptyParameter,
    Pose { tracker: Tracker, pose: Seq<Level> },
    MalformedPose,
    AvatarChange { avatar: Seq<char> },
    MalformedAvatarChange,
    Unknown,
}

impl View for Inbound {
    type V = InboundView;

    open spec fn view(&self) -> InboundView {
        match self {
            Inbound::Heartbeat => InboundView::Heartbeat,
            Inbound::Parameter { name, value } => InboundView::Parameter {
                name: name@,
                value: value@,
            },
            Inbound::EmptyParameter => InboundView::EmptyParameter,
            Inbound::Pose { tracker, pose } => InboundView::Pose { tracker: *tracker, pose: pose@ },
            Inbound::MalformedPose => InboundView::MalformedPose,
            Inbound::AvatarChange { avatar } => InboundView::AvatarChange { avatar: avatar@ },
            Inbound::MalformedAvatarChange => InboundView::MalformedAvatarChange,
            Inbound::Unknown => InboundView::Unknown,
        }
    }
}

/// The tracked part that a tracker name stands for.
pub open spec fn tracker_of(name: Seq<char>) -> Tracker {
    if "head"@.is_prefix_of(name) {
        Tracker::Head
    } else if "leftwrist"@.is_prefix_of(name) {
        Tracker::LeftWrist
    } else if "rightwrist"@.is_prefix_of(name) {
        Tracker::RightWrist
    } else {
        Tracker::Other
    }
}

/// The six real numbers of a pose, if the arguments are just that.
pub open spec fn pose_of(args: Seq<OscValueView>) -> Option<Seq<Level>> {
    if args.len() == 6 && forall|i: int| 0 <= i < 6 ==> (#[trigger] args[i]) is Float {
        Some(Seq::new(6, |i: int| args[i]->Float_0))
    } else {
        None
    }
}

/// What a message for `addr` with the arguments `args` asks for.
pub open spec fn classified(addr: Seq<char>, args: Seq<OscValueView>) -> InboundView {
    if PARAM_PREFIX@.is_prefix_of(addr) {
        let name = addr.skip(PARAM_PREFIX@.len() as int);
        if name == VSYNC_PARAM@ {
            InboundView::Heartbeat
        } else if args.len() > 0 {
            InboundView::Parameter { name, value: args[0] }
        } else {
            InboundView::EmptyParameter
        }
    } else if TRACK_PREFIX@.is_prefix_of(addr) {
        match pose_of(args) {
            Some(pose) => InboundView::Pose {
                tracker: tracker_of(addr.skip(TRACK_PREFIX@.len() as int)),
                pose,
            },
            None => InboundView::MalformedPose,
        }
    } else if AVATAR_PREFIX@.is_prefix_of(addr) {
        if args.len() == 1 && args[0] is Text {
            InboundView::AvatarChange { avatar: args[0]->Text_0 }
        } else {
            InboundView::MalformedAvatarChange
        }
    } else {
        InboundView::Unknown
    }
}

/// The tracked part that a tracker name stands for.
pub fn tracker_for(name: &str) -> (t: Tracker)
    ensures
        t == tracker_of(name@),
{
    if strip_prefix(name, "head").is_some() {
        Tracker::Head
    } else if strip_prefix(name, "leftwrist").is_some() {
        Tracker::LeftWrist
    } else if strip_prefix(name, "rightwrist").is_some() {
        Tracker::RightWrist
    } else {
        Tracker::Other
    }
}

/// The six real numbers of a pose, if the arguments are just that.
pub fn pose_from(args: &Vec<OscValue>) -> (r: Option<[Level; 6]>)
    ensures
        match r {
            Some(pose) => pose_of(values_view(args@)) == Some(pose@),
            None => pose_of(values_view(args@)) is None,
        },
{
    if args.len() != 6 {
        return None;
    }
    let mut pose: [Level; 6] = [0; 6];
    let mut i: usize = 0;
    while i < 6
        invariant
            i <= 6,
            args@.len() == 6,
            forall|j: int| 0 <= j < i ==> (#[trigger] values_view(args@)[j]) is Float,
            forall|j: int| 0 <= j < i ==> pose@[j] == values_view(args@)[j]->Float_0,
        decreases 6 - i,
    {
        match &args[i] {
            OscValue::Float(x) => {
                pose[i] = *x;
            },
            _ => {
                assert(!(values_view(args@)[i as int] is Float));
                return None;
            },
        }
        i += 1;
    }
    assert(pose@ =~= Seq::new(6, |i: int| values_view(args@)[i]->Float_0));
    Some(pose)
}

/// Sorts an inbound message by what it asks for.
pub fn classify(addr: &str, args: &Vec<OscValue>) -> (r: Inbound)
    ensures
        r@ == classified(addr@, values_view(args@)),
{
    if let Some(name) = strip_prefix(addr, PARAM_PREFIX) {
        if str_eq(name, VSYNC_PARAM) {
            Inbound::Heartbeat
        } else if args.len() > 0 {
            Inbound::Parameter { name: owned(name), value: args[0].duplicate() }
        } else {
            Inbound::EmptyParameter
        }
    } else if let Some(name) = strip_prefix(addr, TRACK_PREFIX) {
        match pose_from(args) {
            Some(pose) => Inbound::Pose { tracker: tracker_for(name), pose },
            None => Inbound::MalformedPose,
        }
    } else if strip_prefix(addr, AVATAR_PREFIX).is_some() {
        if args.len() == 1 {
            match &args[0] {
                OscValue::Text(avatar) => Inbound::AvatarChange { avatar: avatar.clone() },
                _ => Inbound::MalformedAvatarChange,
            }
        } else {
            Inbound::MalformedAvatarChange
        }
    } else {
        Inbound::Unknown
    }
}

} // verus!
