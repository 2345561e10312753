use vstd::prelude::*;

verus! {

/// Port on which the avatar runtime listens, unless told otherwise.
pub const DEFAULT_VRC_PORT: u16 = 9000;

/// Port on which this program listens, unless told otherwise.
pub const DEFAULT_OSC_PORT: u16 = 9002;

/// Port on which the mouth and eye trackers are heard, unless told otherwise.
pub const DEFAULT_BABBLE_PORT: u16 = 9400;

/// Where face data comes from.
#[derive(Clone, Copy, Debug, PartialEq, Eq, Structural)]
pub enum FaceSetup {
    /// Do not use face tracking.
    Dummy,
    /// Retrieve face data from the native runtime API.
    Openxr,
    /// Retrieve face data from the streamer's event socket.
    Alvr,
    /// Retrieve face data from the mouth and eye trackers, heard on a port.
    Babble { listen: u16 },
}

impl Default for FaceSetup {
    fn default() -> (r: FaceSetup)
        ensures
            r == FaceSetup::Dummy,
    {
        FaceSetup::Dummy
    }
}

/// What the program is started with.
#[derive(Clone, Debug, PartialEq, Eq)]
pub struct Args {
    /// Provider to use for face data.
    pub face: FaceSetup,
    /// Port of the avatar runtime.
    pub vrc_port: u16,
    /// Port to listen on.
    pub osc_port: u16,
    /// The avatar file to use, if any.
    pub avatar: Option<String>,
}

impl Default for Args {
    fn default() -> (r: Args)
        ensures
            r.face == FaceSetup::Dummy,
            r.vrc_port == 0,
            r.osc_port == 0,
            r.avatar is None,
    {
        Args { face: FaceSetup::Dummy, vrc_port: 0, osc_port: 0, avatar: None }
    }
}

} // verus!
