use vstd::prelude::*;

use crate::xr::session::XrState;

verus! {

/// The current rendering mode.
#[derive(Clone, Copy, PartialEq, Eq, Structural, Debug)]
pub enum AppMode {
    /// Standard flat-screen desktop rendering.
    Flat,
    /// VR rendering via OpenXR.
    Vr,
}

impl Default for AppMode {
    fn default() -> (m: AppMode)
        ensures
            m == AppMode::Vr,
    {
        AppMode::Vr
    }
}

/// What the desktop window shows while in VR mode.
#[derive(Clone, Copy, PartialEq, Eq, Structural, Debug)]
pub enum DesktopMirror {
    /// The window is not actively rendered during VR.
    Disabled,
    /// Mirror one of the VR eyes (0 = left, 1 = right).
    Eye(u32),
    /// Use a scene camera entity (given by its 64-bit handle) as the window view.
    SceneCamera(u64),
}

impl Default for DesktopMirror {
    fn default() -> (m: DesktopMirror)
        ensures
            m == DesktopMirror::Disabled,
    {
        DesktopMirror::Disabled
    }
}

/// Marker for the primary flat-mode camera (the one that renders to the window).
#[derive(Clone, Copy, Debug, Default)]
pub struct FlatModeCamera;

/// Marker for the mirror camera that shows VR content on the desktop window.
#[derive(Clone, Copy, Debug, Default)]
pub struct MirrorCamera;

/// Marker for a camera that can serve as the desktop view during VR.
#[derive(Clone, Copy, Debug, Default)]
pub struct DesktopViewCamera;

/// Plugin that wires mode switching; starts in VR unless told otherwise.
#[derive(Clone, Copy, Debug)]
pub struct AppModePlugin {
    pub start_in_vr: bool,
}

impl Default for AppModePlugin {
    fn default() -> (p: AppModePlugin)
        ensures
            p.start_in_vr,
    {
        AppModePlugin { start_in_vr: true }
    }
}

impl AppModePlugin {
    /// The mode the app starts in.
    pub fn initial_mode(&self) -> (m: AppMode)
        ensures
            m == (if self.start_in_vr { AppMode::Vr } else { AppMode::Flat }),
    {
        if self.start_in_vr {
            AppMode::Vr
        } else {
            AppMode::Flat
        }
    }
}

/// A request to the XR session lifecycle.
#[derive(Clone, Copy, PartialEq, Eq, Structural, Debug)]
pub enum SessionRequest {
    Create,
    Begin,
    End,
    Destroy,
}

/// The answer to one session state change: the mode after it, whether the mode was
/// written, and the request to send (if any).
#[derive(Clone, Copy, PartialEq, Eq, Structural, Debug)]
pub struct SessionResponse {
    pub mode: AppMode,
    pub mode_written: bool,
    pub request: Option<SessionRequest>,
}

/// How the app answers a session state change in a given mode. Removing the headset
/// (stopping) switches to flat mode; the headset coming back (ready while flat)
/// switches to VR; an exit without restart leaves flat mode set.
pub open spec fn session_response(mode: AppMode, state: XrState) -> SessionResponse {
    match state {
        XrState::Available => if mode == AppMode::Vr {
            SessionResponse { mode, mode_written: false, request: Some(SessionRequest::Create) }
        } else {
            SessionResponse { mode, mode_written: false, request: None }
        },
        XrState::Ready => if mode == AppMode::Vr {
            SessionResponse { mode, mode_written: false, request: Some(SessionRequest::Begin) }
        } else {
            SessionResponse { mode: AppMode::Vr, mode_written: true, request: Some(SessionRequest::Begin) }
        },
        XrState::Stopping => SessionResponse {
            mode: AppMode::Flat,
            mode_written: true,
            request: Some(SessionRequest::End),
        },
        XrState::Exiting { should_restart } => if should_restart {
            SessionResponse { mode, mode_written: false, request: Some(SessionRequest::Destroy) }
        } else {
            SessionResponse {
                mode: AppMode::Flat,
                mode_written: true,
                request: Some(SessionRequest::Destroy),
            }
        },
        _ => SessionResponse { mode, mode_written: false, request: None },
    }
}

/// Removing the headset switches to flat mode and ends the session; the headset coming
/// back while flat switches to VR and begins it; flat mode never creates a session on its
/// own; an exit that will not restart leaves flat mode.
pub proof fn law_mode_follows_headset(mode: AppMode, should_restart: bool)
    ensures
        session_response(mode, XrState::Stopping) == (SessionResponse {
            mode: AppMode::Flat,
            mode_written: true,
            request: Some(SessionRequest::End),
        }),
        session_response(AppMode::Flat, XrState::Ready) == (SessionResponse {
            mode: AppMode::Vr,
            mode_written: true,
            request: Some(SessionRequest::Begin),
        }),
        session_response(AppMode::Flat, XrState::Available).request is None,
        !should_restart ==> session_response(mode, XrState::Exiting { should_restart }).mode
            == AppMode::Flat,
        session_response(mode, XrState::Exiting { should_restart }).request == Some(
            SessionRequest::Destroy,
        ),
{
}

/// Whatever the mode, a session that becomes ready is begun and the app is in VR
/// afterwards; the mode is written only when it was not VR already. In VR an available
/// runtime gets a session created.
pub proof fn law_ready_begins_session(mode: AppMode)
    ensures
        session_response(mode, XrState::Ready).request == Some(SessionRequest::Begin),
        session_response(mode, XrState::Ready).mode == AppMode::Vr,
        session_response(mode, XrState::Ready).mode_written == (mode != AppMode::Vr),
        session_response(AppMode::Vr, XrState::Available).request == Some(SessionRequest::Create),
{
}

/// The answer to one session state change.
pub fn respond_to_session_state(mode: AppMode, state: XrState) -> (r: SessionResponse)
    ensures
        r == session_response(mode, state),
{
    match state {
        XrState::Available => {
            if mode == AppMode::Vr {
                SessionResponse { mode, mode_written: false, request: Some(SessionRequest::Create) }
            } else {
                SessionResponse { mode, mode_written: false, request: None }
            }
        },
        XrState::Ready => {
            if mode == AppMode::Vr {
                SessionResponse { mode, mode_written: false, request: Some(SessionRequest::Begin) }
            } else {
                SessionResponse {
                    mode: AppMode::Vr,
                    mode_written: true,
                    request: Some(SessionRequest::Begin),
                }
            }
        },
        XrState::Stopping => SessionResponse {
            mode: AppMode::Flat,
            mode_written: true,
            request: Some(SessionRequest::End),
        },
        XrState::Exiting { should_restart } => {
            if should_restart {
                SessionResponse { mode, mode_written: false, request: Some(SessionRequest::Destroy) }
            } else {
                SessionResponse {
                    mode: AppMode::Flat,
                    mode_written: true,
                    request: Some(SessionRequest::Destroy),
                }
            }
        },
        _ => SessionResponse { mode, mode_written: false, request: None },
    }
}

/// The request made when the mode was changed to VR this frame while XR is available
/// (create a session) or ready (begin it).
pub open spec fn vr_switch_request(mode_changed: bool, mode: AppMode, xr_state: Option<XrState>) -> Option<SessionRequest> {
    if mode_changed && mode == AppMode::Vr {
        match xr_state {
            Some(XrState::Available) => Some(SessionRequest::Create),
            Some(XrState::Ready) => Some(SessionRequest::Begin),
            _ => None,
        }
    } else {
        None
    }
}

/// The outcome of a frame of session handling: the final mode, whether it was written
/// this frame, and the requests to send, in order.
pub open spec fn session_frame(mode: AppMode, states: Seq<XrState>) -> (AppMode, bool, Seq<SessionRequest>)
    decreases states.len(),
{
    if states.len() == 0 {
        (mode, false, Seq::empty())
    } else {
        let (m, w, reqs) = session_frame(mode, states.drop_last());
        let r = session_response(m, states.last());
        (r.mode, w || r.mode_written, match r.request {
            Some(q) => reqs.push(q),
            None => reqs,
        })
    }
}

/// Answers a frame's session state changes in order, then the switch to VR if the mode
/// changed this frame (by `changed_before`, or by one of the answers). Returns the final
/// mode, whether it was written, and the requests to send, in order.
pub fn handle_session_frame(
    mode: AppMode,
    changed_before: bool,
    states: &Vec<XrState>,
    xr_state: Option<XrState>,
) -> (out: (AppMode, bool, Vec<SessionRequest>))
    ensures
        ({
            let (m, w, reqs) = session_frame(mode, states@);
            &&& out.0 == m
            &&& out.1 == w
            &&& out.2@ == match vr_switch_request(changed_before || w, m, xr_state) {
                Some(q) => reqs.push(q),
                None => reqs,
            }
        }),
{
    let mut m = mode;
    let mut written = false;
    let mut reqs: Vec<SessionRequest> = Vec::new();
    let mut i: usize = 0;
    while i < states.len()
        invariant
            i <= states@.len(),
            session_frame(mode, states@.subrange(0, i as int)) == (m, written, reqs@),
        decreases states@.len() - i,
    {
        let r = respond_to_session_state(m, states[i]);
        proof {
            let pre = states@.subrange(0, i + 1);
            assert(pre.drop_last() =~= states@.subrange(0, i as int));
            assert(pre.last() == states@[i as int]);
        }
        m = r.mode;
        written = written || r.mode_written;
        match r.request {
            Some(q) => reqs.push(q),
            None => {},
        }
        i = i + 1;
    }
    proof {
        assert(states@.subrange(0, i as int) =~= states@);
    }
    if (changed_before || written) && m == AppMode::Vr {
        match xr_state {
            Some(XrState::Available) => reqs.push(SessionRequest::Create),
            Some(XrState::Ready) => reqs.push(SessionRequest::Begin),
            _ => {},
        }
    }
    (m, written, reqs)
}

/// Which cameras render: the flat camera only in flat mode; the mirror camera only in
/// VR with a scene camera mirrored (eye mirroring is a GPU blit, not a camera).
#[derive(Clone, Copy, PartialEq, Eq, Structural, Debug)]
pub struct CameraActivity {
    pub flat_active: bool,
    pub mirror_active: bool,
}

/// The camera activity for a mode and mirror setting, or none when neither changed.
pub fn camera_activity(mode: AppMode, mirror: DesktopMirror, mode_changed: bool, mirror_changed: bool) -> (res: Option<CameraActivity>)
    ensures
        res == (if !mode_changed && !mirror_changed {
            None::<CameraActivity>
        } else {
            Some(CameraActivity {
                flat_active: mode != AppMode::Vr,
                mirror_active: mode == AppMode::Vr && mirror is SceneCamera,
            })
        }),
{
    if !mode_changed && !mirror_changed {
        return None;
    }
    let is_vr = mode == AppMode::Vr;
    let mirror_active = is_vr && match mirror {
        DesktopMirror::SceneCamera(_) => true,
        _ => false,
    };
    Some(CameraActivity { flat_active: !is_vr, mirror_active })
}

/// The flat camera and the mirror camera never render at the same time.
pub proof fn law_cameras_exclusive(mode: AppMode, mirror: DesktopMirror)
    ensures
        !((mode != AppMode::Vr) && (mode == AppMode::Vr && mirror is SceneCamera)),
{
}

/// The VR eye to blit to the desktop window, if eye mirroring is on.
pub fn blit_eye_index(mirror: DesktopMirror) -> (eye: Option<u32>)
    ensures
        eye == match mirror {
            DesktopMirror::Eye(i) => Some(i),
            _ => None::<u32>,
        },
{
    match mirror {
        DesktopMirror::Eye(i) => Some(i),
        _ => None,
    }
}

/// The keys that the flat-mode controller reads in one frame.
#[derive(Clone, Copy, Debug, Default)]
pub struct FlatKeys {
    pub arrow_left: bool,
    pub arrow_right: bool,
    pub arrow_up: bool,
    pub arrow_down: bool,
    pub w: bool,
    pub a: bool,
    pub s: bool,
    pub d: bool,
    pub space: bool,
    pub shift_left: bool,
}

/// Signed directions of one frame of flat-mode input, each -1, 0 or 1 per key pair:
/// yaw (left positive), pitch (up positive), forward (W positive), right (D positive),
/// up (space positive, left shift negative).
#[derive(Clone, Copy, PartialEq, Eq, Structural, Debug)]
pub struct FlatAxes {
    pub yaw: i8,
    pub pitch: i8,
    pub forward: i8,
    pub right: i8,
    pub up: i8,
}

/// The signed sum of a positive and a negative key.
pub open spec fn key_axis(pos: bool, neg: bool) -> i8 {
    ((if pos { 1int } else { 0int }) - (if neg { 1int } else { 0int })) as i8
}

/// One key pair as a signed direction.
fn axis(pos: bool, neg: bool) -> (a: i8)
    ensures
        a == key_axis(pos, neg),
{
    let mut a: i8 = 0;
    if pos {
        a = a + 1;
    }
    if neg {
        a = a - 1;
    }
    a
}

/// The directions that one frame of flat-mode keys asks for.
pub fn flat_axes(keys: FlatKeys) -> (ax: FlatAxes)
    ensures
        ax.yaw == key_axis(keys.arrow_left, keys.arrow_right),
        ax.pitch == key_axis(keys.arrow_up, keys.arrow_down),
        ax.forward == key_axis(keys.w, keys.s),
        ax.right == key_axis(keys.d, keys.a),
        ax.up == key_axis(keys.space, keys.shift_left),
{
    FlatAxes {
        yaw: axis(keys.arrow_left, keys.arrow_right),
        pitch: axis(keys.arrow_up, keys.arrow_down),
        forward: axis(keys.w, keys.s),
        right: axis(keys.d, keys.a),
        up: axis(keys.space, keys.shift_left),
    }
}

} // verus!
