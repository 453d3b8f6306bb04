use mycelium_vr::app_mode::{
    blit_eye_index, camera_activity, flat_axes, handle_session_frame, respond_to_session_state,
    AppMode, AppModePlugin, CameraActivity, DesktopMirror, FlatAxes, FlatKeys, SessionRequest,
};
use mycelium_vr::oxr::resources::{LayerProvider, OxrRenderLayers};
use mycelium_vr::oxr::session::{OxrSessionCreateNextChain, OxrSessionCreateNextProvider};
use mycelium_vr::oxr::{openxr_session_available, openxr_session_running};
use mycelium_vr::xr::camera::XrCamera;
use mycelium_vr::xr::session::XrState;
use mycelium_vr::xr::spaces::{XrReferenceSpace, XrSpace};

#[test]
fn headset_removed_and_returned() {
    let r = respond_to_session_state(AppMode::Vr, XrState::Stopping);
    assert_eq!(r.mode, AppMode::Flat);
    assert_eq!(r.request, Some(SessionRequest::End));
    let r = respond_to_session_state(AppMode::Flat, XrState::Ready);
    assert_eq!(r.mode, AppMode::Vr);
    assert_eq!(r.request, Some(SessionRequest::Begin));
    let r = respond_to_session_state(AppMode::Flat, XrState::Available);
    assert_eq!(r.request, None);
    let r = respond_to_session_state(AppMode::Vr, XrState::Available);
    assert_eq!(r.request, Some(SessionRequest::Create));
    let r = respond_to_session_state(AppMode::Vr, XrState::Exiting { should_restart: true });
    assert_eq!((r.mode, r.request), (AppMode::Vr, Some(SessionRequest::Destroy)));
    let r = respond_to_session_state(AppMode::Vr, XrState::Exiting { should_restart: false });
    assert_eq!((r.mode, r.request), (AppMode::Flat, Some(SessionRequest::Destroy)));
    let r = respond_to_session_state(AppMode::Vr, XrState::Running);
    assert_eq!((r.mode, r.mode_written, r.request), (AppMode::Vr, false, None));
}

#[test]
fn session_frame_in_order() {
    let (m, written, reqs) = handle_session_frame(
        AppMode::Vr,
        false,
        &vec![XrState::Stopping, XrState::Ready],
        Some(XrState::Ready),
    );
    assert_eq!(m, AppMode::Vr);
    assert!(written);
    // End, then Begin for the return, then Begin again for the switch to VR this frame.
    assert_eq!(reqs, vec![SessionRequest::End, SessionRequest::Begin, SessionRequest::Begin]);

    let (m, written, reqs) = handle_session_frame(AppMode::Vr, true, &vec![], Some(XrState::Available));
    assert_eq!(m, AppMode::Vr);
    assert!(!written);
    assert_eq!(reqs, vec![SessionRequest::Create]);

    let (m, _, reqs) = handle_session_frame(AppMode::Flat, true, &vec![], Some(XrState::Available));
    assert_eq!(m, AppMode::Flat);
    assert!(reqs.is_empty());
}

#[test]
fn cameras_follow_mode() {
    assert_eq!(camera_activity(AppMode::Vr, DesktopMirror::Disabled, false, false), None);
    assert_eq!(
        camera_activity(AppMode::Flat, DesktopMirror::SceneCamera(3), true, false),
        Some(CameraActivity { flat_active: true, mirror_active: false })
    );
    assert_eq!(
        camera_activity(AppMode::Vr, DesktopMirror::SceneCamera(3), false, true),
        Some(CameraActivity { flat_active: false, mirror_active: true })
    );
    assert_eq!(
        camera_activity(AppMode::Vr, DesktopMirror::Eye(0), true, true),
        Some(CameraActivity { flat_active: false, mirror_active: false })
    );
    assert_eq!(blit_eye_index(DesktopMirror::Eye(1)), Some(1));
    assert_eq!(blit_eye_index(DesktopMirror::SceneCamera(1)), None);
    assert_eq!(blit_eye_index(DesktopMirror::default()), None);
    assert_eq!(AppMode::default(), AppMode::Vr);
    assert_eq!(AppModePlugin::default().initial_mode(), AppMode::Vr);
    assert_eq!(AppModePlugin { start_in_vr: false }.initial_mode(), AppMode::Flat);
}

#[test]
fn flat_keys_to_axes() {
    let keys = FlatKeys { arrow_left: true, w: true, a: true, d: true, shift_left: true, ..Default::default() };
    assert_eq!(flat_axes(keys), FlatAxes { yaw: 1, pitch: 0, forward: 1, right: 0, up: -1 });
    let keys = FlatKeys { arrow_right: true, arrow_down: true, s: true, a: true, space: true, ..Default::default() };
    assert_eq!(flat_axes(keys), FlatAxes { yaw: -1, pitch: -1, forward: -1, right: -1, up: 1 });
}

#[test]
fn session_gating() {
    assert!(!openxr_session_available(None, true));
    assert!(!openxr_session_available(Some(XrState::Unavailable), true));
    assert!(!openxr_session_available(Some(XrState::Idle), false));
    assert!(openxr_session_available(Some(XrState::Idle), true));
    assert!(openxr_session_running(Some(XrState::Running), true));
    assert!(!openxr_session_running(Some(XrState::Running), false));
    assert!(!openxr_session_running(Some(XrState::Ready), true));
}

struct Ext(i32);

impl OxrSessionCreateNextProvider for Ext {
    fn spec_structure_type(&self) -> i32 {
        self.0
    }

    fn structure_type(&self) -> i32 {
        self.0
    }
}

#[test]
fn next_chain_links_in_order() {
    let mut chain = OxrSessionCreateNextChain::default();
    assert!(chain.chain().is_none());
    chain.push(Ext(10));
    let first = *chain.chain().unwrap();
    assert_eq!((first.ty, first.next), (10, None));
    chain.push(Ext(20));
    chain.push(Ext(30));
    let first = *chain.chain().unwrap();
    assert_eq!((first.ty, first.next), (10, Some(1)));
}

#[test]
fn spaces_keep_handles() {
    let s = XrSpace::from_raw(77);
    assert_eq!(s.as_raw(), 77);
    assert_eq!(XrReferenceSpace(s).0.as_raw(), 77);
    assert_eq!(XrCamera(1).0, 1);
}

#[test]
fn spaces_equal_exactly_when_handles_are() {
    assert_eq!(XrSpace::from_raw(5), XrSpace::from_raw(5));
    assert_ne!(XrSpace::from_raw(5), XrSpace::from_raw(6));
}

struct QuadLayer;

impl LayerProvider for QuadLayer {}

#[test]
fn render_layers_start_empty_and_keep_order() {
    let mut layers = OxrRenderLayers::default();
    assert!(layers.0.is_empty());
    layers.0.push(Box::new(QuadLayer));
    layers.0.push(Box::new(QuadLayer));
    assert_eq!(layers.0.len(), 2);
}
