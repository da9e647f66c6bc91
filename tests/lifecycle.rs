use alxr_common::bridge::{battery_send, input_send, legacy_send, views_config_send};
use alxr_common::frame::{ALXREyeInfo, TrackingController, TrackingInfo};
use alxr_common::geometry::{Fov, Quat, Vec2, Vec3};
use alxr_common::lifecycle::{Coordinator, LifecycleAction, LifecycleEvent, LifecycleState};

fn empty_controller() -> TrackingController {
    TrackingController {
        enabled: false,
        is_hand: false,
        buttons: 0,
        trackpad_position: Vec2 { x: 0, y: 0 },
        trigger_value: 0,
        grip_value: 0,
        orientation: Quat::identity(),
        position: Vec3::zero(),
        angular_velocity: Vec3::zero(),
        linear_velocity: Vec3::zero(),
        bone_root_orientation: Quat::identity(),
        bone_root_position: Vec3::zero(),
        bone_rotations: [Quat::identity(); 19],
        bone_positions_base: [Vec3::zero(); 19],
        hand_finger_confidences: 0,
        battery_percent_remaining: 0,
    }
}

fn idle_snapshot() -> TrackingInfo {
    TrackingInfo {
        target_timestamp_ns: 7,
        mounted: 0,
        head_orientation: Quat::identity(),
        head_position: Vec3::zero(),
        controllers: [empty_controller(), empty_controller()],
        eye_views: None,
    }
}

fn eye() -> ALXREyeInfo {
    let fov = Fov { left: 1, right: 2, top: 3, bottom: 4 };
    ALXREyeInfo { eye_fov: [fov, fov], ipd: 0.064f32.to_bits() }
}

fn running() -> Coordinator {
    let mut c = Coordinator::new();
    assert_eq!(c.start(), LifecycleAction::CreateContext);
    assert_eq!(c.handle(LifecycleEvent::ContextReady), LifecycleAction::SpawnSession);
    assert_eq!(c.state(), LifecycleState::Running);
    c
}

#[test]
fn sends_without_consumer_are_dropped() {
    let c = Coordinator::new();
    assert_eq!(c.state(), LifecycleState::Idle);
    assert!(input_send(&c, &idle_snapshot()).is_none());
    assert!(views_config_send(&c, &eye()).is_none());
    assert!(battery_send(&c, 5, 0.5f32.to_bits(), true).is_none());
    assert!(legacy_send(&c, &[1, 2, 3]).is_none());
    assert_eq!(c.route(42u8), None);
}

#[test]
fn sends_while_starting_or_cancelling_are_dropped() {
    let mut c = Coordinator::new();
    c.start();
    assert_eq!(c.state(), LifecycleState::Starting);
    assert!(input_send(&c, &idle_snapshot()).is_none());
    let mut c = running();
    c.shutdown();
    assert_eq!(c.state(), LifecycleState::Cancelling);
    assert!(battery_send(&c, 5, 0, false).is_none());
}

#[test]
fn sends_reach_running_session() {
    let c = running();
    let routed = input_send(&c, &idle_snapshot()).unwrap();
    assert_eq!(routed.session, c.session());
    assert_eq!(routed.value.target_timestamp_ns, 7);
    let views = views_config_send(&c, &eye()).unwrap();
    assert_eq!(views.value.ipd_m, 0.064f32.to_bits());
    let battery = battery_send(&c, 9, 0.25f32.to_bits(), true).unwrap();
    assert_eq!(battery.value.device_id, 9);
    assert_eq!(battery.value.gauge_value, 0.25f32.to_bits());
    assert!(battery.value.is_plugged);
    let raw = legacy_send(&c, &[4, 5, 6]).unwrap();
    assert_eq!(raw.value, vec![4, 5, 6]);
}

#[test]
fn shutdown_right_after_start_returns_to_idle_and_restart_is_fresh() {
    let mut c = running();
    let first = c.session();
    assert_eq!(c.shutdown(), LifecycleAction::CancelAndTearDown);
    assert_eq!(c.handle(LifecycleEvent::TornDown), LifecycleAction::Nothing);
    assert_eq!(c.state(), LifecycleState::Idle);
    assert_eq!(c.start(), LifecycleAction::CreateContext);
    assert_eq!(c.handle(LifecycleEvent::ContextReady), LifecycleAction::SpawnSession);
    assert_ne!(c.session(), first);
    let routed = input_send(&c, &idle_snapshot()).unwrap();
    assert_ne!(routed.session, first);
}

#[test]
fn pause_while_waiting_for_input_reaches_idle() {
    let mut c = running();
    assert_eq!(c.handle(LifecycleEvent::PauseSignalled), LifecycleAction::CancelAndTearDown);
    assert_eq!(c.state(), LifecycleState::Cancelling);
    assert!(input_send(&c, &idle_snapshot()).is_none());
    assert_eq!(c.handle(LifecycleEvent::TaskExited), LifecycleAction::Nothing);
    assert_eq!(c.handle(LifecycleEvent::TornDown), LifecycleAction::Nothing);
    assert_eq!(c.state(), LifecycleState::Idle);
}

#[test]
fn session_ending_on_its_own_is_torn_down() {
    let mut c = running();
    assert_eq!(c.handle(LifecycleEvent::TaskExited), LifecycleAction::TearDown);
    assert_eq!(c.state(), LifecycleState::Cancelling);
    c.handle(LifecycleEvent::TornDown);
    assert_eq!(c.state(), LifecycleState::Idle);
}

#[test]
fn context_failure_is_reported_and_leaves_idle() {
    let mut c = Coordinator::new();
    c.start();
    assert_eq!(c.handle(LifecycleEvent::ContextFailed), LifecycleAction::ReportStartFailure);
    assert_eq!(c.state(), LifecycleState::Idle);
    assert_eq!(c.start(), LifecycleAction::CreateContext);
}

#[test]
fn start_while_active_is_ignored() {
    let mut c = running();
    let session = c.session();
    assert_eq!(c.start(), LifecycleAction::Nothing);
    assert_eq!(c.state(), LifecycleState::Running);
    assert_eq!(c.session(), session);
}

#[test]
fn shutdown_when_idle_does_nothing() {
    let mut c = Coordinator::new();
    assert_eq!(c.shutdown(), LifecycleAction::Nothing);
    assert_eq!(c.state(), LifecycleState::Idle);
}
