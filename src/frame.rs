//! The native per-frame tracking snapshot and its decoding into the
//! canonical input model.
use crate::device::{
    head_id, left_hand_id, right_hand_id, spec_head_id, spec_left_hand_id, spec_right_hand_id,
};
use crate::geometry::{Fov, Quat, Vec2, Vec3, BONE_COUNT};
use vstd::prelude::*;

verus! {

/// One controller block of the native snapshot.
#[derive(Clone, Copy, Debug, PartialEq, Eq)]
pub struct TrackingController {
    pub enabled: bool,
    /// Set when the controller presents as a tracked hand.
    pub is_hand: bool,
    pub buttons: u64,
    pub trackpad_position: Vec2,
    pub trigger_value: u32,
    pub grip_value: u32,
    pub orientation: Quat,
    pub position: Vec3,
    pub angular_velocity: Vec3,
    pub linear_velocity: Vec3,
    pub bone_root_orientation: Quat,
    pub bone_root_position: Vec3,
    pub bone_rotations: [Quat; BONE_COUNT],
    pub bone_positions_base: [Vec3; BONE_COUNT],
    pub hand_finger_confidences: u32,
    pub battery_percent_remaining: u8,
}

/// The pose and field of view of one eye.
#[derive(Clone, Copy, Debug, PartialEq, Eq, Structural)]
pub struct EyeView {
    pub orientation: Quat,
    pub position: Vec3,
    pub fov: Fov,
}

/// One fixed-layout tracking snapshot, as the native runtime hands it over.
#[derive(Clone, Copy, Debug, PartialEq, Eq)]
pub struct TrackingInfo {
    /// Target display time, in nanoseconds since the runtime's epoch.
    pub target_timestamp_ns: u64,
    pub mounted: u8,
    pub head_orientation: Quat,
    pub head_position: Vec3,
    /// Index 0 is the left controller, index 1 the right one.
    pub controllers: [TrackingController; 2],
    /// Per-eye poses, left then right, when the runtime reports them;
    /// otherwise the consumer derives them from the head pose and the
    /// interpupillary distance.
    pub eye_views: Option<[EyeView; 2]>,
}

/// Per-eye view information reported by the runtime.
#[derive(Clone, Copy, Debug, PartialEq, Eq)]
pub struct ALXREyeInfo {
    pub eye_fov: [Fov; 2],
    /// Interpupillary distance, in meters.
    pub ipd: u32,
}

/// The canonical pose of one tracked device.
#[derive(Clone, Copy, Debug, PartialEq, Eq)]
pub struct MotionData {
    pub orientation: Quat,
    pub position: Vec3,
    pub linear_velocity: Option<Vec3>,
    pub angular_velocity: Option<Vec3>,
}

/// Raw per-controller state kept for compatibility.
#[derive(Clone, Copy, Debug, PartialEq, Eq)]
pub struct LegacyController {
    pub enabled: bool,
    pub is_hand: bool,
    pub buttons: u64,
    pub trackpad_position: Vec2,
    pub trigger_value: u32,
    pub grip_value: u32,
    pub bone_rotations: [Quat; BONE_COUNT],
    pub bone_positions_base: [Vec3; BONE_COUNT],
    pub hand_finger_confidence: u32,
    pub battery_percent_remaining: u8,
}

/// Raw state of both controllers.
#[derive(Clone, Copy, Debug, PartialEq, Eq)]
pub struct LegacyInput {
    pub mounted: u8,
    pub controllers: [LegacyController; 2],
}

/// A named button value.
#[derive(Clone, Copy, Debug, PartialEq, Eq)]
pub enum ButtonValue {
    Binary(bool),
    Scalar(u32),
}

/// One tracking sample addressed to a target presentation time.
#[derive(Clone, Debug, PartialEq, Eq)]
pub struct InputFrame {
    pub target_timestamp_ns: u64,
    /// Poses keyed by device identity.
    pub device_motions: Vec<(u64, MotionData)>,
    /// Per-eye poses as the runtime reported them, if it did.
    pub eye_views: Option<[EyeView; 2]>,
    /// Additional named button state; left empty by the decoder.
    pub button_values: Vec<(u64, ButtonValue)>,
    pub legacy: LegacyInput,
}

/// The abstract content of an [`InputFrame`].
pub struct InputFrameView {
    pub target_timestamp_ns: u64,
    pub device_motions: Seq<(u64, MotionData)>,
    pub eye_views: Option<[EyeView; 2]>,
    pub button_values: Seq<(u64, ButtonValue)>,
    pub legacy_mounted: u8,
    pub legacy_controllers: Seq<LegacyController>,
}

impl View for InputFrame {
    type V = InputFrameView;

    open spec fn view(&self) -> InputFrameView {
        InputFrameView {
            target_timestamp_ns: self.target_timestamp_ns,
            device_motions: self.device_motions@,
            eye_views: self.eye_views,
            button_values: self.button_values@,
            legacy_mounted: self.legacy.mounted,
            legacy_controllers: self.legacy.controllers@,
        }
    }
}

/// Stereo view configuration.
#[derive(Clone, Copy, Debug, PartialEq, Eq)]
pub struct ViewsConfig {
    pub ipd_m: u32,
    pub fov: [Fov; 2],
}

/// A battery notification; the gauge is a fraction in `[0, 1]`, as bits.
#[derive(Clone, Copy, Debug, PartialEq, Eq)]
pub struct BatteryPacket {
    pub device_id: u64,
    pub gauge_value: u32,
    pub is_plugged: bool,
}

/// The head pose: copied as reported, with no velocity available.
pub open spec fn head_motion(info: TrackingInfo) -> MotionData {
    MotionData {
        orientation: info.head_orientation,
        position: info.head_position,
        linear_velocity: None,
        angular_velocity: None,
    }
}

/// A controller's pose: taken from the hand skeleton's root bone when the
/// controller presents as a hand, from the controller pose otherwise; the
/// velocities are copied either way.
pub open spec fn controller_motion(c: TrackingController) -> MotionData {
    MotionData {
        orientation: if c.is_hand {
            c.bone_root_orientation
        } else {
            c.orientation
        },
        position: if c.is_hand {
            c.bone_root_position
        } else {
            c.position
        },
        linear_velocity: Some(c.linear_velocity),
        angular_velocity: Some(c.angular_velocity),
    }
}

/// The compatibility record of a controller: a field-by-field copy.
pub open spec fn legacy_controller(c: TrackingController) -> LegacyController {
    LegacyController {
        enabled: c.enabled,
        is_hand: c.is_hand,
        buttons: c.buttons,
        trackpad_position: c.trackpad_position,
        trigger_value: c.trigger_value,
        grip_value: c.grip_value,
        bone_rotations: c.bone_rotations,
        bone_positions_base: c.bone_positions_base,
        hand_finger_confidence: c.hand_finger_confidences,
        battery_percent_remaining: c.battery_percent_remaining,
    }
}

/// The frame that a snapshot decodes to.
pub open spec fn decoded_frame(info: TrackingInfo) -> InputFrameView {
    InputFrameView {
        target_timestamp_ns: info.target_timestamp_ns,
        device_motions: seq![
            (spec_head_id(), head_motion(info)),
            (spec_left_hand_id(), controller_motion(info.controllers[0])),
            (spec_right_hand_id(), controller_motion(info.controllers[1])),
        ],
        eye_views: info.eye_views,
        button_values: Seq::empty(),
        legacy_mounted: info.mounted,
        legacy_controllers: seq![
            legacy_controller(info.controllers[0]),
            legacy_controller(info.controllers[1]),
        ],
    }
}

/// The stereo configuration that an eye report decodes to.
pub open spec fn decoded_views(eye: ALXREyeInfo) -> ViewsConfig {
    ViewsConfig { ipd_m: eye.ipd, fov: eye.eye_fov }
}

fn decode_controller_motion(c: &TrackingController) -> (r: MotionData)
    ensures
        r == controller_motion(*c),
{
    let (orientation, position) = if c.is_hand {
        (c.bone_root_orientation, c.bone_root_position)
    } else {
        (c.orientation, c.position)
    };
    MotionData {
        orientation,
        position,
        linear_velocity: Some(c.linear_velocity),
        angular_velocity: Some(c.angular_velocity),
    }
}

fn decode_legacy_controller(c: &TrackingController) -> (r: LegacyController)
    ensures
        r == legacy_controller(*c),
{
    LegacyController {
        enabled: c.enabled,
        is_hand: c.is_hand,
        buttons: c.buttons,
        trackpad_position: c.trackpad_position,
        trigger_value: c.trigger_value,
        grip_value: c.grip_value,
        bone_rotations: c.bone_rotations,
        bone_positions_base: c.bone_positions_base,
        hand_finger_confidence: c.hand_finger_confidences,
        battery_percent_remaining: c.battery_percent_remaining,
    }
}

/// Decodes one snapshot into an input frame that holds no reference into
/// the snapshot.
pub fn decode_tracking_info(info: &TrackingInfo) -> (r: InputFrame)
    ensures
        r@ == decoded_frame(*info),
{
    let head = MotionData {
        orientation: info.head_orientation,
        position: info.head_position,
        linear_velocity: None,
        angular_velocity: None,
    };
    let mut device_motions: Vec<(u64, MotionData)> = Vec::new();
    device_motions.push((head_id(), head));
    device_motions.push((left_hand_id(), decode_controller_motion(&info.controllers[0])));
    device_motions.push((right_hand_id(), decode_controller_motion(&info.controllers[1])));
    let legacy = LegacyInput {
        mounted: info.mounted,
        controllers: [
            decode_legacy_controller(&info.controllers[0]),
            decode_legacy_controller(&info.controllers[1]),
        ],
    };
    let r = InputFrame {
        target_timestamp_ns: info.target_timestamp_ns,
        device_motions,
        eye_views: info.eye_views,
        button_values: Vec::new(),
        legacy,
    };
    assert(r@.device_motions =~= decoded_frame(*info).device_motions);
    assert(r@.button_values =~= decoded_frame(*info).button_values);
    assert(r@.legacy_controllers =~= decoded_frame(*info).legacy_controllers);
    r
}

/// Decodes an eye report into a stereo view configuration.
pub fn decode_eye_info(eye: &ALXREyeInfo) -> (r: ViewsConfig)
    ensures
        r == decoded_views(*eye),
{
    ViewsConfig {
        ipd_m: eye.ipd,
        fov: eye.eye_fov,
    }
}

/// Decoding is deterministic: any two frames decoded from identical
/// snapshots are the same frame.
pub proof fn lemma_decode_deterministic(
    a: TrackingInfo,
    b: TrackingInfo,
    fa: InputFrame,
    fb: InputFrame,
)
    requires
        a == b,
        fa@ == decoded_frame(a),
        fb@ == decoded_frame(b),
    ensures
        fa@ == fb@,
{
}

/// When controller `i` presents as a hand, its decoded pose is the hand
/// skeleton's root bone pose, whatever the controller pose fields hold; its
/// compatibility record still carries the full bone arrays.
pub proof fn lemma_hand_pose_from_bone_root(info: TrackingInfo, i: int)
    requires
        0 <= i < 2,
        info.controllers[i].is_hand,
    ensures
        decoded_frame(info).device_motions[i + 1].0 == if i == 0 {
            spec_left_hand_id()
        } else {
            spec_right_hand_id()
        },
        decoded_frame(info).device_motions[i + 1].1.orientation
            == info.controllers[i].bone_root_orientation,
        decoded_frame(info).device_motions[i + 1].1.position
            == info.controllers[i].bone_root_position,
        decoded_frame(info).legacy_controllers[i].bone_rotations
            == info.controllers[i].bone_rotations,
        decoded_frame(info).legacy_controllers[i].bone_positions_base
            == info.controllers[i].bone_positions_base,
{
}

} // verus!
