//! Entry points that the native runtime calls on its own thread: each one
//! decodes what it is handed and addresses it to the current session, or
//! drops it when no consumer is attached.
use crate::frame::{
    decode_eye_info, decode_tracking_info, decoded_frame, decoded_views, BatteryPacket, ALXREyeInfo,
    InputFrame, TrackingInfo, ViewsConfig,
};
use crate::lifecycle::{Coordinator, Routed};
use vstd::prelude::*;

verus! {

/// A tracking snapshot, decoded for the current session's input consumer.
pub fn input_send(link: &Coordinator, data: &TrackingInfo) -> (r: Option<Routed<InputFrame>>)
    ensures
        r is Some <==> link.consumer_attached(),
        r is Some ==> r->0.session == link@.session && r->0.value@ == decoded_frame(*data),
{
    if link.has_consumer() {
        link.route(decode_tracking_info(data))
    } else {
        None
    }
}

/// An eye report, decoded for the current session's view consumer.
pub fn views_config_send(link: &Coordinator, eye_info: &ALXREyeInfo) -> (r: Option<Routed<ViewsConfig>>)
    ensures
        r is Some <==> link.consumer_attached(),
        r is Some ==> r->0 == (Routed { session: link@.session, value: decoded_views(*eye_info) }),
{
    if link.has_consumer() {
        link.route(decode_eye_info(eye_info))
    } else {
        None
    }
}

/// A battery notification for the current session's battery consumer.
pub fn battery_send(
    link: &Coordinator,
    device_id: u64,
    gauge_value: u32,
    is_plugged: bool,
) -> (r: Option<Routed<BatteryPacket>>)
    ensures
        r is Some <==> link.consumer_attached(),
        r is Some ==> r->0 == (Routed {
            session: link@.session,
            value: BatteryPacket { device_id, gauge_value, is_plugged },
        }),
{
    link.route(BatteryPacket { device_id, gauge_value, is_plugged })
}

/// A raw packet from the runtime, copied out of its buffer for the current
/// session's consumer.
pub fn legacy_send(link: &Coordinator, buffer: &[u8]) -> (r: Option<Routed<Vec<u8>>>)
    ensures
        r is Some <==> link.consumer_attached(),
        r is Some ==> r->0.session == link@.session && r->0.value@ == buffer@,
{
    if link.has_consumer() {
        link.route(vstd::slice::slice_to_vec(buffer))
    } else {
        None
    }
}

} // verus!
