//! Client-side bridge between a native VR tracking runtime and a background
//! streaming session: snapshot decoding, routing of decoded values to the
//! active session, and the lifecycle of that session.

pub mod activity;
pub mod bridge;
pub mod device;
pub mod frame;
pub mod geometry;
pub mod headset;
pub mod lifecycle;
pub mod options;
pub mod tasks;
pub mod text;
