//! Core logic of a desktop launcher: classify a path as a shortcut or a plain
//! executable, resolve the shortcut's target, drive a launch with a single
//! privilege-elevation retry, and encode an icon image as a base64 payload.

pub mod icon;
pub mod launch;
pub mod shortcut;
