//! Verified core of a small desktop viewer that polls a local endpoint for a
//! graph description, renders it to an image, and shows the latest image (or a
//! placeholder) in a window.
//!
//! The crate holds the logic worth proving: decoding the polled response body,
//! the per-iteration update of the shared image slot, and the presenter's
//! choice between the last image and the placeholder. Network traffic, the
//! window loop and logging live outside, around this library.

pub mod poll;
pub mod present;
pub mod response;
pub mod slot;




