//! Webcam property management library.
//!
//! Models video-capture devices and their controllable properties: a fixed
//! catalog of known properties in two groups (image processing and
//! mechanical/optical), a codec between human-readable value strings and the
//! raw numeric encoding used by the device driver layer, enumeration-result
//! assembly, device selection, and validation/planning of property writes.
//!
//! Talking to the operating system's device-enumeration and property services
//! is left to a thin unverified shell around this crate; the shell hands the
//! raw query results in as plain values and carries the planned write requests
//! out.

pub mod catalog;
pub mod chars;
pub mod codec;
pub mod devpath;
pub mod enumerate;
pub mod error;
pub mod laws;
pub mod model;
pub mod mutate;
pub mod numerals;
pub mod output;
pub mod select;

pub use error::CamError;
