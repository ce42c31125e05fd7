//! Frame conversion and presentation logic for a live camera preview.

pub mod capture;
pub mod channel;
pub mod color;
pub mod convert;
pub mod error;
pub mod frame;
pub mod pipeline;
pub mod surface;
