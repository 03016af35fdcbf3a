//! Driving a small monochrome e-paper panel: choosing what to show, laying it
//! out in a one-bit frame, and sequencing the hardware bring-up and refresh.

pub mod canvas;
pub mod error;
pub mod layout;
pub mod order;
pub mod payload;
pub mod pins;
pub mod pixels;
pub mod raster;
pub mod session;
pub mod shown;
pub mod trace;
