//! Framing protocol of a HID barcode scanner: the frame codec, the request
//! frames of the command exchange and how a reply is judged, and the small
//! decisions that the station around the scanner makes.

pub mod access;
pub mod exchange;
pub mod frame;
pub mod indicator;
pub mod laws;

pub use frame::{calc_xor, FrameError, SocketData, State};
pub use indicator::LEDState;
