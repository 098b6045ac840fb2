//! Camera discovery, exact-match format negotiation and the per-frame
//! capture/decode pipeline of a USB video preview.
//!
//! The crate holds the decisions; the program around it talks to the video
//! driver and to the window. Startup is a dialogue: [`negotiation::Stage`]
//! says what to ask of the host next and is advanced with each answer.
//! Every redraw hands the bytes of one acquired buffer to
//! [`pipeline::CaptureSession`].

pub mod bindings;
pub mod frame;
pub mod listing;
pub mod negotiation;
pub mod pipeline;
pub mod target;
