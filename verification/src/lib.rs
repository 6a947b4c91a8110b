//! Pulse-timing engine for short-range RF remote control transmitters.
//!
//! The library turns logical device commands into sequences of HIGH/LOW
//! pulse durations that consumer RF receivers expect. It covers the
//! generic protocol timing table (header/body/footer bit encoding with
//! repetition), the per-dialect message encoders, the rolling-code
//! generator, the transmission layer with its fixed per-pulse delay
//! correction, and the raw-capture replay path.

pub mod blyss;
pub mod blyss_sender;
pub mod celexon;
pub mod dio;
pub mod dooya;
pub mod house;
pub mod led;
pub mod message_sender;
pub mod pin;
pub mod radio;
pub mod radio_emitter;
pub mod radio_protocol;
pub mod raspberry;
pub mod replay;
pub mod sender;
