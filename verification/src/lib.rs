//! Bridge between a smart-home voice-assistant command protocol and local
//! device actions: volume control, media transport control and power-off,
//! with periodic and on-demand status reporting back to the message bus.
//!
//! The crate holds the protocol core: command routing and validation, the
//! volume arithmetic, the status snapshot and its wire encoding, and the
//! decisions of the event loop. The surrounding process (bus transport,
//! OS audio and media sessions, the tray icon) performs the effects this
//! core decides on.

pub mod commands;
pub mod encode;
pub mod events;
pub mod inbound;
pub mod number;
pub mod status;
pub mod volume;
