//! The security- and I/O-critical runtime of a sandboxed scripting
//! environment for input devices: a one-shot, ordered privilege
//! reduction; a multiplexer that waits on a fixed set of input devices
//! and drains one device's queue per call; a relay that validates
//! script-constructed records and injects them into a synthetic output
//! device; and the three-call bridge surface the script engine sees.

pub mod bridge;
pub mod events;
pub mod mux;
pub mod privilege;
pub mod relay;

pub use events::InputEvent;
pub use events::NativeEvent;
