//! A bridge to a native audio-control library: the decisions of each bridge
//! operation are verified state machines, the wide-string codec rests on
//! `widestring`, and the native calls themselves are made by the caller.

mod device;
mod wide;
mod listing;
mod command;

pub use device::{AudioDevice, BridgeError, RawDevice};
pub use wide::{decode_device, decode_wide, encode_wide};
pub use listing::{ListAction, ListEvent, ListPhase, ListSession};
pub use command::{Command, CommandAction, CommandEvent, CommandPhase, CommandSession};
