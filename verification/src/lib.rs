//! Control of a Bluetooth Low Energy LED strip that speaks a fixed-size
//! binary protocol over GATT writes.
//!
//! The library holds what is decided and computed in a session with the
//! strip, and leaves the radio work to its caller:
//!
//! - [`command`] and [`preset`]: the logical commands and their wire frames;
//! - [`hexdump`]: the text in which a frame is shown;
//! - [`characteristic`]: the characteristics of a peripheral, sorted by what
//!   they can do;
//! - [`discovery`]: the session that leads from a scan to a connected
//!   peripheral, as a state machine that asks for one action at a time;
//! - [`sequencer`]: ordered lists of commands and waits, and their delivery
//!   to the writable characteristics, one directive at a time;
//! - [`error`]: the kinds of failure.

pub mod characteristic;
pub mod command;
pub mod discovery;
pub mod error;
pub mod hexdump;
pub mod preset;
pub mod sequencer;

pub use command::LightsCommands;
pub use discovery::{find_primary_uuid_for, wait_for_advertisement};
pub use preset::LightPreset;
pub use sequencer::{do_demo, send_command};
