//! Core of a smart-home system: the binary wire protocol spoken between the
//! hub and remote device emulators, the monitoring state machines that keep a
//! device's snapshot current over TCP polling or UDP push, the shared snapshot
//! cell read concurrently by the rest of the system, and the in-memory
//! home / room / device model layered on top.

pub mod builder;
pub mod clock;
pub mod contracts;
pub mod emulator;
pub mod errors;
pub mod health;
pub mod id;
pub mod online;
pub mod reporter;
pub mod rich_console;
pub mod smart_device;
pub mod smart_home;
pub mod smart_room;
pub mod smart_socket;
pub mod smart_thermometer;
pub mod state;
pub mod subscriber;
pub mod text;
pub mod wire;

pub use reporter::Report;
