//! Protocol core of a point-to-point bridge to a Bluetooth Low Energy
//! peripheral that speaks the Nordic UART Service.
//!
//! The crate holds the decisions of such a bridge and none of its I/O: which
//! advertisement is the wanted peripheral, which discovered service and
//! characteristics form the UART profile, when the next uplink write is due,
//! what becomes of each inbound notification, and how a session moves from
//! scanning to its end. A caller owns the radio, the timer and the terminal,
//! performs the actions the crate names and reports back what happened.

pub mod downlink;
pub mod error;
pub mod first;
pub mod matcher;
pub mod resolver;
pub mod session;
pub mod text;
pub mod uplink;
pub mod uuid;
