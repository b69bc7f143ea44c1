//! Driver logic for a two-line character panel on a four-bit parallel bus,
//! together with the sampling rules of the six-channel thermometer that
//! feeds it.
//!
//! The driver never touches hardware. Every operation appends the signal
//! transitions and waits it calls for to a queue of [`bus::BusEvent`]s, and
//! the firmware around this library replays that queue on the physical
//! lines.
//!
//! - [`bus`]: the lines, the events, and the event sequence of each protocol
//!   step.
//! - [`lcd`]: the driver.
//! - [`controller`]: the bus as the controller sees it.
//! - [`protocol`]: what the controller receives from each driver operation.
//! - [`thermistor`]: the meaning of a raw converter code.
//! - [`acquisition`]: the thermometer's start-up and its acquisition cycle.

pub mod acquisition;
pub mod bus;
pub mod controller;
pub mod lcd;
pub mod protocol;
pub mod thermistor;
