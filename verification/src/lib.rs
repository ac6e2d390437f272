//! Event multiplexing for power-button monitoring.
//!
//! The crate merges two sources into one ordered stream of decisions: hotplug
//! notifications about input devices that appear and disappear, and the input
//! events of the devices that are currently registered. A release of one of
//! the target keys asks the caller to run its command.
//!
//! Everything in this crate is decided from plain values and proved against
//! the contract written on it. Waiting on the operating system, opening device
//! nodes and running the command are the caller's part: the caller performs
//! what a decision asks for and reports back what happened.

pub mod bridge;
pub mod event;
pub mod hotplug;
pub mod multiplex;
pub mod registry;
pub mod streams;
