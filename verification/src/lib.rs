//! A driver engine for the IEEE 802.15.4 radio of the nRF52 family.
//!
//! The driver sends a prepared frame after it has found the channel clear
//! (CSMA-CA), and listens on its channel the rest of the time, handing every
//! received frame and the verdict of its CRC to a client.
//!
//! The engine never touches the peripheral itself. Every operation returns
//! the exact list of register operations and client notifications that the
//! platform has to carry out, and every hardware reading that a decision
//! depends on is handed in as a plain value. All of the driver's logic is
//! therefore ordinary data-in, data-out code with a contract:
//!
//! - `registers`, `bitfield`, `config`: the register map of the peripheral,
//!   its bit fields, and the words that configure it for IEEE 802.15.4;
//! - `channel`, `power`: the sixteen channels and the nine output powers;
//! - `nonce`: the generator of the backoff delays;
//! - `ops`: the operations and notifications that the engine hands out, and
//!   the register readings that it takes in;
//! - `model`: the engine as a mathematical state machine;
//! - `radio`: the engine itself, proved to follow the state machine;
//! - `state`, `machine`: the observer of the peripheral's state, and the
//!   driver as the kernel uses it;
//! - `laws`: what holds of the engine over every input and every sequence
//!   of calls.
//!
//! The platform serves an interrupt in three steps. It reads the event
//! registers, STATE and CRCSTATUS into an `InterruptStatus` and calls
//! `handle_interrupt`. It carries out the actions it gets back, in order.
//! If a frame was completed, it then calls `power_cycle` and performs the
//! operations of that as well.
pub mod bitfield;
pub mod channel;
pub mod config;
pub mod constants;
pub mod error;
pub mod laws;
pub mod machine;
pub mod model;
pub mod nonce;
pub mod ops;
pub mod power;
pub mod radio;
pub mod registers;
pub mod state;
