//! Telemetry for a sump pump.
//!
//! A sensor reports when the pump goes on and off. The monitor reads its
//! frames, follows the pump through its cycles, writes what it learns to the
//! logs of a store, and shows it on two lamps.
//!
//! - [`frame`]: the frames of the sensor.
//! - [`cycle`]: the pump's cycle, its duty and the in-flow.
//! - [`monitor`]: what to do about each event on the line to the sensor.
//! - [`telemetry`]: the records of the logs.
//! - [`store`]: the commands that write them.
//! - [`lamp`]: the programs of the lamps.
//! - [`data`]: scalar values and the bytes that keep them in the store.
//! - [`endian`], [`decimal`]: numbers as bytes and as text.
//! - [`config`]: addresses and the level of logging.

pub mod config;
pub mod cycle;
pub mod data;
pub mod decimal;
pub mod endian;
pub mod frame;
pub mod lamp;
pub mod monitor;
pub mod store;
pub mod telemetry;
