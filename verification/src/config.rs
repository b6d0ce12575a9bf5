//! Where the monitor finds the store and the sensor, and how much it logs.

use vstd::prelude::*;

verus! {

/// The host of the store.
pub const REDIS_HOST: &'static str = "127.0.0.1";

/// The port of the store.
pub const REDIS_PORT: u16 = 6379;

/// The address of the sensor, as the four numbers of an IPv4 address.
pub const SENSOR_HOST: [u8; 4] = [192, 168, 1, 101];

/// The port of the sensor.
pub const SENSOR_PORT: u16 = 10_000;

/// How much is logged, from the least to the most.
#[derive(Clone, Copy, Debug, PartialEq, Eq)]
pub enum LogLevel {
    Warn,
    Info,
    Debug,
    Trace,
}

/// The level that goes with the number of times that more was asked for.
pub open spec fn level_for(verbose: u64) -> LogLevel {
    if verbose == 0 {
        LogLevel::Warn
    } else if verbose == 1 {
        LogLevel::Info
    } else if verbose == 2 {
        LogLevel::Debug
    } else {
        LogLevel::Trace
    }
}

/// The level that goes with the number of times that more was asked for:
/// warnings by default, then one step each time, up to everything.
pub fn log_level(verbose: u64) -> (level: LogLevel)
    ensures
        level == level_for(verbose),
{
    match verbose {
        0 => LogLevel::Warn,
        1 => LogLevel::Info,
        2 => LogLevel::Debug,
        _ => LogLevel::Trace,
    }
}

} // verus!
