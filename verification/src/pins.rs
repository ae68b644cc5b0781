//! Polarity mapping between the transport's control lines and the logical
//! pin levels the module driver expects.
//!
//! All three control lines are active-low at the transport: an electrically
//! asserted line corresponds to logic 0 at the module's pin. Each adapter
//! role absorbs exactly this inversion, so the driver can reason purely in
//! logical levels. The mapping of each line is stated independently.

use vstd::prelude::*;

verus! {

/// Logical level of a digital pin, as seen by the module driver.
#[derive(Clone, Copy, Debug, PartialEq, Eq, Structural)]
pub enum Level {
    Low,
    High,
}

/// Busy-sense input role, bound to the transport's clear-to-send line.
///
/// The module holds the line asserted while it is ready; it releases the
/// line while busy. The logical pin therefore reads high (busy) exactly
/// when the physical line is not asserted.
pub struct CtsAux {}

/// First mode-select output role, bound to the data-terminal-ready line.
///
/// Requesting logical low must assert the physical line; requesting
/// logical high must deassert it.
pub struct M0Dtr {}

/// Second mode-select output role, bound to the request-to-send line.
///
/// Same inverted mapping as the first mode-select output, stated on its
/// own so each line's polarity is independently specified.
pub struct M1Rts {}

impl CtsAux {
    /// Logical reading of the busy-sense pin for a raw clear-to-send
    /// state: high (busy) if and only if the line is not asserted.
    pub fn is_high(cts_asserted: bool) -> (high: bool)
        ensures
            high == !cts_asserted,
    {
        !cts_asserted
    }

    /// Complement of [`CtsAux::is_high`]: low (ready) if and only if the
    /// line is asserted.
    pub fn is_low(cts_asserted: bool) -> (low: bool)
        ensures
            low == cts_asserted,
    {
        cts_asserted
    }
}

impl M0Dtr {
    /// Physical data-terminal-ready state that realises the requested
    /// logical level: asserted exactly for logical low.
    pub fn drive_for(level: Level) -> (asserted: bool)
        ensures
            asserted == (level == Level::Low),
    {
        match level {
            Level::Low => true,
            Level::High => false,
        }
    }
}

impl M1Rts {
    /// Physical request-to-send state that realises the requested logical
    /// level: asserted exactly for logical low.
    pub fn drive_for(level: Level) -> (asserted: bool)
        ensures
            asserted == (level == Level::Low),
    {
        match level {
            Level::Low => true,
            Level::High => false,
        }
    }
}

} // verus!
