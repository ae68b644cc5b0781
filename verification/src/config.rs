//! Validated construction of the serial transport's settings.
//!
//! An invalid stop-bit count is a misconfiguration that must be rejected
//! when the configuration is loaded; it never silently coerces to a
//! default.

use vstd::prelude::*;

verus! {

/// Number of stop bits on the serial transport.
#[derive(Clone, Copy, Debug, PartialEq, Eq, Structural)]
pub enum StopBits {
    One,
    Two,
}

/// A configuration value that the transport cannot be set up with.
#[derive(Clone, Copy, Debug, PartialEq, Eq, Structural)]
pub enum ConfigError {
    /// A stop-bit count other than 1 or 2.
    InvalidStopBits(u8),
}

/// Validate a configured stop-bit count: exactly 1 or 2 is accepted,
/// every other count is rejected.
pub fn stop_bits_from_count(count: u8) -> (validated: Result<StopBits, ConfigError>)
    ensures
        count == 1 <==> validated == Ok::<StopBits, ConfigError>(StopBits::One),
        count == 2 <==> validated == Ok::<StopBits, ConfigError>(StopBits::Two),
        validated is Err <==> !(count == 1 || count == 2),
        validated is Err ==> validated == Err::<StopBits, ConfigError>(
            ConfigError::InvalidStopBits(count),
        ),
{
    if count == 1 {
        Ok(StopBits::One)
    } else if count == 2 {
        Ok(StopBits::Two)
    } else {
        Err(ConfigError::InvalidStopBits(count))
    }
}

} // verus!
