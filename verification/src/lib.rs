//! Control of an Ebyte E32 radio module over a serial port.
//!
//! The physical transport carries the module's byte stream together with
//! three out-of-band control lines: a busy-sense input and two mode-select
//! outputs. The control lines are active-low at the transport, while the
//! module driver reasons in logical levels, so each line's polarity mapping
//! is stated and proved here. On top of that sits a one-shot reconciliation
//! protocol (read, compare, apply, verify, report) for the module's
//! configuration parameters, modelled as an explicit state machine.

use vstd::prelude::*;

mod config;
mod params;
mod pins;
mod reconcile;
mod send;
mod stream;

pub use config::ConfigError;
pub use config::StopBits;
pub use config::stop_bits_from_count;
pub use params::AirBaudRate;
pub use params::BaudRate;
pub use params::ForwardErrorCorrectionMode;
pub use params::IoDriveMode;
pub use params::Parameters;
pub use params::Parity;
pub use params::Persistence;
pub use params::TransmissionMode;
pub use params::TransmissionPower;
pub use params::WakeupTime;
pub use pins::CtsAux;
pub use pins::Level;
pub use pins::M0Dtr;
pub use pins::M1Rts;
pub use reconcile::Action;
pub use reconcile::Event;
pub use reconcile::Outcome;
pub use reconcile::Stage;
pub use reconcile::State;
pub use reconcile::action_spec;
pub use reconcile::answers;
pub use reconcile::initial;
pub use reconcile::initial_spec;
pub use reconcile::is_terminal;
pub use reconcile::lemma_at_most_one_write;
pub use reconcile::lemma_differing_requests_one_write;
pub use reconcile::lemma_reconcile_idempotent;
pub use reconcile::lemma_terminal_is_stable;
pub use reconcile::lemma_unchanged_requests_no_write;
pub use reconcile::next_action;
pub use reconcile::properly_driven;
pub use reconcile::readbacks_for;
pub use reconcile::readbacks_requested;
pub use reconcile::run_spec;
pub use reconcile::step;
pub use reconcile::step_spec;
pub use reconcile::writes_for;
pub use reconcile::writes_requested;
pub use send::exit_word;
pub use send::is_sentinel;
pub use send::is_sentinel_line;
pub use send::plan_line;
pub use send::quit_word;
pub use stream::ReadPoll;
pub use stream::classify_read;

verus! {

/// Delay provider for the driver's timing-sensitive mode transitions;
/// the sleeping itself is performed by the surrounding application.
pub struct StandardDelay {}

/// Operational mode selected on the command line.
#[derive(Clone, Copy, Debug, PartialEq, Eq, Structural)]
pub enum Mode {
    /// Read the module's model data and print it.
    ReadModelData,
    /// Read the module's parameters and print them.
    ReadParameters,
    /// Reconcile the module's parameters with the given desired ones,
    /// with the requested persistence.
    Configure(params::Parameters, params::Persistence),
    /// Listen for incoming data on the module.
    Listen,
    /// Send lines of input over the module.
    Send,
}

} // verus!
