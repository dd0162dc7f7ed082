//! The sensor port: what one "sample now" of a channel asks of the
//! underlying drivers.
//!
//! For an amplifier channel a valid read is two-phase: the gain/channel
//! mode must be latched before the conversion, then the converted value
//! is retrieved (blocking until conversion completion). An analog
//! channel needs a single conversion. The drivers themselves are
//! external collaborators; this module decides which driver operations
//! a read consists of, and models their outcomes. The port performs no
//! retry: every driver-level error is reported as a single acquisition
//! failure naming the channel.

use vstd::prelude::*;
use crate::channel::AmpMode;
use crate::channel::ChannelKind;
use crate::channel::ChannelSpec;

verus! {

/// One operation of the underlying peripheral drivers.
#[derive(Clone, Copy, Debug, PartialEq, Eq, Structural)]
pub enum DriverOp {
    /// Latch an amplifier gain/channel mode before the next conversion.
    SelectMode(AmpMode),
    /// Run one conversion and retrieve the raw value.
    ConvertAndRead,
}

/// A fatal acquisition error on one channel; it aborts the cycle and,
/// by the node's failure policy, the whole run.
#[derive(Clone, Copy, Debug, PartialEq, Eq, Structural)]
pub struct AcquisitionFailed {
    /// The channel whose read failed.
    pub channel: ChannelKind,
}

/// What one read of a channel returned: the raw value, or a driver
/// failure.
#[derive(Clone, Copy, Debug, PartialEq, Eq, Structural)]
pub enum ReadOutcome {
    /// The raw sample the conversion produced.
    Got(i32),
    /// The driver reported an error at some step of the read.
    Failed,
}

/// The driver operations one read of a channel consists of: latch the
/// mode first where the channel has one, then convert and read.
pub fn acquisition_steps(c: &ChannelSpec) -> (v: Vec<DriverOp>)
    ensures
        match c.mode_select {
            Some(m) => v@ =~= seq![DriverOp::SelectMode(m), DriverOp::ConvertAndRead],
            None => v@ =~= seq![DriverOp::ConvertAndRead],
        },
{
    let mut v: Vec<DriverOp> = Vec::new();
    match c.mode_select {
        Some(m) => {
            v.push(DriverOp::SelectMode(m));
        },
        None => {},
    }
    v.push(DriverOp::ConvertAndRead);
    v
}

} // verus!
