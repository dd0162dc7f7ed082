//! Core logic of a battery-powered telemetry node: a firmware control loop
//! that samples a load-cell amplifier and two analog voltage rails,
//! aggregates the raw samples into one scaled reading per channel, and
//! prepares the readings for publication to a remote message broker.
//!
//! The hardware drivers, the wireless stack and the broker client are
//! external collaborators: this crate holds the decisions and computations
//! of the control loop — sampling order, aggregation arithmetic, the
//! connectivity state machine, publish-record construction and the
//! failure-handling policy — each with a proved contract.

pub mod aggregator;
pub mod channel;
pub mod connectivity;
pub mod encode;
pub mod publish;
pub mod sensor;
pub mod telemetry;
