//! Publish records and the submission phase of a cycle.
//!
//! Every reading is published at least once per delivery quality, under
//! its channel's fixed topic, with the payload the exact decimal text
//! of the reading. The retain flag is applied uniformly: every channel
//! here is a "last known value" channel and is published retained, so
//! the broker replays the latest reading to new subscribers.
//!
//! Submission is fault-isolated: a failure to enqueue one record is
//! reported and the phase proceeds to the next record; it never skips
//! or aborts the remaining channels.

use vstd::prelude::*;
use crate::channel::ChannelKind;
use crate::channel::topic_of;
use crate::channel::topic;
use crate::encode::dec_bytes;
use crate::encode::encode_decimal;

verus! {

/// Broker delivery-quality level of a message.
#[derive(Clone, Copy, Debug, PartialEq, Eq, Structural)]
pub enum QosLevel {
    /// Fire and forget; the broker may drop the message.
    AtMostOnce,
    /// The broker may redeliver but will not silently drop.
    AtLeastOnce,
    /// Delivered exactly once.
    ExactlyOnce,
}

/// Failure to enqueue one record; non-fatal, the cycle proceeds.
#[derive(Clone, Debug)]
pub struct PublishFailed {
    /// The topic whose record could not be enqueued.
    pub topic: String,
}

/// One message to hand to the broker client: a named value with its
/// delivery quality and retention.
#[derive(Clone, Debug)]
pub struct PublishRecord {
    /// Topic, fixed per channel, namespaced under the device identifier.
    pub topic: String,
    /// Decimal text of the reading.
    pub payload: Vec<u8>,
    /// Delivery quality; always at-least-once for telemetry fields.
    pub qos: QosLevel,
    /// Whether the broker keeps the value for new subscribers.
    pub retain: bool,
}

/// What the record of channel `kind` carrying `value` must hold.
pub open spec fn record_matches(r: PublishRecord, kind: ChannelKind, value: int) -> bool {
    &&& r.topic@ == topic_of(kind)
    &&& r.payload@ == dec_bytes(value)
    &&& r.qos == QosLevel::AtLeastOnce
    &&& r.retain == true
}

/// Build the publish record of one channel's reading: its fixed topic,
/// the exact decimal text of the reading, at-least-once delivery, and
/// the uniform retained policy.
pub fn make_record(kind: ChannelKind, value: i64) -> (r: PublishRecord)
    ensures
        record_matches(r, kind, value as int),
{
    PublishRecord {
        topic: topic(kind).to_owned(),
        payload: encode_decimal(value),
        qos: QosLevel::AtLeastOnce,
        retain: true,
    }
}

/// Index the submission phase stands at after one outcome: it advances
/// whether the enqueue succeeded or failed — a failure skips nothing.
pub open spec fn phase_next(next: nat, ok: bool) -> nat {
    next + 1
}

/// Index the phase stands at after a whole sequence of outcomes.
pub open spec fn run_phase(next: nat, outcomes: Seq<bool>) -> nat
    decreases outcomes.len(),
{
    if outcomes.len() == 0 {
        next
    } else {
        run_phase(phase_next(next, outcomes.first()), outcomes.drop_first())
    }
}

/// Fault isolation of the submission phase: processing one outcome per
/// record attempts every record, whatever each outcome was — a failed
/// enqueue on one channel never prevents the submission of the
/// remaining channels' records.
pub proof fn lemma_publish_fault_isolation(next: nat, outcomes: Seq<bool>)
    ensures
        run_phase(next, outcomes) == next + outcomes.len(),
    decreases outcomes.len(),
{
    if outcomes.len() > 0 {
        lemma_publish_fault_isolation(next + 1, outcomes.drop_first());
    }
}

/// The submission phase of one cycle: hands out each record in channel
/// order and records each outcome, advancing past failures.
pub struct PublishRun {
    records: Vec<PublishRecord>,
    next: usize,
    failures: usize,
}

impl PublishRun {
    /// The records this phase submits, in channel order.
    pub closed spec fn records(&self) -> Seq<PublishRecord> {
        self.records@
    }

    /// How many records have been attempted so far.
    pub closed spec fn attempted(&self) -> nat {
        self.next as nat
    }

    /// How many attempts failed so far.
    pub closed spec fn failures(&self) -> nat {
        self.failures as nat
    }

    /// The phase never stands past its records, and cannot have failed
    /// more often than it attempted.
    pub open spec fn wf(&self) -> bool {
        self.attempted() <= self.records().len() && self.failures() <= self.attempted()
    }

    /// Begin the submission phase over one cycle's records.
    pub fn new(records: Vec<PublishRecord>) -> (p: Self)
        ensures
            p.records() == records@,
            p.attempted() == 0,
            p.failures() == 0,
            p.wf(),
    {
        PublishRun { records, next: 0, failures: 0 }
    }

    /// The record to submit next, `None` once every record was
    /// attempted.
    pub fn current(&self) -> (r: Option<&PublishRecord>)
        requires
            self.wf(),
        ensures
            match r {
                Some(rec) => self.attempted() < self.records().len() && *rec == self.records()[
                    self.attempted() as int
                ],
                None => self.attempted() == self.records().len(),
            },
    {
        if self.next < self.records.len() {
            Some(&self.records[self.next])
        } else {
            None
        }
    }

    /// Record the outcome of submitting the current record. The phase
    /// advances to the next record whether the enqueue succeeded or
    /// failed — per-field failure isolation — and a failure is reported
    /// under the record's topic, never escalated.
    pub fn note_outcome(&mut self, ok: bool) -> (r: Option<PublishFailed>)
        requires
            old(self).wf(),
            old(self).attempted() < old(self).records().len(),
        ensures
            final(self).records() == old(self).records(),
            final(self).attempted() == phase_next(old(self).attempted(), ok),
            final(self).failures() == old(self).failures() + (if ok {
                0int
            } else {
                1int
            }),
            final(self).wf(),
            ok ==> r is None,
            !ok ==> match r {
                Some(f) => f.topic@ == old(self).records()[old(self).attempted() as int].topic@,
                None => false,
            },
    {
        let len: usize = self.records.len();
        assert(self.next < len);
        let failed: Option<PublishFailed> = if ok {
            None
        } else {
            self.failures = self.failures + 1;
            Some(PublishFailed { topic: self.records[self.next].topic.clone() })
        };
        self.next = self.next + 1;
        failed
    }

    /// Whether every record of the cycle has been attempted.
    pub fn is_done(&self) -> (b: bool)
        requires
            self.wf(),
        ensures
            b <==> self.attempted() == self.records().len(),
    {
        self.next >= self.records.len()
    }
}

} // verus!
