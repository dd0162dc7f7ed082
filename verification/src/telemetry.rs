//! One cycle of the telemetry loop: acquire N samples of each of the
//! four channels in a fixed order, reduce each channel's samples to one
//! scaled reading, and build the publish records.
//!
//! The hardware reads themselves happen outside this crate; a cycle's
//! outcomes are handed in as the sequence of read results in the order
//! the plan asked for them. A cycle completes if and only if every read
//! succeeded; the first failed read aborts the cycle with an
//! acquisition error naming its channel, and no record of that cycle is
//! produced. Publish failures, by contrast, never halt the run: the
//! node is deliberately fatal on acquisition failures and tolerant of
//! publish failures, and that asymmetry is stated here as policy.

use vstd::prelude::*;
use crate::aggregator::reduce;
use crate::aggregator::reduce_spec;
use crate::channel::ChannelKind;
use crate::channel::scale_of;
use crate::publish::PublishRecord;
use crate::publish::make_record;
use crate::publish::record_matches;
use crate::sensor::AcquisitionFailed;
use crate::sensor::ReadOutcome;

verus! {

/// Milliseconds to wait between sampling iterations, respecting the
/// amplifier's settling and conversion-rate limit.
pub const INTER_SAMPLE_DELAY_MS: u64 = 500;

/// The channel read at position `j` of a cycle: each iteration reads
/// the supply rail, the battery rail, the amplifier at gain 128 and the
/// amplifier at gain 32, in that order.
pub open spec fn channel_at(j: int) -> ChannelKind {
    if j % 4 == 0 {
        ChannelKind::AnalogVcc
    } else if j % 4 == 1 {
        ChannelKind::AnalogVbat
    } else if j % 4 == 2 {
        ChannelKind::AmpGain128
    } else {
        ChannelKind::AmpGain32
    }
}

/// The raw value a successful read carried.
pub open spec fn value_of(r: ReadOutcome) -> i32
    recommends
        r is Got,
{
    match r {
        ReadOutcome::Got(x) => x,
        ReadOutcome::Failed => 0,
    }
}

/// The samples a cycle's reads contributed to channel position `c`
/// (0 to 3), in the order they were taken.
pub open spec fn channel_samples(reads: Seq<ReadOutcome>, c: int) -> Seq<i32>
    decreases reads.len(),
{
    if reads.len() == 0 {
        Seq::empty()
    } else {
        let rest = channel_samples(reads.drop_last(), c);
        if (reads.len() - 1) % 4 == c {
            rest.push(value_of(reads.last()))
        } else {
            rest
        }
    }
}

/// Every reading of a cycle is produced from that cycle's own reads,
/// and from exactly one sample per iteration: of the reads so far,
/// channel position `c` holds one sample per started iteration, so a
/// completed cycle of 4·N reads gives every channel exactly N samples
/// and carries none across cycles.
pub proof fn lemma_cycle_has_n_samples_per_channel(reads: Seq<ReadOutcome>, c: int)
    requires
        0 <= c < 4,
    ensures
        channel_samples(reads, c).len() == (reads.len() + 3 - c) / 4,
        reads.len() % 4 == 0 ==> channel_samples(reads, c).len() == reads.len() / 4,
    decreases reads.len(),
{
    if reads.len() > 0 {
        lemma_cycle_has_n_samples_per_channel(reads.drop_last(), c);
    }
}

/// No read before position `j` failed.
pub open spec fn no_failure_before(reads: Seq<ReadOutcome>, j: int) -> bool {
    forall|k: int| 0 <= k < j ==> reads[k] is Got
}

/// The readings of one completed cycle, with the records to publish
/// for them, in channel order: supply rail, battery rail, amplifier
/// gain 128, amplifier gain 32.
pub struct CycleReport {
    /// Supply-rail reading, pre-scaled mean.
    pub vcc: i64,
    /// Battery-rail reading, pre-scaled mean.
    pub vbat: i64,
    /// Amplifier gain-128 reading, sign-preserving mean.
    pub value: i64,
    /// Amplifier gain-32 reading, sign-preserving mean.
    pub chb: i64,
    /// One publish record per channel, in channel order.
    pub records: Vec<PublishRecord>,
}

/// What a completed cycle's report must hold for the reads it was
/// computed from: each reading is the reduction of its channel's N
/// samples with the channel's scale, and each record carries the
/// decimal text of its reading under its channel's topic.
pub open spec fn report_matches(rep: CycleReport, reads: Seq<ReadOutcome>) -> bool {
    &&& rep.vcc == reduce_spec(channel_samples(reads, 0), scale_of(ChannelKind::AnalogVcc))
    &&& rep.vbat == reduce_spec(channel_samples(reads, 1), scale_of(ChannelKind::AnalogVbat))
    &&& rep.value == reduce_spec(channel_samples(reads, 2), scale_of(ChannelKind::AmpGain128))
    &&& rep.chb == reduce_spec(channel_samples(reads, 3), scale_of(ChannelKind::AmpGain32))
    &&& rep.records.len() == 4
    &&& record_matches(rep.records[0], ChannelKind::AnalogVcc, rep.vcc as int)
    &&& record_matches(rep.records[1], ChannelKind::AnalogVbat, rep.vbat as int)
    &&& record_matches(rep.records[2], ChannelKind::AmpGain128, rep.value as int)
    &&& record_matches(rep.records[3], ChannelKind::AmpGain32, rep.chb as int)
}

/// The channel read at position `j`.
pub fn channel_at_position(j: usize) -> (k: ChannelKind)
    ensures
        k == channel_at(j as int),
{
    let m: usize = j % 4;
    if m == 0 {
        ChannelKind::AnalogVcc
    } else if m == 1 {
        ChannelKind::AnalogVbat
    } else if m == 2 {
        ChannelKind::AmpGain128
    } else {
        ChannelKind::AmpGain32
    }
}

/// The read order of one cycle with N iterations: 4·N reads, position
/// `j` reading `channel_at(j)`.
pub fn read_plan(n: u32) -> (plan: Vec<ChannelKind>)
    requires
        1 <= n,
        4 * n <= usize::MAX,
    ensures
        plan@.len() == 4 * n,
        forall|j: int| 0 <= j < plan@.len() ==> plan@[j] == channel_at(j),
{
    let total: usize = 4 * (n as usize);
    let mut plan: Vec<ChannelKind> = Vec::new();
    let mut j: usize = 0;
    while j < total
        invariant
            j <= total,
            total == 4 * n,
            plan@.len() == j,
            forall|k: int| 0 <= k < j ==> plan@[k] == channel_at(k),
        decreases total - j,
    {
        plan.push(channel_at_position(j));
        j = j + 1;
    }
    plan
}

/// Run the computation of one cycle over the reads the hardware
/// returned, in plan order.
///
/// The cycle completes if and only if every read succeeded: then each
/// channel's N samples are reduced to its reading and the four publish
/// records are built. The first failed read aborts the cycle with an
/// acquisition error naming its channel, and the cycle yields no
/// reading and no record.
///
/// The caller supplies the reads it performed: all 4·N when none
/// failed, and at least every read up to and including the first
/// failure otherwise.
pub fn run_cycle(n: u32, reads: &Vec<ReadOutcome>) -> (r: Result<CycleReport, AcquisitionFailed>)
    requires
        1 <= n,
        4 * n <= usize::MAX,
        reads@.len() <= 4 * n,
        no_failure_before(reads@, reads@.len() as int) ==> reads@.len() == 4 * n,
    ensures
        match r {
            Ok(rep) => {
                &&& no_failure_before(reads@, reads@.len() as int)
                &&& reads@.len() == 4 * n
                &&& report_matches(rep, reads@)
            },
            Err(e) => exists|j: int|
                0 <= j < reads@.len() && reads@[j] is Failed && no_failure_before(reads@, j)
                    && e.channel == channel_at(j),
        },
{
    let mut vcc: Vec<i32> = Vec::new();
    let mut vbat: Vec<i32> = Vec::new();
    let mut amp_a: Vec<i32> = Vec::new();
    let mut amp_b: Vec<i32> = Vec::new();
    let len: usize = reads.len();
    let mut j: usize = 0;
    while j < len
        invariant
            j <= len,
            len == reads@.len(),
            no_failure_before(reads@, j as int),
            vcc@ == channel_samples(reads@.take(j as int), 0),
            vbat@ == channel_samples(reads@.take(j as int), 1),
            amp_a@ == channel_samples(reads@.take(j as int), 2),
            amp_b@ == channel_samples(reads@.take(j as int), 3),
            vcc@.len() == (j + 3) / 4,
            vbat@.len() == (j + 2) / 4,
            amp_a@.len() == (j + 1) / 4,
            amp_b@.len() == j / 4,
        decreases len - j,
    {
        proof {
            assert(reads@.take(j as int + 1).drop_last() =~= reads@.take(j as int));
        }
        match reads[j] {
            ReadOutcome::Got(x) => {
                let m: usize = j % 4;
                if m == 0 {
                    vcc.push(x);
                } else if m == 1 {
                    vbat.push(x);
                } else if m == 2 {
                    amp_a.push(x);
                } else {
                    amp_b.push(x);
                }
            },
            ReadOutcome::Failed => {
                return Err(AcquisitionFailed { channel: channel_at_position(j) });
            },
        }
        j = j + 1;
    }
    proof {
        assert(reads@.take(len as int) =~= reads@);
    }
    let r_vcc: i64 = reduce(&vcc, 2);
    let r_vbat: i64 = reduce(&vbat, 2);
    let r_value: i64 = reduce(&amp_a, 1);
    let r_chb: i64 = reduce(&amp_b, 1);
    let mut records: Vec<PublishRecord> = Vec::new();
    records.push(make_record(ChannelKind::AnalogVcc, r_vcc));
    records.push(make_record(ChannelKind::AnalogVbat, r_vbat));
    records.push(make_record(ChannelKind::AmpGain128, r_value));
    records.push(make_record(ChannelKind::AmpGain32, r_chb));
    Ok(CycleReport { vcc: r_vcc, vbat: r_vbat, value: r_value, chb: r_chb, records })
}

/// A cycle with a single iteration degenerates to scale-and-passthrough:
/// each channel's reading is its one raw sample times the channel's
/// scale factor, so a completed `run_cycle` with N = 1 over the reads
/// `x0, x1, x2, x3` reports exactly `2·x0, 2·x1, x2, x3`.
pub proof fn lemma_single_sample_cycle(reads: Seq<ReadOutcome>, x0: i32, x1: i32, x2: i32, x3: i32)
    requires
        reads =~= seq![
            ReadOutcome::Got(x0),
            ReadOutcome::Got(x1),
            ReadOutcome::Got(x2),
            ReadOutcome::Got(x3),
        ],
    ensures
        reduce_spec(channel_samples(reads, 0), scale_of(ChannelKind::AnalogVcc)) == 2 * x0,
        reduce_spec(channel_samples(reads, 1), scale_of(ChannelKind::AnalogVbat)) == 2 * x1,
        reduce_spec(channel_samples(reads, 2), scale_of(ChannelKind::AmpGain128)) == x2,
        reduce_spec(channel_samples(reads, 3), scale_of(ChannelKind::AmpGain32)) == x3,
{
    let s3 = seq![ReadOutcome::Got(x0), ReadOutcome::Got(x1), ReadOutcome::Got(x2)];
    let s2 = seq![ReadOutcome::Got(x0), ReadOutcome::Got(x1)];
    let s1 = seq![ReadOutcome::Got(x0)];
    let s0 = Seq::<ReadOutcome>::empty();
    assert(reads.drop_last() =~= s3);
    assert(s3.drop_last() =~= s2);
    assert(s2.drop_last() =~= s1);
    assert(s1.drop_last() =~= s0);
    assert(channel_samples(s0, 0) == Seq::<i32>::empty());
    assert(channel_samples(s0, 1) == Seq::<i32>::empty());
    assert(channel_samples(s0, 2) == Seq::<i32>::empty());
    assert(channel_samples(s0, 3) == Seq::<i32>::empty());
    assert(s1.len() == 1 && s1.last() == ReadOutcome::Got(x0));
    assert(channel_samples(s1, 0) =~= channel_samples(s0, 0).push(x0));
    assert(channel_samples(s1, 0) =~= seq![x0]);
    assert(channel_samples(s2, 0) =~= seq![x0]);
    assert(channel_samples(s3, 0) =~= seq![x0]);
    assert(channel_samples(reads, 0) =~= seq![x0]);
    assert(channel_samples(s1, 1) =~= Seq::<i32>::empty());
    assert(channel_samples(s2, 1) =~= seq![x1]);
    assert(channel_samples(s3, 1) =~= seq![x1]);
    assert(channel_samples(reads, 1) =~= seq![x1]);
    assert(channel_samples(s1, 2) =~= Seq::<i32>::empty());
    assert(channel_samples(s2, 2) =~= Seq::<i32>::empty());
    assert(channel_samples(s3, 2) =~= seq![x2]);
    assert(channel_samples(reads, 2) =~= seq![x2]);
    assert(channel_samples(s1, 3) =~= Seq::<i32>::empty());
    assert(channel_samples(s2, 3) =~= Seq::<i32>::empty());
    assert(channel_samples(s3, 3) =~= Seq::<i32>::empty());
    assert(channel_samples(reads, 3) =~= seq![x3]);
    crate::aggregator::lemma_reduce_single(x0, 2);
    crate::aggregator::lemma_reduce_single(x1, 2);
    crate::aggregator::lemma_reduce_single(x2, 1);
    crate::aggregator::lemma_reduce_single(x3, 1);
}

/// What the run does after a cycle resolved.
#[derive(Clone, Copy, Debug, PartialEq, Eq, Structural)]
pub enum RunDirective {
    /// Sleep the inter-cycle delay and run the next cycle.
    NextCycle,
    /// Stop the loop; the supervisor falls back to an inert idle loop.
    Halt,
}

/// Policy after a cycle: an acquisition failure is fatal — the loop
/// terminates rather than continuing with partial data — while a
/// completed cycle is followed by the next. (Publish failures are
/// resolved within the cycle and never reach this decision.)
pub fn after_cycle(outcome: &Result<CycleReport, AcquisitionFailed>) -> (d: RunDirective)
    ensures
        d == RunDirective::Halt <==> outcome is Err,
        d == RunDirective::NextCycle <==> outcome is Ok,
{
    match outcome {
        Ok(_) => RunDirective::NextCycle,
        Err(_) => RunDirective::Halt,
    }
}

} // verus!
