use telemetry_node::channel::AmpMode;
use telemetry_node::channel::ChannelKind;
use telemetry_node::channel::channel_spec;
use telemetry_node::channel::topic;
use telemetry_node::publish::PublishRun;
use telemetry_node::publish::QosLevel;
use telemetry_node::publish::make_record;
use telemetry_node::sensor::DriverOp;
use telemetry_node::sensor::ReadOutcome;
use telemetry_node::sensor::acquisition_steps;
use telemetry_node::telemetry::INTER_SAMPLE_DELAY_MS;
use telemetry_node::telemetry::RunDirective;
use telemetry_node::telemetry::after_cycle;
use telemetry_node::telemetry::read_plan;
use telemetry_node::telemetry::run_cycle;

#[test]
fn single_iteration_cycle_scales_and_passes_through() {
    // N = 1: VCC raw 1500 at scale 2 gives 3000; the amplifier readings
    // pass through; payloads are the exact decimal text.
    let reads = vec![
        ReadOutcome::Got(1500),
        ReadOutcome::Got(1200),
        ReadOutcome::Got(-403300),
        ReadOutcome::Got(77),
    ];
    let rep = match run_cycle(1, &reads) {
        Ok(rep) => rep,
        Err(_) => panic!("cycle must complete"),
    };
    assert_eq!(rep.vcc, 3000);
    assert_eq!(rep.vbat, 2400);
    assert_eq!(rep.value, -403300);
    assert_eq!(rep.chb, 77);
    assert_eq!(rep.records.len(), 4);
    assert_eq!(rep.records[0].topic, "waga1/vcc");
    assert_eq!(rep.records[0].payload, b"3000".to_vec());
    assert_eq!(rep.records[1].topic, "waga1/vbat");
    assert_eq!(rep.records[1].payload, b"2400".to_vec());
    assert_eq!(rep.records[2].topic, "waga1/value");
    assert_eq!(rep.records[2].payload, b"-403300".to_vec());
    assert_eq!(rep.records[3].topic, "waga1/chb");
    assert_eq!(rep.records[3].payload, b"77".to_vec());
    for rec in &rep.records {
        assert_eq!(rec.qos, QosLevel::AtLeastOnce);
        assert!(rec.retain);
    }
}

#[test]
fn multi_iteration_cycle_averages_each_channel() {
    // N = 3: each channel's three samples are summed, scaled, divided
    // by 3 with truncation.
    let reads = vec![
        ReadOutcome::Got(100),
        ReadOutcome::Got(10),
        ReadOutcome::Got(-5),
        ReadOutcome::Got(1),
        ReadOutcome::Got(101),
        ReadOutcome::Got(11),
        ReadOutcome::Got(-6),
        ReadOutcome::Got(2),
        ReadOutcome::Got(103),
        ReadOutcome::Got(12),
        ReadOutcome::Got(-7),
        ReadOutcome::Got(4),
    ];
    let rep = match run_cycle(3, &reads) {
        Ok(rep) => rep,
        Err(_) => panic!("cycle must complete"),
    };
    assert_eq!(rep.vcc, (100 + 101 + 103) * 2 / 3);
    assert_eq!(rep.vbat, (10 + 11 + 12) * 2 / 3);
    assert_eq!(rep.value, -6); // (-5 - 6 - 7) / 3
    assert_eq!(rep.chb, 2); // (1 + 2 + 4) / 3
}

#[test]
fn acquisition_failure_mid_cycle_aborts_without_records() {
    // The third of the four reads fails: no report, no record, and the
    // error names the channel that failed.
    let reads = vec![
        ReadOutcome::Got(1500),
        ReadOutcome::Got(1200),
        ReadOutcome::Failed,
    ];
    let err = match run_cycle(1, &reads) {
        Ok(_) => panic!("cycle must abort"),
        Err(e) => e,
    };
    assert_eq!(err.channel, ChannelKind::AmpGain128);
    // The fatal policy: the run halts rather than continuing with
    // partial data.
    assert_eq!(after_cycle(&run_cycle(1, &reads)), RunDirective::Halt);
}

#[test]
fn completed_cycle_continues_the_run() {
    let reads = vec![
        ReadOutcome::Got(1),
        ReadOutcome::Got(2),
        ReadOutcome::Got(3),
        ReadOutcome::Got(4),
    ];
    assert_eq!(after_cycle(&run_cycle(1, &reads)), RunDirective::NextCycle);
}

#[test]
fn publish_failure_does_not_stop_remaining_channels() {
    // The second record fails to enqueue: the other three are still
    // attempted, and only the failed topic is reported.
    let records = vec![
        make_record(ChannelKind::AnalogVcc, 3000),
        make_record(ChannelKind::AnalogVbat, 2400),
        make_record(ChannelKind::AmpGain128, -403300),
        make_record(ChannelKind::AmpGain32, 77),
    ];
    let mut run = PublishRun::new(records);
    let mut attempted: Vec<String> = Vec::new();
    let mut reported: Vec<String> = Vec::new();
    let mut idx: usize = 0;
    while let Some(rec) = run.current() {
        attempted.push(rec.topic.clone());
        let ok = idx != 1;
        if let Some(failure) = run.note_outcome(ok) {
            reported.push(failure.topic);
        }
        idx += 1;
    }
    assert!(run.is_done());
    assert_eq!(
        attempted,
        vec!["waga1/vcc", "waga1/vbat", "waga1/value", "waga1/chb"]
    );
    assert_eq!(reported, vec!["waga1/vbat"]);
}

#[test]
fn read_plan_interleaves_the_four_channels() {
    let plan = read_plan(2);
    assert_eq!(
        plan,
        vec![
            ChannelKind::AnalogVcc,
            ChannelKind::AnalogVbat,
            ChannelKind::AmpGain128,
            ChannelKind::AmpGain32,
            ChannelKind::AnalogVcc,
            ChannelKind::AnalogVbat,
            ChannelKind::AmpGain128,
            ChannelKind::AmpGain32,
        ]
    );
}

#[test]
fn amplifier_reads_are_two_phase() {
    let spec = channel_spec(ChannelKind::AmpGain128);
    assert_eq!(spec.scale, 1);
    assert_eq!(
        acquisition_steps(&spec),
        vec![
            DriverOp::SelectMode(AmpMode::ChAGain128),
            DriverOp::ConvertAndRead,
        ]
    );
    let spec = channel_spec(ChannelKind::AmpGain32);
    assert_eq!(
        acquisition_steps(&spec),
        vec![
            DriverOp::SelectMode(AmpMode::ChBGain32),
            DriverOp::ConvertAndRead,
        ]
    );
}

#[test]
fn analog_reads_are_single_phase_and_prescaled() {
    let spec = channel_spec(ChannelKind::AnalogVcc);
    assert_eq!(spec.scale, 2);
    assert_eq!(spec.mode_select, None);
    assert_eq!(acquisition_steps(&spec), vec![DriverOp::ConvertAndRead]);
}

#[test]
fn topics_are_fixed_per_channel() {
    assert_eq!(topic(ChannelKind::AnalogVcc), "waga1/vcc");
    assert_eq!(topic(ChannelKind::AnalogVbat), "waga1/vbat");
    assert_eq!(topic(ChannelKind::AmpGain128), "waga1/value");
    assert_eq!(topic(ChannelKind::AmpGain32), "waga1/chb");
}

#[test]
fn sampling_cadence_respects_the_amplifier() {
    assert_eq!(INTER_SAMPLE_DELAY_MS, 500);
}
