use rack_core::controller::{advance, time_driven_amount, CadenceController};
use rack_core::frame::{mix_group, Frame};
use rack_core::output::{Instance, Output, PushError, DEFAULT_SAMPLE_RATE};
use rack_core::rack::Rack;

#[test]
fn zero_is_left_and_right_identity() {
    let samples = [0i64, 1, -1, 44739, i64::MAX, i64::MIN];
    for &l in &samples {
        for &r in &samples {
            let f = Frame { left: l, right: r };
            assert_eq!(Frame::zero().mix(f), f);
            assert_eq!(f.mix(Frame::zero()), f);
        }
    }
}

#[test]
fn mixing_is_associative_and_commutative() {
    let a = Frame { left: 3, right: -7 };
    let b = Frame { left: i64::MAX, right: 12 };
    let c = Frame { left: 100, right: i64::MIN };
    assert_eq!(a.mix(b).mix(c), a.mix(b.mix(c)));
    assert_eq!(a.mix(b), b.mix(a));
    assert_eq!(b.mix(c), c.mix(b));
}

#[test]
fn mixing_wraps_at_the_sample_range() {
    let hi = Frame { left: i64::MAX, right: 0 };
    let one = Frame { left: 1, right: 0 };
    assert_eq!(hi.mix(one), Frame { left: i64::MIN, right: 0 });
}

#[test]
fn mixing_zero_stems_yields_silence() {
    let stems: Vec<Frame> = Vec::new();
    assert_eq!(mix_group(&stems), Frame::zero());
}

#[test]
fn mix_group_folds_all_stems() {
    let stems = vec![
        Frame { left: 1, right: 10 },
        Frame { left: 2, right: 20 },
        Frame { left: 3, right: 30 },
    ];
    assert_eq!(mix_group(&stems), Frame { left: 6, right: 60 });
}

#[test]
fn process_zero_amount_is_a_no_op() {
    let mut rack = Rack::default();
    rack.add_module(440);
    let before = rack.module(0);
    let out = rack.process_amount(48000, 0);
    assert_eq!(out.len(), 0);
    assert_eq!(rack.module(0), before);

    // Subsequent output is identical to that of a rack never asked for zero.
    let mut untouched = Rack::default();
    untouched.add_module(440);
    let a = rack.process_amount(48000, 3);
    let b = untouched.process_amount(48000, 3);
    assert_eq!(a, b);
}

#[test]
fn split_calls_concatenate() {
    let mut split = Rack::default();
    split.add_module(440);
    split.add_module(1000);
    let mut whole = Rack::default();
    whole.add_module(440);
    whole.add_module(1000);

    let mut first = split.process_amount(48000, 3);
    let second = split.process_amount(48000, 2);
    first.extend(second);
    let all = whole.process_amount(48000, 5);

    assert_eq!(first, all);
    assert_eq!(split.module(0), whole.module(0));
    assert_eq!(split.module(1), whole.module(1));
}

#[test]
fn per_tick_output_has_one_stem_per_module() {
    let mut rack = Rack::default();
    rack.add_module(1);
    rack.add_module(440);
    let out = rack.process_amount(48000, 4);
    assert_eq!(out.len(), 4);
    for group in &out {
        assert_eq!(group.len(), 2);
    }
}

#[test]
fn oscillator_phase_and_stem_are_exact() {
    let mut rack = Rack::default();
    rack.add_module(1);
    let out = rack.process_amount(48000, 1);
    // One tick at 48 kHz advances a 1 Hz phase by floor(2^32 / 48000).
    assert_eq!(rack.module(0).phase, 89478);
    assert_eq!(out[0][0], Frame { left: -4611686018427343165, right: -4611686018427343165 });
}

#[test]
fn device_present_fills_the_buffer_exactly() {
    let mut rack = Rack::default();
    rack.add_module(1);
    let mut output = Output::new();
    output.attach(Instance::new(44100, 4));
    assert_eq!(output.free_len(), 4);

    advance(&mut rack, &mut output, 123_456);

    // Exactly free_len() samples were requested and enqueued, none failed.
    assert_eq!(output.queued_len(), 4);
    assert_eq!(output.free_len(), 0);
    assert_eq!(rack.module(0).phase, 4 * 97391);

    let expected = [97391u64, 2 * 97391, 3 * 97391, 4 * 97391];
    for phase in expected {
        let s = (phase / 2) as i64 - 0x4000_0000_0000_0000i64;
        assert_eq!(output.pop_frame(), Some(Frame { left: s, right: s }));
    }
    assert_eq!(output.pop_frame(), None);
}

#[test]
fn device_with_empty_rack_enqueues_silence() {
    let mut rack = Rack::default();
    let mut output = Output::new();
    output.attach(Instance::new(48000, 3));

    advance(&mut rack, &mut output, 1_000_000);

    assert_eq!(output.queued_len(), 3);
    for _ in 0..3 {
        assert_eq!(output.pop_frame(), Some(Frame::zero()));
    }
}

#[test]
fn push_into_full_buffer_reports_full() {
    let mut inst = Instance::new(48000, 1);
    assert_eq!(inst.push_frame(Frame::zero()), Ok(()));
    assert_eq!(inst.push_frame(Frame::zero()), Err(PushError::Full));
    assert_eq!(inst.queued_len(), 1);
}

#[test]
fn push_into_zero_capacity_buffer_reports_full() {
    let mut inst = Instance::new(48000, 0);
    assert_eq!(inst.free_len(), 0);
    assert_eq!(inst.push_frame(Frame { left: 5, right: 5 }), Err(PushError::Full));
}

#[test]
fn consumption_frees_capacity_in_fifo_order() {
    let mut inst = Instance::new(48000, 2);
    let a = Frame { left: 1, right: 1 };
    let b = Frame { left: 2, right: 2 };
    assert_eq!(inst.push_frame(a), Ok(()));
    assert_eq!(inst.push_frame(b), Ok(()));
    assert_eq!(inst.free_len(), 0);
    assert_eq!(inst.pop_frame(), Some(a));
    assert_eq!(inst.free_len(), 1);
    assert_eq!(inst.push_frame(a), Ok(()));
    assert_eq!(inst.pop_frame(), Some(b));
    assert_eq!(inst.pop_frame(), Some(a));
    assert_eq!(inst.pop_frame(), None);
}

#[test]
fn no_device_uses_the_default_rate() {
    let output = Output::new();
    assert!(!output.has_device());
    assert_eq!(output.sample_rate_or_default(), DEFAULT_SAMPLE_RATE);
    assert_eq!(DEFAULT_SAMPLE_RATE, 48000);
}

#[test]
fn attached_device_rate_is_authoritative() {
    let mut output = Output::new();
    output.attach(Instance::new(44100, 8));
    assert_eq!(output.sample_rate_or_default(), 44100);
    assert_eq!(output.sample_rate(), 44100);
    output.detach();
    assert!(!output.has_device());
    assert_eq!(output.sample_rate_or_default(), 48000);
}

#[test]
fn time_driven_amount_is_exact() {
    // 48000 samples/s for 10 ms is exactly 480 samples.
    assert_eq!(time_driven_amount(48000, 10_000_000), 480);
    assert_eq!(time_driven_amount(48000, 0), 0);
    // Floor, not rounding: 1 ms at 44100 Hz is 44.1 ticks.
    assert_eq!(time_driven_amount(44100, 1_000_000), 44);
}

#[test]
fn no_device_advances_by_wall_clock_time() {
    let mut rack = Rack::default();
    rack.add_module(1);
    let mut output = Output::new();

    advance(&mut rack, &mut output, 10_000_000);

    // 480 ticks at the 48 kHz fallback rate; frames were discarded.
    assert_eq!(rack.module(0).phase, 480 * 89478);
    assert!(!output.has_device());
}

#[test]
fn delta_window_keeps_the_most_recent_fifty() {
    let mut ctl = CadenceController::new();
    assert_eq!(ctl.delta_count(), 0);
    assert_eq!(ctl.average_delta_nanos(), 0);

    for _ in 0..50 {
        ctl.record_delta(20_000_000);
    }
    assert_eq!(ctl.delta_count(), 50);
    assert_eq!(ctl.average_delta_nanos(), 20_000_000);

    // A 51st push evicts one 20 ms entry: (49 * 20 + 0) / 50 = 19.6 ms.
    ctl.record_delta(0);
    assert_eq!(ctl.delta_count(), 50);
    assert_eq!(ctl.average_delta_nanos(), 19_600_000);
}

#[test]
fn average_truncates_toward_zero() {
    let mut ctl = CadenceController::new();
    ctl.record_delta(1);
    ctl.record_delta(2);
    // (1 + 2) / 2 = 1 in integer nanoseconds.
    assert_eq!(ctl.average_delta_nanos(), 1);
}
