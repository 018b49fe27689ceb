//! The cadence controller: decides, each control-loop tick, how many samples
//! to synthesize, and keeps a bounded history of tick durations for display.
//!
//! With a device attached the decision is demand-driven — request exactly the
//! buffer's free capacity, so the queue is topped up to capacity with no
//! overrun and no gratuitous underfill. With no device the decision is
//! time-driven — `floor(sample_rate * delta)` — so simulated progress tracks
//! wall-clock time. The delta history is a 50-entry sliding window whose
//! smoothed average serves display only, never scheduling.

use vstd::prelude::*;

use crate::frame::{mix_all, Frame};
use crate::output::{Output, DEFAULT_SAMPLE_RATE};
use crate::rack::{frames_view, rack_after, rack_output, Rack};

verus! {

/// How many recent tick durations the sliding history retains.
pub const DELTA_WINDOW_CAPACITY: usize = 50;

/// Nanoseconds per second, the unit all deltas are measured in.
pub const NANOS_PER_SECOND: u64 = 1_000_000_000;

/// The retained history after recording one more delta: the new entry is
/// appended and, past capacity, the oldest entry is evicted.
pub open spec fn window_push(w: Seq<u64>, delta_nanos: u64) -> Seq<u64> {
    let grown = w.push(delta_nanos);
    if grown.len() > DELTA_WINDOW_CAPACITY {
        grown.drop_first()
    } else {
        grown
    }
}

/// The sum of a history's entries, in nanoseconds.
pub open spec fn sum_nanos(s: Seq<u64>) -> int
    decreases s.len(),
{
    if s.len() == 0 {
        0
    } else {
        sum_nanos(s.drop_last()) + s.last()
    }
}

/// The smoothed average of a history: the mean of all retained entries
/// (zero for an empty history).
pub open spec fn spec_average_nanos(s: Seq<u64>) -> int {
    if s.len() == 0 {
        0
    } else {
        sum_nanos(s) / (s.len() as int)
    }
}

/// The time-driven sample count: `floor(sample_rate * delta.seconds)`.
pub open spec fn spec_time_driven_amount(sample_rate: u32, delta_nanos: u64) -> int {
    (sample_rate as int) * (delta_nanos as int) / (NANOS_PER_SECOND as int)
}

/// Each mixed frame of a run: per tick, its group of stems reduced to one
/// frame by additive mixing.
pub open spec fn mixed_of(groups: Seq<Seq<Frame>>) -> Seq<Frame> {
    Seq::new(groups.len(), |i: int| mix_all(groups[i]))
}

/// The bounded sliding history of recent tick durations, and nothing else:
/// the cadence decision itself is stateless given the sink's state.
pub struct CadenceController {
    deltas: Vec<u64>,
}

impl View for CadenceController {
    type V = Seq<u64>;

    closed spec fn view(&self) -> Seq<u64> {
        self.deltas@
    }
}

impl CadenceController {
    /// The history never exceeds its fixed capacity.
    pub open spec fn wf(&self) -> bool {
        self@.len() <= DELTA_WINDOW_CAPACITY
    }

    /// A controller with an empty history.
    pub fn new() -> (c: CadenceController)
        ensures
            c.wf(),
            c@ == Seq::<u64>::empty(),
    {
        CadenceController { deltas: Vec::new() }
    }

    /// Records the elapsed time since the previous tick, evicting the oldest
    /// entry once the window is full.
    pub fn record_delta(&mut self, delta_nanos: u64)
        requires
            old(self).wf(),
        ensures
            final(self).wf(),
            final(self)@ == window_push(old(self)@, delta_nanos),
    {
        self.deltas.push(delta_nanos);
        if self.deltas.len() > DELTA_WINDOW_CAPACITY {
            self.deltas.remove(0);
            proof {
                assert(self.deltas@ =~= window_push(old(self)@, delta_nanos));
            }
        }
    }

    /// How many deltas the history currently retains.
    pub fn delta_count(&self) -> (n: usize)
        ensures
            n == self@.len(),
    {
        self.deltas.len()
    }

    /// The smoothed average tick duration over the retained history; used
    /// only for display, never for scheduling.
    pub fn average_delta_nanos(&self) -> (avg: u64)
        requires
            self.wf(),
        ensures
            avg as int == spec_average_nanos(self@),
    {
        let n = self.deltas.len();
        if n == 0 {
            return 0;
        }
        let mut acc: u128 = 0;
        let mut i: usize = 0;
        while i < n
            invariant
                i <= n,
                n == self.deltas@.len(),
                n <= DELTA_WINDOW_CAPACITY,
                acc == sum_nanos(self.deltas@.take(i as int)),
                acc <= (i as int) * (u64::MAX as int),
            decreases n - i,
        {
            let d = self.deltas[i];
            acc = acc + (d as u128);
            i += 1;
            proof {
                assert(self.deltas@.take(i as int).drop_last() =~= self.deltas@.take(i - 1));
                assert(self.deltas@.take(i as int).last() == self.deltas@[i - 1]);
            }
        }
        proof {
            assert(self.deltas@.take(n as int) =~= self.deltas@);
            vstd::arithmetic::div_mod::lemma_multiply_divide_le(
                acc as int,
                n as int,
                u64::MAX as int,
            );
            assert((n as int) * (u64::MAX as int) == (u64::MAX as int) * (n as int))
                by (nonlinear_arith);
        }
        (acc / (n as u128)) as u64
    }
}

/// The time-driven sample count for one control tick without a device:
/// `floor(sample_rate * delta.seconds)`, exact in integer arithmetic.
pub fn time_driven_amount(sample_rate: u32, delta_nanos: u64) -> (amount: usize)
    requires
        spec_time_driven_amount(sample_rate, delta_nanos) <= usize::MAX as int,
    ensures
        amount as int == spec_time_driven_amount(sample_rate, delta_nanos),
{
    proof {
        assert((sample_rate as int) * (delta_nanos as int) <= (u32::MAX as int) * (u64::MAX
            as int)) by (nonlinear_arith)
            requires
                sample_rate <= u32::MAX,
                delta_nanos <= u64::MAX,
        ;
    }
    let wide: u128 = (sample_rate as u128) * (delta_nanos as u128) / (NANOS_PER_SECOND as u128);
    wide as usize
}

/// One control-loop tick of the pipeline, after the delta has been measured:
/// decide the amount, advance the rack by exactly that many ticks, mix each
/// tick's stems into one frame, and enqueue the mixed frames when a device
/// is attached (discarding them otherwise).
///
/// With a device attached the amount is exactly its free capacity, every one
/// of the enqueues succeeds — Full is unreachable absent an external drain
/// mid-tick — and the call leaves the buffer topped up to capacity.
pub fn advance(rack: &mut Rack, output: &mut Output, delta_nanos: u64)
    requires
        old(output).wf(),
        !old(output).is_attached() ==> spec_time_driven_amount(DEFAULT_SAMPLE_RATE, delta_nanos)
            <= usize::MAX as int,
    ensures
        final(output).wf(),
        final(output).is_attached() == old(output).is_attached(),
        old(output).is_attached() ==> final(rack)@ == rack_after(
            old(rack)@,
            old(output).device().spec_sample_rate(),
            old(output).device().spec_free_len(),
        ),
        old(output).is_attached() ==> final(output).device().spec_sample_rate() == old(
            output,
        ).device().spec_sample_rate() && final(output).device().spec_capacity() == old(
            output,
        ).device().spec_capacity(),
        old(output).is_attached() ==> final(output).device().queued() == old(
            output,
        ).device().queued() + mixed_of(
            rack_output(
                old(rack)@,
                old(output).device().spec_sample_rate(),
                old(output).device().spec_free_len(),
            ),
        ),
        old(output).is_attached() ==> final(output).device().spec_free_len() == 0,
        !old(output).is_attached() ==> final(rack)@ == rack_after(
            old(rack)@,
            DEFAULT_SAMPLE_RATE,
            spec_time_driven_amount(DEFAULT_SAMPLE_RATE, delta_nanos) as nat,
        ),
        !old(output).is_attached() ==> *final(output) == *old(output),
{
    if output.has_device() {
        let sr = output.sample_rate();
        let amount = output.free_len();
        let outs = rack.process_amount(sr, amount);
        let ghost groups = rack_output(old(rack)@, sr, amount as nat);
        let mut i: usize = 0;
        while i < amount
            invariant
                i <= amount,
                outs@.len() == amount,
                frames_view(outs@) == groups,
                groups.len() == amount,
                output.wf(),
                output.is_attached(),
                output.device().spec_sample_rate() == old(output).device().spec_sample_rate(),
                output.device().spec_capacity() == old(output).device().spec_capacity(),
                amount == old(output).device().spec_free_len(),
                old(output).wf(),
                output.device().queued() == old(output).device().queued() + mixed_of(groups).take(
                    i as int,
                ),
            decreases amount - i,
        {
            let mixed = crate::frame::mix_group(&outs[i]);
            proof {
                assert(mixed == mix_all(groups[i as int]));
            }
            let res = output.push_frame(mixed);
            match res {
                Ok(()) => {},
                Err(_) => {
                    proof {
                        assert(false);
                    }
                },
            }
            i += 1;
            proof {
                assert(output.device().queued() =~= old(output).device().queued() + mixed_of(
                    groups,
                ).take(i as int));
            }
        }
        proof {
            assert(mixed_of(groups).take(amount as int) =~= mixed_of(groups));
        }
    } else {
        let sr = output.sample_rate_or_default();
        let amount = time_driven_amount(sr, delta_nanos);
        let _ = rack.process_amount(sr, amount);
    }
}

} // verus!
