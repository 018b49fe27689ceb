//! The processing engine: an arena of signal modules advanced by exact tick
//! counts.
//!
//! Each module is a phase-accumulator oscillator. A tick advances every
//! module's phase by an increment derived from its frequency and the caller's
//! sample rate, and the module then emits one stem (a centered sawtooth
//! sample) for that tick. [`Rack::process_amount`] runs `amount` such ticks
//! and returns the per-tick stem groups; splitting a run over several calls
//! at the same rate is transparent ([`lemma_rack_run_split`]).

use vstd::prelude::*;

use crate::frame::Frame;

verus! {

/// One cycle of oscillator phase, as a fraction of the 64-bit phase space:
/// a phase advances by `freq_hz * PHASE_UNIT / sample_rate` per tick.
pub const PHASE_UNIT: u64 = 0x1_0000_0000;

/// One signal module: a phase-accumulator oscillator with a fixed frequency
/// parameter and the accumulated phase as its whole state.
#[derive(Clone, Copy, Debug, PartialEq, Eq, Structural)]
pub struct Module {
    pub freq_hz: u32,
    pub phase: u64,
}

/// Phase advance per tick: the module's frequency scaled to the tick length
/// that `sample_rate` implies. Always fits in 64 bits.
pub open spec fn spec_tick_increment(freq_hz: u32, sample_rate: u32) -> u64
    recommends
        sample_rate > 0,
{
    (((freq_hz as int) * (PHASE_UNIT as int)) / (sample_rate as int)) as u64
}

/// The sample a module emits at a given phase: a sawtooth sweeping the
/// centered half-range as the phase wraps.
pub open spec fn spec_sample_of(phase: u64) -> i64 {
    ((phase / 2) - 0x4000_0000_0000_0000) as i64
}

/// A module after one tick at the given sample rate.
pub open spec fn spec_module_stepped(m: Module, sample_rate: u32) -> Module {
    Module {
        freq_hz: m.freq_hz,
        phase: vstd::wrapping::u64_specs::wrapping_add(m.phase, spec_tick_increment(m.freq_hz, sample_rate)),
    }
}

/// The stem a module contributes at its current state.
pub open spec fn spec_module_stem(m: Module) -> Frame {
    Frame { left: spec_sample_of(m.phase), right: spec_sample_of(m.phase) }
}

/// All modules after one tick.
pub open spec fn rack_tick(ms: Seq<Module>, sample_rate: u32) -> Seq<Module> {
    Seq::new(ms.len(), |i: int| spec_module_stepped(ms[i], sample_rate))
}

/// The stems the modules emit in their current state, one per module.
pub open spec fn tick_stems(ms: Seq<Module>) -> Seq<Frame> {
    Seq::new(ms.len(), |i: int| spec_module_stem(ms[i]))
}

/// The module states after `n` ticks at the given sample rate.
pub open spec fn rack_after(ms: Seq<Module>, sample_rate: u32, n: nat) -> Seq<Module>
    decreases n,
{
    if n == 0 {
        ms
    } else {
        rack_after(rack_tick(ms, sample_rate), sample_rate, (n - 1) as nat)
    }
}

/// The stem groups emitted over `n` ticks: element `i` is the group of stems
/// produced at tick `i`, one stem per module, emitted after that tick's
/// phase advance.
pub open spec fn rack_output(ms: Seq<Module>, sample_rate: u32, n: nat) -> Seq<Seq<Frame>>
    decreases n,
{
    if n == 0 {
        Seq::empty()
    } else {
        seq![tick_stems(rack_tick(ms, sample_rate))] + rack_output(
            rack_tick(ms, sample_rate),
            sample_rate,
            (n - 1) as nat,
        )
    }
}

/// Running zero ticks is a no-op: no state advance and no output.
pub proof fn lemma_rack_run_zero(ms: Seq<Module>, sample_rate: u32)
    ensures
        rack_after(ms, sample_rate, 0) == ms,
        rack_output(ms, sample_rate, 0) == Seq::<Seq<Frame>>::empty(),
{
}

/// Splitting a run is transparent: `n1` ticks followed by `n2` ticks reach
/// the same state as `n1 + n2` ticks, and the outputs concatenate.
pub proof fn lemma_rack_run_split(ms: Seq<Module>, sample_rate: u32, n1: nat, n2: nat)
    ensures
        rack_after(ms, sample_rate, n1 + n2) == rack_after(
            rack_after(ms, sample_rate, n1),
            sample_rate,
            n2,
        ),
        rack_output(ms, sample_rate, n1 + n2) == rack_output(ms, sample_rate, n1) + rack_output(
            rack_after(ms, sample_rate, n1),
            sample_rate,
            n2,
        ),
    decreases n1,
{
    if n1 == 0 {
        assert(rack_output(ms, sample_rate, 0) + rack_output(ms, sample_rate, n2) =~= rack_output(
            ms,
            sample_rate,
            n2,
        ));
    } else {
        let stepped = rack_tick(ms, sample_rate);
        lemma_rack_run_split(stepped, sample_rate, (n1 - 1) as nat, n2);
        assert(rack_output(ms, sample_rate, n1 + n2) =~= rack_output(ms, sample_rate, n1)
            + rack_output(rack_after(ms, sample_rate, n1), sample_rate, n2));
    }
}

/// The per-tick groups of a `Vec`-of-`Vec` result, as mathematical sequences.
pub open spec fn frames_view(out: Seq<Vec<Frame>>) -> Seq<Seq<Frame>> {
    Seq::new(out.len(), |i: int| out[i]@)
}

fn tick_increment(freq_hz: u32, sample_rate: u32) -> (inc: u64)
    requires
        sample_rate > 0,
    ensures
        inc == spec_tick_increment(freq_hz, sample_rate),
{
    proof {
        assert((freq_hz as int) * 0x1_0000_0000 <= 0xFFFF_FFFF * 0x1_0000_0000)
            by (nonlinear_arith)
            requires
                freq_hz <= 0xFFFF_FFFFu32,
        ;
    }
    let num: u128 = (freq_hz as u128) * (PHASE_UNIT as u128);
    let wide: u128 = num / (sample_rate as u128);
    proof {
        vstd::arithmetic::div_mod::lemma_div_nonincreasing(num as int, sample_rate as int);
    }
    wide as u64
}

fn stem_sample(phase: u64) -> (s: i64)
    ensures
        s == spec_sample_of(phase),
{
    let half: u64 = phase / 2;
    (half as i64) - 0x4000_0000_0000_0000i64
}

/// The module graph: the arena of module records, addressed by stable
/// indices, that the processing engine owns and advances exclusively.
pub struct Rack {
    modules: Vec<Module>,
}

impl View for Rack {
    type V = Seq<Module>;

    closed spec fn view(&self) -> Seq<Module> {
        self.modules@
    }
}

impl Default for Rack {
    /// An empty rack: no modules, so every tick emits an empty stem group.
    fn default() -> (r: Rack)
        ensures
            r@ == Seq::<Module>::empty(),
    {
        Rack { modules: Vec::new() }
    }
}

impl Rack {
    /// Appends a module at the next free index, with its phase at rest.
    pub fn add_module(&mut self, freq_hz: u32)
        ensures
            final(self)@ == old(self)@.push(Module { freq_hz, phase: 0 }),
    {
        self.modules.push(Module { freq_hz, phase: 0 });
    }

    /// How many modules the rack holds.
    pub fn module_count(&self) -> (n: usize)
        ensures
            n == self@.len(),
    {
        self.modules.len()
    }

    /// The module record at an index.
    pub fn module(&self, i: usize) -> (m: Module)
        requires
            i < self@.len(),
        ensures
            m == self@[i as int],
    {
        self.modules[i]
    }

    /// Advances every module by one tick and collects the stems they emit.
    fn tick_once(&mut self, sample_rate: u32) -> (stems: Vec<Frame>)
        requires
            sample_rate > 0,
        ensures
            final(self)@ == rack_tick(old(self)@, sample_rate),
            stems@ == tick_stems(rack_tick(old(self)@, sample_rate)),
    {
        let mut stems: Vec<Frame> = Vec::new();
        let n = self.modules.len();
        let mut i: usize = 0;
        while i < n
            invariant
                i <= n,
                n == self.modules@.len(),
                sample_rate > 0,
                self.modules@.len() == old(self).modules@.len(),
                forall|j: int| i <= j < n ==> self.modules@[j] == old(self).modules@[j],
                forall|j: int|
                    0 <= j < i ==> self.modules@[j] == spec_module_stepped(
                        old(self).modules@[j],
                        sample_rate,
                    ),
                stems@.len() == i,
                forall|j: int|
                    0 <= j < i ==> stems@[j] == spec_module_stem(
                        spec_module_stepped(old(self).modules@[j], sample_rate),
                    ),
            decreases n - i,
        {
            let m = self.modules[i];
            let inc = tick_increment(m.freq_hz, sample_rate);
            let stepped = Module { freq_hz: m.freq_hz, phase: m.phase.wrapping_add(inc) };
            self.modules[i] = stepped;
            let s = stem_sample(stepped.phase);
            stems.push(Frame { left: s, right: s });
            i += 1;
        }
        proof {
            assert(self.modules@ =~= rack_tick(old(self).modules@, sample_rate));
            assert(stems@ =~= tick_stems(rack_tick(old(self).modules@, sample_rate)));
        }
        stems
    }

    /// Advances the graph by exactly `amount` ticks at the given sample rate
    /// and returns, per tick, the group of stems produced at that tick.
    /// `amount == 0` is a no-op. The rate need not match earlier calls; it is
    /// held constant only within the ticks of this call.
    pub fn process_amount(&mut self, sample_rate: u32, amount: usize) -> (out: Vec<Vec<Frame>>)
        requires
            sample_rate > 0,
        ensures
            final(self)@ == rack_after(old(self)@, sample_rate, amount as nat),
            out@.len() == amount,
            frames_view(out@) == rack_output(old(self)@, sample_rate, amount as nat),
    {
        let mut out: Vec<Vec<Frame>> = Vec::new();
        let mut t: usize = 0;
        while t < amount
            invariant
                t <= amount,
                sample_rate > 0,
                self@ == rack_after(old(self)@, sample_rate, t as nat),
                out@.len() == t,
                frames_view(out@) == rack_output(old(self)@, sample_rate, t as nat),
            decreases amount - t,
        {
            let ghost pre = self@;
            let stems = self.tick_once(sample_rate);
            out.push(stems);
            t += 1;
            proof {
                lemma_rack_run_split(old(self)@, sample_rate, (t - 1) as nat, 1);
                reveal_with_fuel(rack_after, 2);
                reveal_with_fuel(rack_output, 2);
                assert(rack_after(pre, sample_rate, 1) == rack_tick(pre, sample_rate));
                assert(rack_output(pre, sample_rate, 1) =~= seq![
                    tick_stems(rack_tick(pre, sample_rate)),
                ]);
                assert(frames_view(out@) =~= rack_output(old(self)@, sample_rate, t as nat));
            }
        }
        out
    }
}

} // verus!
