//! One instant of two-channel audio.
//!
//! Samples are signed fixed-point values; mixing adds channel-wise with
//! wrap-around, which keeps the combination an exact commutative monoid:
//! [`Frame::zero`] is the identity, and mixing is associative and
//! commutative, so any number of stems can be mixed in any order.

use vstd::prelude::*;

verus! {

/// A single multi-channel sample: one value per audio channel.
#[derive(Clone, Copy, Debug, PartialEq, Eq, Structural)]
pub struct Frame {
    pub left: i64,
    pub right: i64,
}

/// Channel-wise combination of two samples: addition modulo 2^64,
/// kept in the signed 64-bit range.
pub open spec fn mix_sample(a: i64, b: i64) -> i64 {
    vstd::wrapping::i64_specs::wrapping_add(a, b)
}

impl Frame {
    /// Silence: the additive identity for mixing.
    pub open spec fn spec_zero() -> Frame {
        Frame { left: 0, right: 0 }
    }

    /// What [`Frame::mix`] returns.
    pub open spec fn spec_mix(self, other: Frame) -> Frame {
        Frame { left: mix_sample(self.left, other.left), right: mix_sample(self.right, other.right) }
    }

    /// The silent frame.
    pub fn zero() -> (f: Frame)
        ensures
            f == Frame::spec_zero(),
    {
        Frame { left: 0, right: 0 }
    }

    /// Combines two frames channel-wise.
    pub fn mix(self, other: Frame) -> (r: Frame)
        ensures
            r == self.spec_mix(other),
    {
        Frame { left: self.left.wrapping_add(other.left), right: self.right.wrapping_add(other.right) }
    }
}

/// The mix of a whole group of stems, folded left-to-right from silence.
pub open spec fn mix_all(stems: Seq<Frame>) -> Frame
    decreases stems.len(),
{
    if stems.len() == 0 {
        Frame::spec_zero()
    } else {
        mix_all(stems.drop_last()).spec_mix(stems.last())
    }
}

/// Mixing zero stems yields silence, not an error.
pub proof fn lemma_mix_all_empty()
    ensures
        mix_all(Seq::<Frame>::empty()) == Frame::spec_zero(),
{
}

/// Mixes a group of stems into one frame.
pub fn mix_group(stems: &Vec<Frame>) -> (mixed: Frame)
    ensures
        mixed == mix_all(stems@),
{
    let mut mixed = Frame::zero();
    let mut i: usize = 0;
    while i < stems.len()
        invariant
            i <= stems@.len(),
            mixed == mix_all(stems@.take(i as int)),
        decreases stems@.len() - i,
    {
        mixed = mixed.mix(stems[i]);
        i += 1;
        proof {
            assert(stems@.take(i as int).drop_last() =~= stems@.take(i - 1));
            assert(stems@.take(i as int).last() == stems@[i - 1]);
        }
    }
    proof {
        assert(stems@.take(stems@.len() as int) =~= stems@);
    }
    mixed
}

/// Mixing silence with any frame, on either side, leaves it unchanged.
pub proof fn lemma_mix_zero(f: Frame)
    ensures
        Frame::spec_zero().spec_mix(f) == f,
        f.spec_mix(Frame::spec_zero()) == f,
{
}

/// Mixing is commutative: the order of two stems does not matter.
pub proof fn lemma_mix_comm(a: Frame, b: Frame)
    ensures
        a.spec_mix(b) == b.spec_mix(a),
{
}

/// Mixing is associative: grouping of stems does not matter.
pub proof fn lemma_mix_assoc(a: Frame, b: Frame, c: Frame)
    ensures
        a.spec_mix(b).spec_mix(c) == a.spec_mix(b.spec_mix(c)),
{
}

} // verus!
