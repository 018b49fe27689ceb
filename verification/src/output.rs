//! The sink buffer: the producer side of the bounded queue toward an audio
//! device.
//!
//! An [`Output`] is in one of two states: no device, or a device with a
//! fixed sample rate and a bounded frame queue. The core only ever queries
//! the free capacity and enqueues without blocking; consumption happens on
//! the device side ([`Instance::pop_frame`]) and is never waited on here.
//! Enqueueing into a full queue is reported as the distinct [`PushError::Full`]
//! instead of dropping or blocking, so sequencing bugs surface.

use vstd::prelude::*;

use crate::frame::Frame;

verus! {

/// The fallback rate the pipeline assumes when no device is attached, so
/// headless processing stays deterministic.
pub const DEFAULT_SAMPLE_RATE: u32 = 48000;

/// The one failure of this core: a non-blocking enqueue found no free
/// capacity. The controller's accounting makes it unreachable, so seeing it
/// means a sequencing defect, not an expected condition.
#[derive(Clone, Copy, Debug, PartialEq, Eq, Structural)]
pub enum PushError {
    Full,
}

/// An attached audio device's producer-side state: its fixed operating
/// sample rate and the bounded queue of frames awaiting consumption.
pub struct Instance {
    sample_rate: u32,
    capacity: usize,
    queued: Vec<Frame>,
}

impl Instance {
    /// The device's operating rate.
    pub closed spec fn spec_sample_rate(&self) -> u32 {
        self.sample_rate
    }

    /// The total capacity of the producer/consumer queue.
    pub closed spec fn spec_capacity(&self) -> nat {
        self.capacity as nat
    }

    /// The frames enqueued and not yet consumed, oldest first.
    pub closed spec fn queued(&self) -> Seq<Frame> {
        self.queued@
    }

    /// Internal consistency: the queue never exceeds its capacity, and a
    /// device always has a positive sample rate.
    pub open spec fn wf(&self) -> bool {
        &&& self.queued().len() <= self.spec_capacity()
        &&& self.spec_sample_rate() > 0
    }

    /// Remaining producer capacity.
    pub open spec fn spec_free_len(&self) -> nat
        recommends
            self.wf(),
    {
        (self.spec_capacity() - self.queued().len()) as nat
    }

    /// A fresh device-side buffer, empty, with the given rate and capacity.
    pub fn new(sample_rate: u32, capacity: usize) -> (inst: Instance)
        requires
            sample_rate > 0,
        ensures
            inst.wf(),
            inst.spec_sample_rate() == sample_rate,
            inst.spec_capacity() == capacity,
            inst.queued() == Seq::<Frame>::empty(),
    {
        Instance { sample_rate, capacity, queued: Vec::new() }
    }

    /// The device's fixed operating rate, authoritative while attached.
    pub fn sample_rate(&self) -> (r: u32)
        ensures
            r == self.spec_sample_rate(),
    {
        self.sample_rate
    }

    /// Current producer capacity; queried fresh each tick, never blocks,
    /// may be zero.
    pub fn free_len(&self) -> (n: usize)
        requires
            self.wf(),
        ensures
            n == self.spec_free_len(),
    {
        self.capacity - self.queued.len()
    }

    /// Non-blocking enqueue: appends the frame when capacity remains, and
    /// fails with [`PushError::Full`] — leaving the queue untouched — when
    /// the capacity is zero at call time.
    pub fn push_frame(&mut self, frame: Frame) -> (r: Result<(), PushError>)
        requires
            old(self).wf(),
        ensures
            final(self).wf(),
            final(self).spec_sample_rate() == old(self).spec_sample_rate(),
            final(self).spec_capacity() == old(self).spec_capacity(),
            r is Ok <==> old(self).spec_free_len() > 0,
            r is Ok ==> final(self).queued() == old(self).queued().push(frame),
            r is Err ==> r == Result::<(), PushError>::Err(PushError::Full) && final(self).queued()
                == old(self).queued(),
    {
        if self.queued.len() < self.capacity {
            self.queued.push(frame);
            Ok(())
        } else {
            Err(PushError::Full)
        }
    }

    /// Device-side consumption of the oldest queued frame, freeing one slot.
    /// The core itself never calls this; it belongs to the consumer.
    pub fn pop_frame(&mut self) -> (r: Option<Frame>)
        requires
            old(self).wf(),
        ensures
            final(self).wf(),
            final(self).spec_sample_rate() == old(self).spec_sample_rate(),
            final(self).spec_capacity() == old(self).spec_capacity(),
            old(self).queued().len() == 0 ==> r is None && final(self).queued() == old(self).queued(),
            old(self).queued().len() > 0 ==> r == Some(old(self).queued()[0])
                && final(self).queued() == old(self).queued().drop_first(),
    {
        if self.queued.len() > 0 {
            let front = self.queued.remove(0);
            Some(front)
        } else {
            None
        }
    }

    /// How many frames sit in the queue awaiting consumption.
    pub fn queued_len(&self) -> (n: usize)
        ensures
            n == self.queued().len(),
    {
        self.queued.len()
    }
}

/// The sink: either no device, or an attached device instance. Attach and
/// detach originate outside the core; every per-tick decision keys off this
/// state at the start of the tick.
pub struct Output {
    device: Option<Instance>,
}

impl Output {
    /// Whether a device is currently attached.
    pub closed spec fn is_attached(&self) -> bool {
        self.device is Some
    }

    /// The attached device's state.
    pub closed spec fn device(&self) -> Instance
        recommends
            self.is_attached(),
    {
        self.device->0
    }

    /// Consistency: whatever device is attached is itself well formed.
    pub open spec fn wf(&self) -> bool {
        self.is_attached() ==> self.device().wf()
    }

    /// The rate the pipeline should assume: the device's own while one is
    /// attached, the fixed fallback otherwise.
    pub open spec fn spec_sample_rate_or_default(&self) -> u32 {
        if self.is_attached() {
            self.device().spec_sample_rate()
        } else {
            DEFAULT_SAMPLE_RATE
        }
    }

    /// A sink with no device attached.
    pub fn new() -> (out: Output)
        ensures
            out.wf(),
            !out.is_attached(),
    {
        Output { device: None }
    }

    /// Attaches a device, replacing whatever was attached before.
    pub fn attach(&mut self, instance: Instance)
        requires
            instance.wf(),
        ensures
            final(self).wf(),
            final(self).is_attached(),
            final(self).device() == instance,
    {
        self.device = Some(instance);
    }

    /// Detaches the device, if any; the pipeline falls back to time-driven
    /// progress.
    pub fn detach(&mut self)
        ensures
            final(self).wf(),
            !final(self).is_attached(),
    {
        self.device = None;
    }

    /// Whether a device is attached right now.
    pub fn has_device(&self) -> (b: bool)
        ensures
            b == self.is_attached(),
    {
        self.device.is_some()
    }

    /// The operating sample rate, or the fallback when no device is there.
    pub fn sample_rate_or_default(&self) -> (r: u32)
        ensures
            r == self.spec_sample_rate_or_default(),
    {
        match &self.device {
            Some(inst) => inst.sample_rate(),
            None => DEFAULT_SAMPLE_RATE,
        }
    }

    /// The attached device's current free capacity.
    pub fn free_len(&self) -> (n: usize)
        requires
            self.wf(),
            self.is_attached(),
        ensures
            n == self.device().spec_free_len(),
    {
        match &self.device {
            Some(inst) => inst.free_len(),
            None => 0,
        }
    }

    /// The attached device's operating rate.
    pub fn sample_rate(&self) -> (r: u32)
        requires
            self.is_attached(),
        ensures
            r == self.device().spec_sample_rate(),
    {
        match &self.device {
            Some(inst) => inst.sample_rate(),
            None => DEFAULT_SAMPLE_RATE,
        }
    }

    /// Non-blocking enqueue into the attached device's queue.
    pub fn push_frame(&mut self, frame: Frame) -> (r: Result<(), PushError>)
        requires
            old(self).wf(),
            old(self).is_attached(),
        ensures
            final(self).wf(),
            final(self).is_attached(),
            final(self).device().spec_sample_rate() == old(self).device().spec_sample_rate(),
            final(self).device().spec_capacity() == old(self).device().spec_capacity(),
            r is Ok <==> old(self).device().spec_free_len() > 0,
            r is Ok ==> final(self).device().queued() == old(self).device().queued().push(frame),
            r is Err ==> r == Result::<(), PushError>::Err(PushError::Full)
                && final(self).device().queued() == old(self).device().queued(),
    {
        match &mut self.device {
            Some(inst) => inst.push_frame(frame),
            None => Err(PushError::Full),
        }
    }

    /// Device-side consumption through the sink, for the external consumer.
    pub fn pop_frame(&mut self) -> (r: Option<Frame>)
        requires
            old(self).wf(),
            old(self).is_attached(),
        ensures
            final(self).wf(),
            final(self).is_attached(),
            final(self).device().spec_sample_rate() == old(self).device().spec_sample_rate(),
            final(self).device().spec_capacity() == old(self).device().spec_capacity(),
            old(self).device().queued().len() == 0 ==> r is None && final(self).device().queued()
                == old(self).device().queued(),
            old(self).device().queued().len() > 0 ==> r == Some(old(self).device().queued()[0])
                && final(self).device().queued() == old(self).device().queued().drop_first(),
    {
        match &mut self.device {
            Some(inst) => inst.pop_frame(),
            None => None,
        }
    }

    /// How many frames the attached device still has queued.
    pub fn queued_len(&self) -> (n: usize)
        requires
            self.is_attached(),
        ensures
            n == self.device().queued().len(),
    {
        match &self.device {
            Some(inst) => inst.queued_len(),
            None => 0,
        }
    }
}

} // verus!
