//! The engine: configuration negotiation, the per-block effect dispatch, and
//! the two ends of the visualization channel.

use vstd::prelude::*;

use crate::channel::VisChannel;
use crate::frame::FRAME_CAPACITY;
use crate::frame::VisFrame;
use crate::frame::VisPoint;
use crate::modes::Fx;
use crate::modes::PanningMode;
use crate::params::ParameterSnapshot;

verus! {

/// Why configuration was refused.
#[derive(Clone, Copy, Debug, PartialEq, Eq, Structural)]
pub enum ConfigError {
    /// The host's declared maximum block length exceeds the visualization
    /// frame capacity; streaming must not begin.
    BlockLenExceedsCapacity,
}

/// The work of one block: exactly one kernel, together with the snapshot
/// values that kernel reads. Parameter bits pass through unchanged.
#[derive(Clone, Copy, Debug, PartialEq, Eq, Structural)]
pub enum BlockPlan {
    /// Scale channel 0 by the curve's left gain and channel 1 by its right
    /// gain, in place.
    Panning { curve: PanningMode, pan_bits: u32 },
    /// Rewrite (left, right) to (mid, side) in place, destructively.
    MidSideEncode { width_bits: u32 },
    /// Rewrite (mid, side) to (mid + side, mid - side) in place.
    MidSideDecode,
    /// Read-only analysis that produces one visualization frame.
    Goniometer,
}

/// The kernel a snapshot selects: exactly one per block, decided by the
/// snapshot's effect field alone.
pub open spec fn plan_of(snap: ParameterSnapshot) -> BlockPlan {
    match snap.effect {
        Fx::Panning => BlockPlan::Panning { curve: snap.curve, pan_bits: snap.pan_bits },
        Fx::MidSideEncode => BlockPlan::MidSideEncode { width_bits: snap.width_bits },
        Fx::MidSideDecode => BlockPlan::MidSideDecode,
        Fx::Goniometer => BlockPlan::Goniometer,
    }
}

/// The effect dispatcher plus the visualization channel, with the negotiated
/// maximum block length. Created once at initialization and alive until
/// shutdown; the mode changes only between blocks, through the snapshot.
pub struct Engine {
    chan: VisChannel,
    max_block_len: usize,
    configured: bool,
}

impl Engine {
    /// Whether a maximum block length has been negotiated and accepted.
    pub closed spec fn configured(self) -> bool {
        self.configured
    }

    /// The accepted maximum block length.
    pub closed spec fn max_block(self) -> usize {
        self.max_block_len
    }

    /// The most recently published frame.
    pub closed spec fn latest_frame(self) -> Seq<VisPoint> {
        self.chan.latest_frame()
    }

    /// The ordinal of the publish that produced the most recent frame.
    pub closed spec fn latest_stamp(self) -> u64 {
        self.chan.latest_stamp()
    }

    /// The frame the consumer currently holds.
    pub closed spec fn front_frame(self) -> Seq<VisPoint> {
        self.chan.front_frame()
    }

    /// The ordinal of the publish that produced the consumer's current frame.
    pub closed spec fn front_stamp(self) -> u64 {
        self.chan.front_stamp()
    }

    /// Whether a frame newer than the consumer's current one is pending.
    pub closed spec fn has_fresh(self) -> bool {
        self.chan.has_fresh()
    }

    /// How many frames have been published so far.
    pub closed spec fn frames_published(self) -> u64 {
        self.chan.published()
    }

    /// The channel keeps its slot discipline, and an accepted maximum block
    /// length always fits the frame capacity.
    pub closed spec fn wf(self) -> bool {
        &&& self.chan.wf()
        &&& (self.configured ==> self.max_block_len <= FRAME_CAPACITY)
    }

    /// A new engine is unconfigured: streaming must not begin before the host
    /// declares its maximum block length and that declaration is accepted.
    pub fn new() -> (e: Self)
        ensures
            e.wf(),
            !e.configured(),
            e.frames_published() == 0,
            !e.has_fresh(),
            e.front_frame() =~= Seq::<VisPoint>::empty(),
            e.front_stamp() == 0,
    {
        Engine { chan: VisChannel::new(), max_block_len: 0, configured: false }
    }

    /// Configuration negotiation: accepts the host's declared maximum block
    /// length exactly when it fits the visualization frame capacity, and
    /// refuses to start otherwise. The channel is untouched either way.
    pub fn configure(&mut self, max_block_len: usize) -> (r: Result<(), ConfigError>)
        requires
            old(self).wf(),
        ensures
            final(self).wf(),
            r is Ok <==> max_block_len <= FRAME_CAPACITY,
            r is Ok ==> final(self).configured() && final(self).max_block() == max_block_len,
            r is Err ==> !final(self).configured() && r == Err::<(), ConfigError>(
                ConfigError::BlockLenExceedsCapacity,
            ),
            final(self).frames_published() == old(self).frames_published(),
            final(self).has_fresh() == old(self).has_fresh(),
            final(self).latest_frame() == old(self).latest_frame(),
            final(self).front_frame() == old(self).front_frame(),
            final(self).front_stamp() == old(self).front_stamp(),
    {
        if max_block_len <= FRAME_CAPACITY {
            self.max_block_len = max_block_len;
            self.configured = true;
            Ok(())
        } else {
            self.configured = false;
            Err(ConfigError::BlockLenExceedsCapacity)
        }
    }

    /// The dispatch decision for one block: the snapshot is read once, exactly
    /// one kernel is selected, and no partial-block switch can occur. The
    /// block length is bounded by the negotiated maximum, so a goniometer
    /// block always fits the frame capacity.
    pub fn plan_block(&self, snap: &ParameterSnapshot, block_len: usize) -> (p: BlockPlan)
        requires
            self.wf(),
            self.configured(),
            block_len <= self.max_block(),
        ensures
            p == plan_of(*snap),
            p is Goniometer ==> block_len <= FRAME_CAPACITY,
    {
        match snap.effect {
            Fx::Panning => BlockPlan::Panning { curve: snap.curve, pan_bits: snap.pan_bits },
            Fx::MidSideEncode => BlockPlan::MidSideEncode { width_bits: snap.width_bits },
            Fx::MidSideDecode => BlockPlan::MidSideDecode,
            Fx::Goniometer => BlockPlan::Goniometer,
        }
    }

    /// The goniometer's publish step: hands one finished frame — at most the
    /// negotiated block length, so always within capacity — to the channel.
    /// The consumer's claimed slot is untouched.
    pub fn publish_frame(&mut self, frame: VisFrame)
        requires
            old(self).wf(),
            old(self).configured(),
            frame@.len() <= old(self).max_block(),
            old(self).frames_published() < u64::MAX,
        ensures
            final(self).wf(),
            final(self).configured(),
            final(self).max_block() == old(self).max_block(),
            final(self).has_fresh(),
            final(self).frames_published() == old(self).frames_published() + 1,
            final(self).latest_frame() == frame@,
            final(self).latest_stamp() == final(self).frames_published(),
            final(self).front_frame() == old(self).front_frame(),
            final(self).front_stamp() == old(self).front_stamp(),
    {
        self.chan.publish(frame);
    }

    /// The consumer's poll: claims the newest published frame if one is
    /// pending, else reports "no update" at once; it never waits for the
    /// producer, and what it holds never goes back to an older publish.
    pub fn try_read_frame(&mut self) -> (updated: bool)
        requires
            old(self).wf(),
        ensures
            final(self).wf(),
            updated == old(self).has_fresh(),
            !final(self).has_fresh(),
            final(self).configured() == old(self).configured(),
            final(self).max_block() == old(self).max_block(),
            final(self).frames_published() == old(self).frames_published(),
            updated ==> final(self).front_frame() == old(self).latest_frame()
                && final(self).front_stamp() == old(self).latest_stamp(),
            !updated ==> final(self).front_frame() == old(self).front_frame()
                && final(self).front_stamp() == old(self).front_stamp(),
            final(self).front_stamp() >= old(self).front_stamp(),
    {
        self.chan.try_read()
    }

    /// The frame the consumer currently holds: empty before the first claimed
    /// publish, afterwards the frame of the most recent claim.
    pub fn current_frame(&self) -> (f: &VisFrame)
        requires
            self.wf(),
        ensures
            f@ == self.front_frame(),
    {
        self.chan.current()
    }

    /// How many frames have been published so far; the publish contract asks
    /// the producer to stop short of exhausting the counter.
    pub fn published_total(&self) -> (n: u64)
        ensures
            n == self.frames_published(),
    {
        self.chan.published_total()
    }

    pub fn is_configured(&self) -> (b: bool)
        ensures
            b == self.configured(),
    {
        self.configured
    }

    pub fn max_block_len(&self) -> (n: usize)
        ensures
            n == self.max_block(),
    {
        self.max_block_len
    }
}

} // verus!
