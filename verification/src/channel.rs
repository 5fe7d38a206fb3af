//! The visualization channel: a wait-free single-producer/single-consumer
//! handoff of the latest complete frame over three preallocated slots.

use vstd::prelude::*;

use crate::frame::FRAME_CAPACITY;
use crate::frame::VisFrame;
use crate::frame::VisPoint;

verus! {

/// The channel as its contracts observe it: the consumer's frame and stamp,
/// the latest published frame and stamp, the fresh flag and the publish
/// count. A ghost value; `VisChannel::abs` projects it out, and the two
/// transition functions below say what each operation does to it.
pub struct ChannelView {
    pub front: Seq<VisPoint>,
    pub front_stamp: u64,
    pub latest: Seq<VisPoint>,
    pub latest_stamp: u64,
    pub fresh: bool,
    pub published: u64,
}

/// The contracts' invariant on the observed state: no stamp ahead of the
/// publish count, and a pending fresh frame never older than the consumer's.
pub open spec fn wf_abs(v: ChannelView) -> bool {
    &&& v.front_stamp <= v.published
    &&& v.latest_stamp <= v.published
    &&& (v.fresh ==> v.front_stamp <= v.latest_stamp)
}

/// What one publish does: the handed frame becomes the latest, bearing the
/// next stamp; the consumer's slot is untouched. Faithful to `publish` while
/// the publish count has not exhausted its counter.
pub open spec fn publish_trans(v: ChannelView, frame: Seq<VisPoint>) -> ChannelView {
    ChannelView {
        latest: frame,
        latest_stamp: (v.published + 1) as u64,
        fresh: true,
        published: (v.published + 1) as u64,
        ..v
    }
}

/// What one poll does: with a fresh frame pending, the consumer claims it and
/// the two slots change places; with none, nothing changes. The boolean is
/// the poll's report.
pub open spec fn read_trans(v: ChannelView) -> (ChannelView, bool) {
    if v.fresh {
        (
            ChannelView {
                front: v.latest,
                front_stamp: v.latest_stamp,
                latest: v.front,
                latest_stamp: v.front_stamp,
                fresh: false,
                ..v
            },
            true,
        )
    } else {
        (v, false)
    }
}

/// Three frame slots rotated between a producer and a consumer.
///
/// `back` names the producer's scratch slot, `latest` the slot holding the
/// most recently published frame, `front` the slot the consumer has claimed.
/// Publishing writes the back slot whole and then swaps it with `latest`; a
/// read claims `latest` by swapping it with `front`. The three indices always
/// name three distinct slots, so no slot is ever written and read at the same
/// instant, neither side ever waits on the other, and the consumer only ever
/// observes frames the producer finished writing in full. If the consumer
/// skips a poll between two publishes it misses the earlier frame for good:
/// the latest frame replaces it, and nothing is queued.
///
/// Each slot carries the ordinal of the publish that filled it (zero for the
/// initial empty frame), so the contracts can state that what the consumer
/// holds never goes back in time.
pub struct VisChannel {
    slot0: VisFrame,
    slot1: VisFrame,
    slot2: VisFrame,
    stamp0: u64,
    stamp1: u64,
    stamp2: u64,
    back: u8,
    latest: u8,
    front: u8,
    fresh: bool,
    published: u64,
}

impl VisChannel {
    spec fn slot_frame(self, i: int) -> Seq<VisPoint> {
        if i == 0 {
            self.slot0@
        } else if i == 1 {
            self.slot1@
        } else {
            self.slot2@
        }
    }

    spec fn slot_stamp(self, i: int) -> u64 {
        if i == 0 {
            self.stamp0
        } else if i == 1 {
            self.stamp1
        } else {
            self.stamp2
        }
    }

    /// The most recently published frame.
    pub closed spec fn latest_frame(self) -> Seq<VisPoint> {
        self.slot_frame(self.latest as int)
    }

    /// The ordinal of the publish that produced the most recent frame.
    pub closed spec fn latest_stamp(self) -> u64 {
        self.slot_stamp(self.latest as int)
    }

    /// The frame the consumer currently holds.
    pub closed spec fn front_frame(self) -> Seq<VisPoint> {
        self.slot_frame(self.front as int)
    }

    /// The ordinal of the publish that produced the consumer's current frame;
    /// zero until the consumer has claimed a published frame.
    pub closed spec fn front_stamp(self) -> u64 {
        self.slot_stamp(self.front as int)
    }

    /// Whether a frame newer than the consumer's current one is pending.
    pub closed spec fn has_fresh(self) -> bool {
        self.fresh
    }

    /// How many frames have been published so far.
    pub closed spec fn published(self) -> u64 {
        self.published
    }

    /// The channel as its contracts observe it.
    pub open spec fn abs(self) -> ChannelView {
        ChannelView {
            front: self.front_frame(),
            front_stamp: self.front_stamp(),
            latest: self.latest_frame(),
            latest_stamp: self.latest_stamp(),
            fresh: self.has_fresh(),
            published: self.published(),
        }
    }

    /// The slot discipline: three distinct slot indices, every slot within the
    /// frame capacity, no stamp ahead of the publish count, and a pending
    /// fresh frame never older than the consumer's current one.
    pub closed spec fn wf(self) -> bool {
        &&& self.back < 3
        &&& self.latest < 3
        &&& self.front < 3
        &&& self.back != self.latest
        &&& self.back != self.front
        &&& self.latest != self.front
        &&& self.stamp0 <= self.published
        &&& self.stamp1 <= self.published
        &&& self.stamp2 <= self.published
        &&& self.slot0@.len() <= FRAME_CAPACITY
        &&& self.slot1@.len() <= FRAME_CAPACITY
        &&& self.slot2@.len() <= FRAME_CAPACITY
        &&& (self.fresh ==> self.front_stamp() <= self.latest_stamp())
    }

    /// A channel starts with three empty frames, nothing published and nothing
    /// fresh.
    pub fn new() -> (c: Self)
        ensures
            c.wf(),
            !c.has_fresh(),
            c.published() == 0,
            c.front_frame() =~= Seq::<VisPoint>::empty(),
            c.front_stamp() == 0,
    {
        VisChannel {
            slot0: VisFrame::new(),
            slot1: VisFrame::new(),
            slot2: VisFrame::new(),
            stamp0: 0,
            stamp1: 0,
            stamp2: 0,
            back: 0,
            latest: 1,
            front: 2,
            fresh: false,
            published: 0,
        }
    }

    /// Producer side: stores `frame` whole into the scratch slot and marks it
    /// the latest. Completes in one slot write plus an index swap — it never
    /// waits for the consumer, never allocates a slot, and leaves the
    /// consumer's claimed slot untouched.
    pub fn publish(&mut self, frame: VisFrame)
        requires
            old(self).wf(),
            frame.wf(),
            old(self).published() < u64::MAX,
        ensures
            final(self).wf(),
            final(self).has_fresh(),
            final(self).published() == old(self).published() + 1,
            final(self).latest_frame() == frame@,
            final(self).latest_stamp() == final(self).published(),
            final(self).front_frame() == old(self).front_frame(),
            final(self).front_stamp() == old(self).front_stamp(),
            final(self).abs() == publish_trans(old(self).abs(), frame@),
    {
        self.published = self.published + 1;
        match self.back {
            0 => {
                self.slot0 = frame;
                self.stamp0 = self.published;
            },
            1 => {
                self.slot1 = frame;
                self.stamp1 = self.published;
            },
            _ => {
                self.slot2 = frame;
                self.stamp2 = self.published;
            },
        }
        let b = self.back;
        self.back = self.latest;
        self.latest = b;
        self.fresh = true;
    }

    /// Consumer side: claims the latest frame if one newer than the current
    /// one is pending, else reports "no update" at once. In either case the
    /// consumer's frame never goes back to an older publish, and the claimed
    /// frame is always one the producer finished in full.
    pub fn try_read(&mut self) -> (updated: bool)
        requires
            old(self).wf(),
        ensures
            final(self).wf(),
            updated == old(self).has_fresh(),
            !final(self).has_fresh(),
            final(self).published() == old(self).published(),
            updated ==> final(self).front_frame() == old(self).latest_frame()
                && final(self).front_stamp() == old(self).latest_stamp(),
            !updated ==> *final(self) == *old(self),
            final(self).front_stamp() >= old(self).front_stamp(),
            final(self).abs() == read_trans(old(self).abs()).0,
            updated == read_trans(old(self).abs()).1,
    {
        if self.fresh {
            let f = self.front;
            self.front = self.latest;
            self.latest = f;
            self.fresh = false;
            true
        } else {
            false
        }
    }

    /// How many frames have been published so far; the publish contract asks
    /// the producer to stop short of exhausting the counter.
    pub fn published_total(&self) -> (n: u64)
        ensures
            n == self.published(),
    {
        self.published
    }

    /// The frame the consumer currently holds: empty before the first claimed
    /// publish, afterwards the frame of the most recent claim.
    pub fn current(&self) -> (f: &VisFrame)
        requires
            self.wf(),
        ensures
            f@ == self.front_frame(),
    {
        match self.front {
            0 => &self.slot0,
            1 => &self.slot1,
            _ => &self.slot2,
        }
    }
}

/// The consumer is never ahead of the producer: the frame it holds is one of
/// the published ones (its stamp is at most the publish count), and a pending
/// fresh frame is never older than the one currently held.
pub proof fn lemma_channel_discipline(c: VisChannel)
    requires
        c.wf(),
    ensures
        c.front_stamp() <= c.published(),
        c.has_fresh() ==> c.front_stamp() <= c.latest_stamp(),
        wf_abs(c.abs()),
{
}

/// One round of the protocol: a publish followed directly by a poll always
/// reports an update and hands the consumer exactly the published frame —
/// with its exact point count — under a stamp strictly newer than whatever it
/// held before.
pub proof fn lemma_publish_then_poll_round(v: ChannelView, frame: Seq<VisPoint>)
    requires
        wf_abs(v),
        v.published < u64::MAX,
    ensures
        ({
            let (v2, updated) = read_trans(publish_trans(v, frame));
            &&& updated
            &&& v2.front == frame
            &&& v2.front_stamp == v.published + 1
            &&& v2.front_stamp > v.front_stamp
            &&& wf_abs(v2)
            &&& v2.published == v.published + 1
        }),
{
}

/// The states reached by publishing `frames` in order with a poll after every
/// publish.
pub open spec fn rounds(v: ChannelView, frames: Seq<Seq<VisPoint>>) -> ChannelView
    decreases frames.len(),
{
    if frames.len() == 0 {
        v
    } else {
        read_trans(publish_trans(rounds(v, frames.drop_last()), frames.last())).0
    }
}

/// A consumer polling after every publish observes precisely the published
/// sequence: after any run of rounds its frame is the last published one and
/// its stamp has grown by exactly the number of rounds. Applied to every
/// prefix of `frames`, the observed stamps strictly increase round over
/// round, so the consumer never sees an older frame after a newer one.
pub proof fn lemma_rounds_observe_in_order(v: ChannelView, frames: Seq<Seq<VisPoint>>)
    requires
        wf_abs(v),
        v.published + frames.len() <= u64::MAX,
    ensures
        wf_abs(rounds(v, frames)),
        rounds(v, frames).published == v.published + frames.len(),
        frames.len() > 0 ==> rounds(v, frames).front == frames.last() && rounds(
            v,
            frames,
        ).front_stamp == v.published + frames.len() && !rounds(v, frames).fresh,
    decreases frames.len(),
{
    if frames.len() > 0 {
        lemma_rounds_observe_in_order(v, frames.drop_last());
        lemma_publish_then_poll_round(rounds(v, frames.drop_last()), frames.last());
    }
}

} // verus!
