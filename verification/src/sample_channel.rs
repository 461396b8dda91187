//! The bounded queue between the sample producer and the shell.

use embassy_sync::blocking_mutex::raw::NoopRawMutex;
use embassy_sync::channel::Channel;
use vstd::prelude::*;

verus! {

/// Holder of an `embassy_sync::channel::Channel` of ten `u16` messages.
/// The channel is reached only through the functions below, each with
/// exclusive access to it.
#[verifier::external_body]
pub struct SampleQueue {
    channel: Channel<NoopRawMutex, u16, 10>,
}

/// The samples that wait in a channel, oldest first.
pub uninterp spec fn queued(q: SampleQueue) -> Seq<u16>;

/// Number of samples that the queue holds at most.
pub const SAMPLE_CAPACITY: usize = 10;

/// `Channel::new`: the new channel holds nothing.
#[verifier::external_body]
fn channel_new() -> (ch: SampleQueue)
    ensures
        queued(ch) == Seq::<u16>::empty(),
{
    SampleQueue { channel: Channel::new() }
}

/// `Channel::try_send`: puts `sample` behind what waits when fewer than
/// ten samples wait, and otherwise changes nothing and reports that the
/// sample was not taken.
#[verifier::external_body]
fn channel_try_send(ch: &mut SampleQueue, sample: u16) -> (sent: bool)
    ensures
        sent == (queued(*old(ch)).len() < 10),
        sent ==> queued(*final(ch)) == queued(*old(ch)).push(sample),
        !sent ==> queued(*final(ch)) == queued(*old(ch)),
    no_unwind
{
    ch.channel.try_send(sample).is_ok()
}

/// `Channel::try_receive`: takes the oldest waiting sample out, or gives
/// `None` and changes nothing when none waits.
#[verifier::external_body]
fn channel_try_receive(ch: &mut SampleQueue) -> (sample: Option<u16>)
    ensures
        queued(*old(ch)).len() == 0 ==> sample.is_none() && queued(*final(ch)) == queued(*old(ch)),
        queued(*old(ch)).len() > 0 ==> sample == Some(queued(*old(ch)).first()) && queued(
            *final(ch),
        ) == queued(*old(ch)).drop_first(),
    no_unwind
{
    ch.channel.try_receive().ok()
}

/// `Channel::len`: the number of samples that wait.
#[verifier::external_body]
fn channel_len(ch: &SampleQueue) -> (n: usize)
    ensures
        n == queued(*ch).len(),
{
    ch.channel.len()
}

/// The queue after `sample` was published to a queue holding `q`: the
/// sample joins the back while there is room and is dropped otherwise.
pub open spec fn after_publish(q: Seq<u16>, sample: u16) -> Seq<u16> {
    if q.len() < SAMPLE_CAPACITY {
        q.push(sample)
    } else {
        q
    }
}

/// The queue after the samples of `samples` were published in order.
pub open spec fn after_publishes(q: Seq<u16>, samples: Seq<u16>) -> Seq<u16>
    decreases samples.len(),
{
    if samples.len() == 0 {
        q
    } else {
        after_publish(after_publishes(q, samples.drop_last()), samples.last())
    }
}

/// Bounded first-in first-out queue of samples, with one owner.
pub struct SampleChannel {
    inner: SampleQueue,
}

impl View for SampleChannel {
    type V = Seq<u16>;

    closed spec fn view(&self) -> Seq<u16> {
        queued(self.inner)
    }
}

impl SampleChannel {
    #[verifier::type_invariant]
    spec fn within_capacity(self) -> bool {
        self@.len() <= SAMPLE_CAPACITY
    }

    /// An empty queue.
    pub fn new() -> (ch: SampleChannel)
        ensures
            ch@ == Seq::<u16>::empty(),
    {
        SampleChannel { inner: channel_new() }
    }

    /// Number of samples that wait.
    pub fn len(&self) -> (n: usize)
        ensures
            n == self@.len(),
            n <= SAMPLE_CAPACITY,
    {
        proof {
            use_type_invariant(self);
        }
        channel_len(&self.inner)
    }

    /// Publishes a sample without waiting: a full queue drops it.
    pub fn publish(&mut self, sample: u16)
        ensures
            final(self)@ == after_publish(old(self)@, sample),
            final(self)@.len() <= SAMPLE_CAPACITY,
    {
        proof {
            use_type_invariant(&*self);
        }
        let _ = channel_try_send(&mut self.inner, sample);
    }

    /// Takes the oldest sample, if one waits.
    pub fn take(&mut self) -> (sample: Option<u16>)
        ensures
            old(self)@.len() == 0 ==> sample.is_none() && final(self)@ == old(self)@,
            old(self)@.len() > 0 ==> sample == Some(old(self)@.first()) && final(self)@ == old(
                self,
            )@.drop_first(),
    {
        proof {
            use_type_invariant(&*self);
        }
        channel_try_receive(&mut self.inner)
    }
}

/// Milliseconds between two samples.
pub const SAMPLE_INTERVAL_MS: u64 = 500;

/// One round of the producer on a fresh reading: publishes it, dropping
/// it if the queue is full, and returns how long to wait before the
/// next reading.
pub fn producer_step(channel: &mut SampleChannel, measured: u16) -> (wait_ms: u64)
    ensures
        final(channel)@ == after_publish(old(channel)@, measured),
        wait_ms == SAMPLE_INTERVAL_MS,
{
    channel.publish(measured);
    SAMPLE_INTERVAL_MS
}

/// Backpressure: of samples published to a queue that nobody drains,
/// those that fit behind what already waits are kept, in order, and the
/// rest are dropped.
pub proof fn lemma_publishes_keep_what_fits(q: Seq<u16>, samples: Seq<u16>)
    requires
        q.len() <= SAMPLE_CAPACITY,
    ensures
        after_publishes(q, samples) == if q.len() + samples.len() <= SAMPLE_CAPACITY {
            q + samples
        } else {
            (q + samples).take(SAMPLE_CAPACITY as int)
        },
    decreases samples.len(),
{
    if samples.len() == 0 {
        assert(q + samples =~= q);
    } else {
        let head = samples.drop_last();
        lemma_publishes_keep_what_fits(q, head);
        assert((q + head).push(samples.last()) =~= q + samples);
        if q.len() + samples.len() > SAMPLE_CAPACITY {
            if q.len() + head.len() <= SAMPLE_CAPACITY {
                assert((q + samples).take(SAMPLE_CAPACITY as int) =~= q + head);
            } else {
                assert((q + samples).take(SAMPLE_CAPACITY as int) =~= (q + head).take(
                    SAMPLE_CAPACITY as int,
                ));
            }
        }
    }
}

/// First in, first out: samples published to an empty queue that holds
/// them all come out in the order in which they went in.
pub proof fn lemma_oldest_comes_first(samples: Seq<u16>)
    requires
        0 < samples.len() <= SAMPLE_CAPACITY,
    ensures
        after_publishes(Seq::empty(), samples).first() == samples.first(),
        after_publishes(Seq::empty(), samples).drop_first() == after_publishes(
            Seq::empty(),
            samples.drop_first(),
        ),
{
    lemma_publishes_keep_what_fits(Seq::empty(), samples);
    lemma_publishes_keep_what_fits(Seq::empty(), samples.drop_first());
    assert(Seq::<u16>::empty() + samples =~= samples);
    assert(Seq::<u16>::empty() + samples.drop_first() =~= samples.drop_first());
}

} // verus!
