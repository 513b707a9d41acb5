//! The subscriber session: deliver a topic's frames to a connection.

use crate::client::{ProbeOutcome, SessionError, SessionStep, WriteOutcome};
use crate::topic::{RecvPoll, Topic};
use vstd::prelude::*;

verus! {

/// How long a subscriber session waits for the next frame before it
/// probes its connection for liveness, in milliseconds.
pub const RECV_WAIT_MILLIS: u64 = 1000;

/// The liveness probe's own window, in milliseconds.
pub const PROBE_WAIT_MILLIS: u64 = 200;

/// What a subscriber session does after polling its cursor once.
pub enum SubscriberPoll {
    /// The next pending frame; write it, verbatim, to the connection.
    Deliver(Vec<u8>),
    /// Terminate with the given error: the cursor fell behind the
    /// retained window and frames were dropped for this subscriber.
    Failed(SessionError),
    /// Nothing is pending; wait, then probe the connection for
    /// liveness.
    Idle,
}

/// A subscriber client: owns one read cursor into a topic's fan-out
/// channel and writes every received frame to its connection.
pub struct Subscriber {
    /// Name of the topic the subscriber reads from.
    pub topic: String,
    /// The topic's identifier in the broker's registry.
    pub topic_id: usize,
    /// This subscriber's cursor identifier within the topic.
    pub sub_id: usize,
}

impl Subscriber {
    /// A subscriber handle for the given registered topic and cursor.
    pub fn new(topic: String, topic_id: usize, sub_id: usize) -> (s: Subscriber)
        ensures
            s.topic == topic,
            s.topic_id == topic_id,
            s.sub_id == sub_id,
    {
        Subscriber { topic, topic_id, sub_id }
    }

    /// Poll this subscriber's cursor once.
    ///
    /// Delivers the next pending frame in publish order, reports `Idle`
    /// when the cursor has read everything published so far, and turns
    /// a lag condition into a fatal channel failure: a subscriber that
    /// lost frames is dropped rather than silently skipping ahead.
    pub fn poll(&self, topic: &mut Topic) -> (r: SubscriberPoll)
        requires
            old(topic).wf(),
            self.sub_id < old(topic)@.subs.len(),
        ensures
            final(topic).wf(),
            final(topic)@.name == old(topic)@.name,
            final(topic)@.history == old(topic)@.history,
            final(topic)@.subs.len() == old(topic)@.subs.len(),
            forall|k: int|
                0 <= k < old(topic)@.subs.len() && k != self.sub_id ==> final(topic)@.subs[k]
                    == old(topic)@.subs[k],
            final(topic)@.subs[self.sub_id as int].active == old(topic)@.subs[self.sub_id as int].active,
            ({
                let v = old(topic)@;
                let p = v.subs[self.sub_id as int].pos;
                if p < crate::topic::spec_base(v.history.len() as int) {
                    &&& r == SubscriberPoll::Failed(SessionError::ChannelUnavailable)
                    &&& final(topic)@.subs[self.sub_id as int].pos == crate::topic::spec_base(
                        v.history.len() as int,
                    )
                } else if p == v.history.len() {
                    r == SubscriberPoll::Idle && final(topic)@ == v
                } else {
                    &&& (r matches SubscriberPoll::Deliver(m) && m@ == v.history[p])
                    &&& final(topic)@.subs[self.sub_id as int].pos == p + 1
                }
            }),
    {
        match topic.recv(self.sub_id) {
            RecvPoll::Message(m) => SubscriberPoll::Deliver(m),
            RecvPoll::Lagged => SubscriberPoll::Failed(SessionError::ChannelUnavailable),
            RecvPoll::Empty => SubscriberPoll::Idle,
        }
    }

    /// Detach this subscriber's cursor from the topic when its
    /// connection ends; the topic and every other cursor are
    /// unaffected.
    pub fn finish(&self, topic: &mut Topic)
        requires
            old(topic).wf(),
            self.sub_id < old(topic)@.subs.len(),
        ensures
            final(topic).wf(),
            final(topic)@ == old(topic)@.spec_unsubscribe(self.sub_id as int),
    {
        topic.unsubscribe(self.sub_id);
    }

    /// React to the outcome of writing one frame to the connection: a
    /// write failure that means a peer-initiated close ends the session
    /// normally, any other failure is propagated.
    pub fn after_write(outcome: WriteOutcome) -> (r: SessionStep)
        ensures
            match outcome {
                WriteOutcome::Wrote => r == SessionStep::Continue,
                WriteOutcome::Aborted => r == SessionStep::Done,
                WriteOutcome::Failed => r == SessionStep::Failed(SessionError::Transport),
            },
    {
        match outcome {
            WriteOutcome::Wrote => SessionStep::Continue,
            WriteOutcome::Aborted => SessionStep::Done,
            WriteOutcome::Failed => SessionStep::Failed(SessionError::Transport),
        }
    }

    /// React to the outcome of a liveness probe made after a quiet
    /// wait: only an explicit zero-length signal means the peer is
    /// gone; pending bytes, a timed-out probe or an inconclusive probe
    /// error all mean the subscriber is still alive.
    pub fn after_probe(outcome: ProbeOutcome) -> (r: SessionStep)
        ensures
            r == SessionStep::Done <==> outcome matches ProbeOutcome::Closed,
            r == SessionStep::Done || r == SessionStep::Continue,
    {
        match outcome {
            ProbeOutcome::Closed => SessionStep::Done,
            ProbeOutcome::Pending => SessionStep::Continue,
            ProbeOutcome::TimedOut => SessionStep::Continue,
            ProbeOutcome::Failed => SessionStep::Continue,
        }
    }
}

} // verus!
