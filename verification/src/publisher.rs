//! The publisher session: forward delimited frames into a topic.

use crate::client::{ReadEvent, SessionError, SessionStep};
use crate::server_broker::DELIMITER;
use crate::topic::Topic;
use vstd::prelude::*;

verus! {

/// A publisher client: reads delimited frames from its connection and
/// forwards each one, verbatim, into its topic's fan-out channel.
pub struct Publisher {
    /// Name of the topic the publisher writes to.
    pub topic: String,
    /// The topic's identifier in the broker's registry.
    pub topic_id: usize,
}

impl Publisher {
    /// A publisher handle for the given registered topic.
    pub fn new(topic: String, topic_id: usize) -> (p: Publisher)
        ensures
            p.topic == topic,
            p.topic_id == topic_id,
    {
        Publisher { topic, topic_id }
    }

    /// React to the outcome of one delimited read from the publisher's
    /// connection.
    ///
    /// A clean close ends the session normally. A well-delimited frame
    /// is appended, delimiter included and unmodified, to the topic's
    /// history — unless no subscriber at all is attached, which ends
    /// the session with a channel failure; a publish never waits on
    /// subscriber speed. A frame without its trailing delimiter (the
    /// stream ended mid-message) is a framing error.
    pub fn step(&self, topic: &mut Topic, event: ReadEvent) -> (r: SessionStep)
        requires
            old(topic).wf(),
            event matches ReadEvent::Data(buf) ==> old(topic)@.history.len() < usize::MAX,
        ensures
            final(topic).wf(),
            final(topic)@.name == old(topic)@.name,
            match event {
                ReadEvent::Closed => r == SessionStep::Done && final(topic)@ == old(topic)@,
                ReadEvent::Aborted => r == SessionStep::Done && final(topic)@ == old(topic)@,
                ReadEvent::Failed => r == SessionStep::Failed(SessionError::Transport)
                    && final(topic)@ == old(topic)@,
                ReadEvent::Data(buf) => {
                    if buf@.len() == 0 {
                        r == SessionStep::Done && final(topic)@ == old(topic)@
                    } else if buf@[buf@.len() - 1] != DELIMITER {
                        r == SessionStep::Failed(SessionError::MalformedFrame) && final(topic)@
                            == old(topic)@
                    } else if !old(topic)@.has_receivers() {
                        r == SessionStep::Failed(SessionError::ChannelUnavailable)
                            && final(topic)@ == old(topic)@
                    } else {
                        r == SessionStep::Continue
                            && final(topic)@ == old(topic)@.spec_publish(buf@)
                    }
                },
            },
    {
        match event {
            ReadEvent::Closed => SessionStep::Done,
            ReadEvent::Aborted => SessionStep::Done,
            ReadEvent::Failed => SessionStep::Failed(SessionError::Transport),
            ReadEvent::Data(buf) => {
                if buf.len() == 0 {
                    return SessionStep::Done;
                }
                if buf[buf.len() - 1] != DELIMITER {
                    return SessionStep::Failed(SessionError::MalformedFrame);
                }
                if topic.publish(buf) {
                    SessionStep::Continue
                } else {
                    SessionStep::Failed(SessionError::ChannelUnavailable)
                }
            },
        }
    }
}

} // verus!
