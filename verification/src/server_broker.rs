//! The topic registry: look up or create topics, classify handshakes
//! into clients.

use crate::client::{Client, ClientConnectionError, ReadEvent};
use crate::client_type::ClientType;
use crate::connection_message::ConnectionMessage;
use crate::handshake;
use crate::publisher::Publisher;
use crate::subscriber::Subscriber;
use crate::text::{lossy_string, lossy_utf8, str_eq};
use crate::topic::{Topic, TopicView};
use vstd::prelude::*;

verus! {

/// The frame delimiter: a frame is one or more bytes followed by this
/// byte.
pub const DELIMITER: u8 = 10;

/// The payload of a well-delimited frame: the bytes with the trailing
/// delimiter stripped, or `None` if the frame does not end in the
/// delimiter (the stream ended mid-message).
pub open spec fn delimited_line(buf: Seq<u8>) -> Option<Seq<u8>> {
    if buf.len() > 0 && buf[buf.len() - 1] == DELIMITER {
        Some(buf.take(buf.len() - 1))
    } else {
        None
    }
}

/// First topic at or after `i` whose name is `name`.
pub open spec fn find_topic_from(v: Seq<TopicView>, name: Seq<char>, i: int) -> Option<int>
    decreases v.len() - i,
{
    if i < 0 || i >= v.len() {
        None
    } else if v[i].name == name {
        Some(i)
    } else {
        find_topic_from(v, name, i + 1)
    }
}

/// Index of the topic named `name`, if one exists.
pub open spec fn spec_find_topic(v: Seq<TopicView>, name: Seq<char>) -> Option<int> {
    find_topic_from(v, name, 0)
}

/// A topic that was never published to and has no subscribers.
pub open spec fn empty_topic(name: Seq<char>) -> TopicView {
    TopicView { name, history: Seq::empty(), subs: Seq::empty() }
}

/// Effect of resolving `name` in the registry: the registry afterwards
/// and the index of the named topic, created empty if it was absent.
pub open spec fn spec_get_topic(v: Seq<TopicView>, name: Seq<char>) -> (Seq<TopicView>, int) {
    match spec_find_topic(v, name) {
        Some(i) => (v, i),
        None => (v.push(empty_topic(name)), v.len() as int),
    }
}

/// What `find_topic_from` finding (or missing) a name means pointwise.
pub proof fn lemma_find_topic_from(v: Seq<TopicView>, name: Seq<char>, i: int)
    requires
        0 <= i <= v.len(),
    ensures
        match find_topic_from(v, name, i) {
            Some(j) => {
                &&& i <= j < v.len()
                &&& v[j].name == name
                &&& forall|k: int| i <= k < j ==> (#[trigger] v[k]).name != name
            },
            None => forall|k: int| i <= k < v.len() ==> (#[trigger] v[k]).name != name,
        },
    decreases v.len() - i,
{
    if i < v.len() && v[i].name != name {
        lemma_find_topic_from(v, name, i + 1);
    }
}

/// The registry of topics: at most one topic exists per name, and a
/// topic, once created, persists.
pub struct ServerBroker {
    topics: Vec<Topic>,
}

impl View for ServerBroker {
    type V = Seq<TopicView>;

    closed spec fn view(&self) -> Seq<TopicView> {
        Seq::new(self.topics@.len(), |i: int| self.topics@[i]@)
    }
}

impl ServerBroker {
    /// Well-formedness: every topic is well-formed and no two topics
    /// share a name.
    pub closed spec fn wf(self) -> bool {
        &&& forall|i: int| 0 <= i < self.topics@.len() ==> (#[trigger] self.topics@[i]).wf()
        &&& forall|i: int, j: int|
            #![trigger self.topics@[i]@.name, self.topics@[j]@.name]
            0 <= i < j < self.topics@.len() ==> self.topics@[i]@.name != self.topics@[j]@.name
    }

    /// An empty registry.
    pub fn default() -> (b: ServerBroker)
        ensures
            b.wf(),
            b@ == Seq::<TopicView>::empty(),
    {
        let b = ServerBroker { topics: Vec::new() };
        proof {
            assert(b@ =~= Seq::<TopicView>::empty());
        }
        b
    }

    /// Number of topics in the registry.
    pub fn len(&self) -> (n: usize)
        ensures
            n == self@.len(),
    {
        self.topics.len()
    }

    /// Look the named topic up, creating it (empty, with no
    /// subscribers) if it is absent, and return its index. An existing
    /// topic is never recreated or otherwise disturbed.
    pub fn get_topic(&mut self, topic: &str) -> (idx: usize)
        requires
            old(self).wf(),
        ensures
            final(self).wf(),
            final(self)@ == spec_get_topic(old(self)@, topic@).0,
            idx as int == spec_get_topic(old(self)@, topic@).1,
            idx < final(self)@.len(),
            final(self)@[idx as int].name == topic@,
    {
        let n = self.topics.len();
        let mut i: usize = 0;
        while i < n
            invariant
                0 <= i <= n,
                n == self@.len(),
                self.wf(),
                find_topic_from(self@, topic@, 0) == find_topic_from(self@, topic@, i as int),
            decreases n - i,
        {
            if str_eq(self.topics[i].name().as_str(), topic) {
                proof {
                    lemma_find_topic_from(self@, topic@, i as int);
                }
                return i;
            }
            i += 1;
        }
        let t = Topic::new(topic.to_owned());
        self.topics.push(t);
        proof {
            lemma_find_topic_from(old(self)@, topic@, 0);
            assert(final(self)@ =~= old(self)@.push(empty_topic(topic@)));
            assert forall|a: int| 0 <= a < self.topics@.len() implies (
            #[trigger] self.topics@[a]).wf() by {
                if a < old(self).topics@.len() {
                    assert(old(self).topics@[a].wf());
                }
            }
            assert forall|a: int, b: int|
                0 <= a < b < self.topics@.len() implies self.topics@[a]@.name
                != self.topics@[b]@.name by {
                if b < old(self).topics@.len() {
                    assert(old(self).topics@[a]@.name != old(self).topics@[b]@.name);
                } else {
                    assert(old(self)@[a] == old(self).topics@[a]@);
                    assert(old(self)@[a].name != topic@);
                }
            }
        }
        n
    }

    /// A publish handle for the named topic: resolve the topic and
    /// return its index; sending is write access to that topic.
    pub fn get_sender(&mut self, topic: &str) -> (idx: usize)
        requires
            old(self).wf(),
        ensures
            final(self).wf(),
            final(self)@ == spec_get_topic(old(self)@, topic@).0,
            idx as int == spec_get_topic(old(self)@, topic@).1,
            idx < final(self)@.len(),
            final(self)@[idx as int].name == topic@,
    {
        self.get_topic(topic)
    }

    /// A subscribe handle for the named topic: resolve the topic and
    /// attach a fresh cursor to it, which observes only frames
    /// published after this call. Returns the topic's index and the
    /// cursor's identifier.
    pub fn get_receiver(&mut self, topic: &str) -> (r: (usize, usize))
        requires
            old(self).wf(),
        ensures
            final(self).wf(),
            ({
                let (v1, i) = spec_get_topic(old(self)@, topic@);
                &&& r.0 as int == i
                &&& r.1 as int == v1[i].subs.len()
                &&& final(self)@ == v1.update(i, v1[i].spec_subscribe())
                &&& (r.0 as int) < final(self)@.len()
                &&& final(self)@[i].name == topic@
            }),
    {
        let idx = self.get_topic(topic);
        let ghost v1 = self@;
        let sub_id = self.topic_mut(idx).subscribe();
        proof {
            assert(self@ =~= v1.update(idx as int, v1[idx as int].spec_subscribe()));
        }
        (idx, sub_id)
    }

    /// Mutable access to the topic at `topic_id`; the registry stays
    /// well-formed as long as the borrower leaves the topic well-formed
    /// and does not rename it.
    pub fn topic_mut(&mut self, topic_id: usize) -> (t: &mut Topic)
        requires
            old(self).wf(),
            topic_id < old(self)@.len(),
        ensures
            (*t)@ == old(self)@[topic_id as int],
            (*t).wf(),
            final(self)@.len() == old(self)@.len(),
            forall|k: int|
                0 <= k < old(self)@.len() && k != topic_id ==> final(self)@[k] == old(self)@[k],
            final(self)@[topic_id as int] == final(t)@,
            final(t).wf() && final(t)@.name == old(self)@[topic_id as int].name
                ==> final(self).wf(),
    {
        &mut self.topics[topic_id]
    }

    /// Classify the outcome of reading a connection's first frame into
    /// a client, resolving its topic on success. A failed handshake
    /// leaves every topic untouched.
    pub fn new_client(&mut self, event: ReadEvent) -> (r: Result<Client, ClientConnectionError>)
        requires
            old(self).wf(),
        ensures
            final(self).wf(),
            match event {
                ReadEvent::Closed => r matches Err(ClientConnectionError::Aborted)
                    && final(self)@ == old(self)@,
                ReadEvent::Aborted => r matches Err(ClientConnectionError::Aborted)
                    && final(self)@ == old(self)@,
                ReadEvent::Failed => r matches Err(ClientConnectionError::ReaderError)
                    && final(self)@ == old(self)@,
                ReadEvent::Data(buf) => match delimited_line(buf@) {
                    None => (r matches Err(ClientConnectionError::UnexpectedMessage(b)) && b@
                        == buf@) && final(self)@ == old(self)@,
                    Some(line) => match handshake::handshake_parse(lossy_utf8(line)) {
                        None => (r matches Err(ClientConnectionError::UnexpectedMessage(b)) && b@
                            == line) && final(self)@ == old(self)@,
                        Some((ct, topic)) => {
                            let (v1, i) = spec_get_topic(old(self)@, topic);
                            match ct {
                                ClientType::Publisher => (r matches Ok(c) && c matches
                                    Client::Publisher(p) && p.topic@ == topic && p.topic_id as int
                                    == i) && final(self)@ == v1,
                                ClientType::Subscriber => (r matches Ok(c) && c matches
                                    Client::Subscriber(s) && s.topic@ == topic && s.topic_id as int
                                    == i && s.sub_id as int == v1[i].subs.len()) && final(self)@
                                    == v1.update(i, v1[i].spec_subscribe()),
                            }
                        },
                    },
                },
            },
    {
        match event {
            ReadEvent::Closed => Err(ClientConnectionError::Aborted),
            ReadEvent::Aborted => Err(ClientConnectionError::Aborted),
            ReadEvent::Failed => Err(ClientConnectionError::ReaderError),
            ReadEvent::Data(buf) => {
                if buf.len() == 0 || buf[buf.len() - 1] != DELIMITER {
                    return Err(ClientConnectionError::UnexpectedMessage(buf));
                }
                let mut line_bytes = buf;
                let ghost whole = line_bytes@;
                line_bytes.pop();
                proof {
                    assert(line_bytes@ =~= whole.take(whole.len() - 1));
                }
                let line = lossy_string(&line_bytes);
                match ConnectionMessage::parse(line.as_str()) {
                    None => Err(ClientConnectionError::UnexpectedMessage(line_bytes)),
                    Some(message) => match message.client_type {
                        ClientType::Subscriber => {
                            let (topic_id, sub_id) = self.get_receiver(message.topic.as_str());
                            Ok(
                                Client::Subscriber(
                                    Subscriber::new(message.topic, topic_id, sub_id),
                                ),
                            )
                        },
                        ClientType::Publisher => {
                            let topic_id = self.get_sender(message.topic.as_str());
                            Ok(Client::Publisher(Publisher::new(message.topic, topic_id)))
                        },
                    },
                }
            },
        }
    }
}

} // verus!
