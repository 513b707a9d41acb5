//! A topic: a named, bounded fan-out channel of raw message frames.
//!
//! A topic retains the most recent [`CHANNEL_BUFFER_SIZE`] frames. Every
//! subscriber owns an independent cursor into the topic's full publish
//! history; a cursor that falls further behind than the retained window
//! observes a lag condition instead of silently skipping frames.

use vstd::prelude::*;

verus! {

/// Capacity of a topic's fan-out channel: how many of the most recent
/// frames are retained for subscribers that have not yet read them.
pub const CHANNEL_BUFFER_SIZE: usize = 32;

/// Mathematical state of one subscriber cursor.
#[verifier::ext_equal]
pub struct SubView {
    /// False once the subscriber has detached from the topic.
    pub active: bool,
    /// Index into the topic's history of the next frame to read.
    pub pos: int,
}

/// Mathematical state of one topic.
#[verifier::ext_equal]
pub struct TopicView {
    pub name: Seq<char>,
    /// Every frame ever published to this topic, in publish order.
    pub history: Seq<Seq<u8>>,
    pub subs: Seq<SubView>,
}

/// Index of the oldest frame still retained when `history_len` frames
/// have been published.
pub open spec fn spec_base(history_len: int) -> int {
    if history_len <= CHANNEL_BUFFER_SIZE as int {
        0
    } else {
        history_len - CHANNEL_BUFFER_SIZE as int
    }
}

impl TopicView {
    /// Validity of the mathematical state: bounded counters and cursors
    /// that never point past the end of the history.
    pub open spec fn inv(self) -> bool {
        &&& self.history.len() <= usize::MAX
        &&& forall|i: int|
            0 <= i < self.subs.len() ==> 0 <= (#[trigger] self.subs[i]).pos <= self.history.len()
    }

    /// Whether at least one subscriber cursor is attached; a publish
    /// succeeds exactly when this holds.
    pub open spec fn has_receivers(self) -> bool {
        exists|i: int| 0 <= i < self.subs.len() && (#[trigger] self.subs[i]).active
    }

    /// The frames subscriber `i` has not yet read, in delivery order
    /// (meaningful while the cursor has not lagged out of the window).
    pub open spec fn pending(self, i: int) -> Seq<Seq<u8>> {
        self.history.skip(self.subs[i].pos)
    }

    /// Effect of publishing one frame.
    pub open spec fn spec_publish(self, message: Seq<u8>) -> TopicView {
        TopicView { history: self.history.push(message), ..self }
    }

    /// Effect of attaching a new subscriber: its cursor starts at the
    /// present end of the history.
    pub open spec fn spec_subscribe(self) -> TopicView {
        TopicView {
            subs: self.subs.push(SubView { active: true, pos: self.history.len() as int }),
            ..self
        }
    }

    /// Effect of detaching subscriber `i`.
    pub open spec fn spec_unsubscribe(self, i: int) -> TopicView {
        TopicView {
            subs: self.subs.update(i, SubView { active: false, pos: self.subs[i].pos }),
            ..self
        }
    }
}

/// Outcome of polling a subscriber cursor once.
#[derive(Debug, PartialEq, Eq)]
pub enum RecvPoll {
    /// The next frame, removed from the cursor's pending stream.
    Message(Vec<u8>),
    /// The cursor fell more than [`CHANNEL_BUFFER_SIZE`] frames behind
    /// and some frames became permanently unavailable to it.
    Lagged,
    /// The cursor has read everything published so far.
    Empty,
}

#[derive(Clone, Copy)]
struct SubEntry {
    active: bool,
    pos: usize,
}

/// A named, bounded fan-out channel.
pub struct Topic {
    name: String,
    /// The retained tail of the history: frames `base .. published`.
    buffer: Vec<Vec<u8>>,
    /// Total number of frames ever published.
    published: usize,
    subs: Vec<SubEntry>,
    /// The full publish history, kept only for specification.
    hist: Ghost<Seq<Seq<u8>>>,
}

impl View for Topic {
    type V = TopicView;

    closed spec fn view(&self) -> TopicView {
        TopicView {
            name: self.name@,
            history: self.hist@,
            subs: Seq::new(
                self.subs@.len(),
                |i: int| SubView { active: self.subs@[i].active, pos: self.subs@[i].pos as int },
            ),
        }
    }
}

impl Topic {
    /// Well-formedness: the retained buffer is exactly the tail of the
    /// history and every cursor stays within it.
    pub closed spec fn wf(self) -> bool {
        &&& self.hist@.len() == self.published
        &&& self.buffer@.len() == self.published - spec_base(self.published as int)
        &&& forall|i: int|
            0 <= i < self.buffer@.len() ==> (#[trigger] self.buffer@[i])@ == self.hist@[spec_base(
                self.published as int,
            ) + i]
        &&& forall|i: int|
            0 <= i < self.subs@.len() ==> (#[trigger] self.subs@[i]).pos <= self.published
    }

    /// A well-formed topic has a valid mathematical state.
    pub proof fn lemma_wf_inv(&self)
        requires
            self.wf(),
        ensures
            self@.inv(),
    {
    }

    /// Create a topic with the given name, an empty history and no
    /// subscribers.
    pub fn new(topic_name: String) -> (t: Topic)
        ensures
            t.wf(),
            t@ == (TopicView { name: topic_name@, history: Seq::<Seq<u8>>::empty(), subs: Seq::<SubView>::empty() }),
    {
        let t = Topic {
            name: topic_name,
            buffer: Vec::new(),
            published: 0,
            subs: Vec::new(),
            hist: Ghost(Seq::empty()),
        };
        proof {
            assert(t@.subs =~= Seq::<SubView>::empty());
            assert(t@ =~= (TopicView {
                name: t.name@,
                history: Seq::<Seq<u8>>::empty(),
                subs: Seq::<SubView>::empty(),
            }));
        }
        t
    }

    /// The topic's name.
    pub fn name(&self) -> (r: &String)
        ensures
            r@ == self@.name,
    {
        &self.name
    }

    /// Total number of frames published so far.
    pub fn history_len(&self) -> (n: usize)
        requires
            self.wf(),
        ensures
            n == self@.history.len(),
    {
        self.published
    }

    /// Whether at least one subscriber is attached, i.e. whether a
    /// publish would be accepted.
    pub fn has_receivers(&self) -> (r: bool)
        requires
            self.wf(),
        ensures
            r == self@.has_receivers(),
    {
        let mut i: usize = 0;
        while i < self.subs.len()
            invariant
                0 <= i <= self.subs@.len(),
                forall|k: int| 0 <= k < i ==> !(#[trigger] self.subs@[k]).active,
            decreases self.subs@.len() - i,
        {
            if self.subs[i].active {
                assert(self@.subs[i as int].active);
                return true;
            }
            i += 1;
        }
        assert(forall|k: int| 0 <= k < self@.subs.len() ==> !(#[trigger] self@.subs[k]).active);
        false
    }

    /// Publish one frame. If no subscriber is attached the frame is
    /// discarded and `false` is returned; otherwise the frame becomes
    /// part of the history, visible at once to every cursor, and the
    /// oldest retained frame is dropped when the window is full.
    /// A publish never waits on subscriber speed.
    pub fn publish(&mut self, message: Vec<u8>) -> (sent: bool)
        requires
            old(self).wf(),
            old(self)@.history.len() < usize::MAX,
        ensures
            final(self).wf(),
            sent == old(self)@.has_receivers(),
            sent ==> final(self)@ == old(self)@.spec_publish(message@),
            !sent ==> final(self)@ == old(self)@,
    {
        if !self.has_receivers() {
            return false;
        }
        let ghost pre = *self;
        if self.buffer.len() == CHANNEL_BUFFER_SIZE {
            self.buffer.remove(0);
        }
        self.buffer.push(message);
        self.published = self.published + 1;
        proof {
            self.hist@ = pre.hist@.push(message@);
        }
        proof {
            let b0 = spec_base(pre.published as int);
            let b1 = spec_base(self.published as int);
            assert forall|i: int| 0 <= i < self.buffer@.len() implies (#[trigger] self.buffer@[i])@
                == self.hist@[b1 + i] by {
                if i < self.buffer@.len() - 1 {
                    assert(self.buffer@[i] == pre.buffer@[i + b1 - b0]);
                }
            }
            assert(final(self)@.subs =~= pre@.subs);
            assert(final(self)@ =~= pre@.spec_publish(message@));
        }
        true
    }

    /// Attach a new subscriber and return its identifier. The new
    /// cursor starts at the present end of the history, so it observes
    /// only frames published after this call.
    pub fn subscribe(&mut self) -> (id: usize)
        requires
            old(self).wf(),
        ensures
            final(self).wf(),
            id == old(self)@.subs.len(),
            final(self)@ == old(self)@.spec_subscribe(),
    {
        let id = self.subs.len();
        self.subs.push(SubEntry { active: true, pos: self.published });
        proof {
            assert(final(self)@.subs =~= old(self)@.subs.push(
                SubView { active: true, pos: old(self)@.history.len() as int },
            ));
            assert(final(self)@ =~= old(self)@.spec_subscribe());
        }
        id
    }

    /// Detach subscriber `id`; its cursor stops counting as a receiver.
    pub fn unsubscribe(&mut self, id: usize)
        requires
            old(self).wf(),
            id < old(self)@.subs.len(),
        ensures
            final(self).wf(),
            final(self)@ == old(self)@.spec_unsubscribe(id as int),
    {
        let p = self.subs[id].pos;
        self.subs[id] = SubEntry { active: false, pos: p };
        proof {
            assert(final(self)@.subs =~= old(self)@.subs.update(
                id as int,
                SubView { active: false, pos: old(self)@.subs[id as int].pos },
            ));
            assert(final(self)@ =~= old(self)@.spec_unsubscribe(id as int));
        }
    }

    /// Poll subscriber `id` once.
    ///
    /// Returns the frame at the cursor (advancing it by one), `Empty`
    /// when the cursor has read everything published so far, or
    /// `Lagged` when the cursor fell behind the retained window; a
    /// lagged cursor is moved to the oldest retained frame.
    pub fn recv(&mut self, id: usize) -> (r: RecvPoll)
        requires
            old(self).wf(),
            id < old(self)@.subs.len(),
        ensures
            final(self).wf(),
            final(self)@.name == old(self)@.name,
            final(self)@.history == old(self)@.history,
            final(self)@.subs.len() == old(self)@.subs.len(),
            forall|k: int|
                0 <= k < old(self)@.subs.len() && k != id ==> final(self)@.subs[k] == old(
                    self,
                )@.subs[k],
            final(self)@.subs[id as int].active == old(self)@.subs[id as int].active,
            ({
                let v = old(self)@;
                let p = v.subs[id as int].pos;
                let b = spec_base(v.history.len() as int);
                if p < b {
                    r == RecvPoll::Lagged && final(self)@.subs[id as int].pos == b
                } else if p == v.history.len() {
                    r == RecvPoll::Empty && final(self)@ == v
                } else {
                    &&& (r matches RecvPoll::Message(m) && m@ == v.history[p])
                    &&& final(self)@.subs[id as int].pos == p + 1
                }
            }),
    {
        let base = if self.published <= CHANNEL_BUFFER_SIZE {
            0
        } else {
            self.published - CHANNEL_BUFFER_SIZE
        };
        let p = self.subs[id].pos;
        if p < base {
            self.subs[id] = SubEntry { active: self.subs[id].active, pos: base };
            RecvPoll::Lagged
        } else if p == self.published {
            RecvPoll::Empty
        } else {
            let message = self.buffer[p - base].clone();
            self.subs[id] = SubEntry { active: self.subs[id].active, pos: p + 1 };
            assert(message@ == old(self)@.history[p as int]);
            RecvPoll::Message(message)
        }
    }
}

} // verus!
