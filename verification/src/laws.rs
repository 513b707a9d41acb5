//! Properties of the fan-out channel and the registry, stated and
//! proved once for all inputs.

use crate::server_broker::{empty_topic, find_topic_from, spec_find_topic, spec_get_topic};
use crate::topic::TopicView;
use vstd::prelude::*;

verus! {

/// Fan-out: publishing one frame appends it, exactly once, to the
/// pending stream of every subscriber attached at publish time, and
/// moves no cursor. Since a cursor's reads deliver its pending stream
/// front first, every such subscriber observes every published frame
/// exactly once, in publish order.
pub proof fn lemma_fanout(v: TopicView, m: Seq<u8>, i: int)
    requires
        v.inv(),
        0 <= i < v.subs.len(),
    ensures
        v.spec_publish(m).pending(i) == v.pending(i).push(m),
        v.spec_publish(m).subs == v.subs,
{
    assert(v.spec_publish(m).pending(i) =~= v.pending(i).push(m));
}

/// Topic isolation: publishing to one topic leaves every other topic
/// of the registry — its history, and so every pending stream of its
/// subscribers — entirely unchanged.
pub proof fn lemma_topic_isolation(v: Seq<TopicView>, t: int, m: Seq<u8>, u: int)
    requires
        0 <= t < v.len(),
        0 <= u < v.len(),
        u != t,
    ensures
        v.update(t, v[t].spec_publish(m))[u] == v[u],
{
}

/// Per-publisher ordering: two frames published in sequence reach the
/// pending stream of every subscriber attached before both, in that
/// sequence; a subscriber that receives both receives them in publish
/// order.
pub proof fn lemma_publish_order(v: TopicView, m1: Seq<u8>, m2: Seq<u8>, i: int)
    requires
        v.inv(),
        0 <= i < v.subs.len(),
    ensures
        v.spec_publish(m1).spec_publish(m2).pending(i) == v.pending(i) + seq![m1, m2],
{
    assert(v.spec_publish(m1).spec_publish(m2).pending(i) =~= v.pending(i) + seq![m1, m2]);
}

/// Late-subscriber isolation: a cursor attached after a frame was
/// published starts with an empty pending stream, so it never receives
/// that frame.
pub proof fn lemma_late_subscriber(v: TopicView)
    requires
        v.inv(),
    ensures
        v.spec_subscribe().subs[v.subs.len() as int].pos == v.history.len(),
        v.spec_subscribe().pending(v.subs.len() as int) == Seq::<Seq<u8>>::empty(),
{
    assert(v.spec_subscribe().pending(v.subs.len() as int) =~= Seq::<Seq<u8>>::empty());
}

/// Finding a name right after pushing a topic of that name onto a
/// registry that lacked it from position `k` on.
proof fn lemma_find_after_push(v: Seq<TopicView>, name: Seq<char>, k: int)
    requires
        0 <= k <= v.len(),
        forall|j: int| k <= j < v.len() ==> (#[trigger] v[j]).name != name,
    ensures
        find_topic_from(v.push(empty_topic(name)), name, k) == Some(v.len() as int),
    decreases v.len() - k,
{
    if k < v.len() {
        lemma_find_after_push(v, name, k + 1);
    }
}

/// Idempotent topic creation: resolving the same name again — by any
/// client — yields the same single topic at the same index and leaves
/// the registry unchanged; a topic is never recreated.
pub proof fn lemma_idempotent_topic_creation(v: Seq<TopicView>, name: Seq<char>)
    ensures
        spec_get_topic(spec_get_topic(v, name).0, name) == spec_get_topic(v, name),
{
    match spec_find_topic(v, name) {
        Some(i) => {},
        None => {
            crate::server_broker::lemma_find_topic_from(v, name, 0);
            lemma_find_after_push(v, name, 0);
        },
    }
}

} // verus!
