//! The relay's decision logic: a relay sits between publishers and
//! subscribers, filters arriving messages on the topic exactly as a
//! subscriber does, and forwards every matching message verbatim, in arrival
//! order, to the subscriber side. It never rewrites a message and never
//! forwards foreign traffic.

use vstd::prelude::*;

use crate::framing::{is_framed, is_topic_prefix, views_of};

verus! {

/// What the relay does with one arriving message: forward it unchanged when
/// it carries the topic, and drop it otherwise.
pub open spec fn forward_spec(topic: Seq<u8>, msg: Seq<u8>) -> Option<Seq<u8>> {
    if is_framed(topic, msg) {
        Some(msg)
    } else {
        None
    }
}

/// The messages the relay forwards, in order, when the messages of `msgs`
/// arrive one after the other.
pub open spec fn forward_all_spec(topic: Seq<u8>, msgs: Seq<Seq<u8>>) -> Seq<Seq<u8>>
    decreases msgs.len(),
{
    if msgs.len() == 0 {
        Seq::empty()
    } else {
        let rest = forward_all_spec(topic, msgs.drop_last());
        match forward_spec(topic, msgs.last()) {
            Some(m) => rest.push(m),
            None => rest,
        }
    }
}

/// Decides what to do with one arriving message: `Some` of the very same
/// bytes to pass to the subscriber side exactly when the message carries the
/// topic, `None` — drop it — otherwise.
pub fn relay_step(topic: &Vec<u8>, msg: &Vec<u8>) -> (r: Option<Vec<u8>>)
    ensures
        match r {
            Some(f) => forward_spec(topic@, msg@) == Some(f@),
            None => forward_spec(topic@, msg@) is None,
        },
{
    if is_topic_prefix(topic, msg) {
        Some(vstd::slice::slice_to_vec(msg.as_slice()))
    } else {
        None
    }
}

/// Runs the relay's decision over a whole arrival sequence and returns the
/// messages passed on to the subscriber side, verbatim and in arrival order.
pub fn relay_all(topic: &Vec<u8>, msgs: &Vec<Vec<u8>>) -> (out: Vec<Vec<u8>>)
    ensures
        views_of(out@) == forward_all_spec(topic@, views_of(msgs@)),
{
    let ghost vm = views_of(msgs@);
    let mut out: Vec<Vec<u8>> = Vec::new();
    let mut i: usize = 0;
    while i < msgs.len()
        invariant
            i <= msgs@.len(),
            vm == views_of(msgs@),
            vm.len() == msgs@.len(),
            views_of(out@) == forward_all_spec(topic@, vm.take(i as int)),
        decreases msgs.len() - i,
    {
        let ghost prev = views_of(out@);
        proof {
            assert(vm.take(i as int + 1).drop_last() =~= vm.take(i as int));
            assert(vm.take(i as int + 1).last() == msgs@[i as int]@);
        }
        match relay_step(topic, &msgs[i]) {
            Some(f) => {
                out.push(f);
                proof {
                    assert(views_of(out@) =~= prev.push(out@.last()@));
                }
            },
            None => {},
        }
        i += 1;
    }
    proof {
        assert(vm.take(vm.len() as int) =~= vm);
    }
    out
}

/// Order preservation: when every arriving message carries the topic — as
/// every message a publisher sends does — the relay passes the whole
/// sequence on unchanged, so messages from one publisher reach a subscriber
/// in exactly the order they were sent.
pub proof fn lemma_relay_preserves_order(topic: Seq<u8>, msgs: Seq<Seq<u8>>)
    requires
        forall|i: int| 0 <= i < msgs.len() ==> is_framed(topic, #[trigger] msgs[i]),
    ensures
        forward_all_spec(topic, msgs) == msgs,
    decreases msgs.len(),
{
    if msgs.len() == 0 {
        assert(forward_all_spec(topic, msgs) =~= msgs);
    } else {
        assert(forall|i: int|
            0 <= i < msgs.drop_last().len() ==> is_framed(topic, #[trigger] msgs.drop_last()[i]));
        lemma_relay_preserves_order(topic, msgs.drop_last());
        assert(is_framed(topic, msgs.last()));
        assert(forward_all_spec(topic, msgs) =~= msgs);
    }
}

} // verus!
