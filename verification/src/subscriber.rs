//! The subscriber's decision logic: of each message received from the bus,
//! act only on those that carry the topic as their prefix, strip the topic,
//! and hand the remaining content to the clipboard. Messages under another
//! topic, and malformed messages shorter than the topic, are dropped without
//! disturbing the receive loop.

use vstd::prelude::*;

use crate::framing::{is_framed, strip, strip_spec, views_of};

verus! {

/// What a subscriber does with one received message: the content to write to
/// the clipboard when the message carries the topic, and nothing otherwise.
pub open spec fn deliver_spec(topic: Seq<u8>, msg: Seq<u8>) -> Option<Seq<u8>> {
    if is_framed(topic, msg) {
        Some(strip_spec(topic, msg))
    } else {
        None
    }
}

/// The contents a subscriber writes, in order, when the messages of `msgs`
/// arrive one after the other.
pub open spec fn deliver_all_spec(topic: Seq<u8>, msgs: Seq<Seq<u8>>) -> Seq<Seq<u8>>
    decreases msgs.len(),
{
    if msgs.len() == 0 {
        Seq::empty()
    } else {
        let rest = deliver_all_spec(topic, msgs.drop_last());
        match deliver_spec(topic, msgs.last()) {
            Some(c) => rest.push(c),
            None => rest,
        }
    }
}

/// Decides what to do with one received message: `Some` content to write to
/// the clipboard exactly when the message carries the topic as its prefix,
/// `None` — drop it — otherwise. Total on every byte sequence: a message
/// shorter than the topic is dropped, never sliced out of bounds.
pub fn handle_frame(topic: &Vec<u8>, msg: &Vec<u8>) -> (r: Option<Vec<u8>>)
    ensures
        match r {
            Some(c) => deliver_spec(topic@, msg@) == Some(c@),
            None => deliver_spec(topic@, msg@) is None,
        },
{
    strip(topic, msg)
}

/// Runs the subscriber's decision over a whole arrival sequence and returns
/// the contents written to the clipboard, in arrival order.
pub fn handle_all(topic: &Vec<u8>, msgs: &Vec<Vec<u8>>) -> (written: Vec<Vec<u8>>)
    ensures
        views_of(written@) == deliver_all_spec(topic@, views_of(msgs@)),
{
    let ghost vm = views_of(msgs@);
    let mut written: Vec<Vec<u8>> = Vec::new();
    let mut i: usize = 0;
    while i < msgs.len()
        invariant
            i <= msgs@.len(),
            vm == views_of(msgs@),
            vm.len() == msgs@.len(),
            views_of(written@) == deliver_all_spec(topic@, vm.take(i as int)),
        decreases msgs.len() - i,
    {
        let ghost prev = views_of(written@);
        proof {
            assert(vm.take(i as int + 1).drop_last() =~= vm.take(i as int));
            assert(vm.take(i as int + 1).last() == msgs@[i as int]@);
        }
        match handle_frame(topic, &msgs[i]) {
            Some(c) => {
                written.push(c);
                proof {
                    assert(views_of(written@) =~= prev.push(written@.last()@));
                }
            },
            None => {},
        }
        i += 1;
    }
    proof {
        assert(vm.take(vm.len() as int) =~= vm);
    }
    written
}

/// A message under a different topic is ignored entirely, even when it has
/// the same length as a matching one: a prefix that differs anywhere from the
/// topic delivers nothing.
pub proof fn lemma_foreign_topic_ignored(topic: Seq<u8>, msg: Seq<u8>)
    requires
        topic.len() <= msg.len(),
        msg.take(topic.len() as int) != topic,
    ensures
        deliver_spec(topic, msg) is None,
{
}

/// A malformed message shorter than the topic delivers nothing; the decision
/// is stateless, so later well-formed messages are served as if it had never
/// arrived.
pub proof fn lemma_short_frame_ignored(topic: Seq<u8>, msg: Seq<u8>)
    requires
        msg.len() < topic.len(),
    ensures
        deliver_spec(topic, msg) is None,
{
}

} // verus!
