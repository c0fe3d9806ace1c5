//! End-to-end guarantees of the whole chain: what a publisher frames, a
//! relay forwards and a subscriber strips, so clipboard contents cross the
//! bus unchanged and in the order they were published.

use vstd::prelude::*;

use crate::framing::{frame_spec, is_framed, lemma_round_trip};
use crate::relay::{forward_all_spec, lemma_relay_preserves_order};
use crate::subscriber::deliver_all_spec;

verus! {

/// The messages one publisher sends for a sequence of detected contents, in
/// the order it detected them.
pub open spec fn frames_of(topic: Seq<u8>, contents: Seq<Seq<u8>>) -> Seq<Seq<u8>> {
    contents.map_values(|c: Seq<u8>| frame_spec(topic, c))
}

proof fn lemma_frames_deliver_contents(topic: Seq<u8>, contents: Seq<Seq<u8>>)
    ensures
        deliver_all_spec(topic, frames_of(topic, contents)) == contents,
    decreases contents.len(),
{
    if contents.len() == 0 {
        assert(deliver_all_spec(topic, frames_of(topic, contents)) =~= contents);
    } else {
        assert(frames_of(topic, contents).drop_last() =~= frames_of(topic, contents.drop_last()));
        lemma_frames_deliver_contents(topic, contents.drop_last());
        lemma_round_trip(topic, contents.last());
        assert(deliver_all_spec(topic, frames_of(topic, contents)) =~= contents);
    }
}

/// End-to-end delivery: the contents one publisher frames and sends, passed
/// through the relay's filter and the subscriber's stripping, come out as
/// exactly those contents, in the order they were published — nothing is
/// lost, rewritten or reordered on the way.
pub proof fn lemma_end_to_end_delivery(topic: Seq<u8>, contents: Seq<Seq<u8>>)
    ensures
        deliver_all_spec(topic, forward_all_spec(topic, frames_of(topic, contents))) == contents,
{
    let frames = frames_of(topic, contents);
    assert forall|i: int| 0 <= i < frames.len() implies is_framed(topic, #[trigger] frames[i]) by {
        lemma_round_trip(topic, contents[i]);
    }
    lemma_relay_preserves_order(topic, frames);
    lemma_frames_deliver_contents(topic, contents);
}

} // verus!
