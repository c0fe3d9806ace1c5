//! The publisher's decision logic: each poll of the clipboard goes through
//! the change detector, and a detected change is framed under the topic and
//! handed out as the message to send. An unchanged clipboard produces no
//! message at all.

use vstd::prelude::*;

use crate::detector::{detect_spec, next_baseline, ChangeDetector};
use crate::framing::{frame, frame_spec, is_framed, lemma_round_trip, strip_spec};

verus! {

/// What one poll makes the publisher send: the framed new content when the
/// polled value differs from the detector's baseline, and nothing otherwise.
pub open spec fn publish_spec(topic: Seq<u8>, baseline: Seq<u8>, current: Seq<u8>) -> Option<
    Seq<u8>,
> {
    match detect_spec(baseline, current) {
        Some(c) => Some(frame_spec(topic, c)),
        None => None,
    }
}

/// Feeds one polled clipboard value through the detector and, on a change,
/// returns the complete message to send: the topic followed by the new
/// content, built in one piece so the transport can hand it over atomically.
pub fn publisher_step(det: &mut ChangeDetector, topic: &Vec<u8>, current: &Vec<u8>) -> (r: Option<
    Vec<u8>,
>)
    ensures
        match r {
            Some(m) => publish_spec(topic@, old(det).baseline(), current@) == Some(m@),
            None => publish_spec(topic@, old(det).baseline(), current@) is None,
        },
        final(det).baseline() == next_baseline(old(det).baseline(), current@),
{
    match det.observe(current) {
        Some(c) => Some(frame(topic, &c)),
        None => None,
    }
}

/// Every message a publisher sends is well formed: it carries the topic as
/// its prefix, strips back to exactly the polled content, and that content
/// differs from what the publisher had already published or applied.
pub proof fn lemma_published_message_well_formed(
    topic: Seq<u8>,
    baseline: Seq<u8>,
    current: Seq<u8>,
)
    ensures
        publish_spec(topic, baseline, current) matches Some(m) ==> is_framed(topic, m)
            && strip_spec(topic, m) == current && current != baseline,
{
    if publish_spec(topic, baseline, current) is Some {
        lemma_round_trip(topic, current);
    }
}

} // verus!
