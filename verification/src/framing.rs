//! Message framing: a message on the bus is the topic bytes followed
//! immediately by the content bytes, with no delimiter or length field.
//! Receivers strip exactly the topic length from the front; a message that
//! does not carry the topic as its prefix is not for us.

use vstd::prelude::*;

verus! {

/// A framed message: the topic followed immediately by the content.
pub open spec fn frame_spec(topic: Seq<u8>, content: Seq<u8>) -> Seq<u8> {
    topic + content
}

/// Whether `msg` carries `topic` as its byte-for-byte prefix.
pub open spec fn is_framed(topic: Seq<u8>, msg: Seq<u8>) -> bool {
    topic.len() <= msg.len() && msg.take(topic.len() as int) == topic
}

/// The content of a framed message: everything after the topic.
pub open spec fn strip_spec(topic: Seq<u8>, msg: Seq<u8>) -> Seq<u8> {
    msg.skip(topic.len() as int)
}

/// The views of a sequence of byte vectors.
pub open spec fn views_of(msgs: Seq<Vec<u8>>) -> Seq<Seq<u8>> {
    msgs.map_values(|m: Vec<u8>| m@)
}

/// Byte-for-byte equality of two byte vectors.
pub fn bytes_eq(a: &Vec<u8>, b: &Vec<u8>) -> (r: bool)
    ensures
        r == (a@ == b@),
{
    if a.len() != b.len() {
        return false;
    }
    let mut i: usize = 0;
    while i < a.len()
        invariant
            i <= a.len(),
            a@.len() == b@.len(),
            forall|j: int| 0 <= j < i ==> a@[j] == b@[j],
        decreases a.len() - i,
    {
        if a[i] != b[i] {
            return false;
        }
        i += 1;
    }
    proof {
        assert(a@ =~= b@);
    }
    true
}

/// Whether `msg` starts with `topic`, byte for byte.
pub fn is_topic_prefix(topic: &Vec<u8>, msg: &Vec<u8>) -> (r: bool)
    ensures
        r == is_framed(topic@, msg@),
{
    if msg.len() < topic.len() {
        return false;
    }
    let mut i: usize = 0;
    while i < topic.len()
        invariant
            i <= topic.len() <= msg.len(),
            forall|j: int| 0 <= j < i ==> msg@[j] == topic@[j],
        decreases topic.len() - i,
    {
        if msg[i] != topic[i] {
            proof {
                if is_framed(topic@, msg@) {
                    assert(msg@.take(topic@.len() as int)[i as int] == topic@[i as int]);
                }
            }
            return false;
        }
        i += 1;
    }
    proof {
        assert(msg@.take(topic@.len() as int) =~= topic@);
    }
    true
}

/// Builds the message for `content`: the topic, then the content, nothing else.
pub fn frame(topic: &Vec<u8>, content: &Vec<u8>) -> (msg: Vec<u8>)
    ensures
        msg@ == frame_spec(topic@, content@),
{
    let mut msg = vstd::slice::slice_to_vec(topic.as_slice());
    let mut i: usize = 0;
    while i < content.len()
        invariant
            i <= content.len(),
            msg@ == topic@ + content@.take(i as int),
        decreases content.len() - i,
    {
        msg.push(content[i]);
        proof {
            assert((topic@ + content@.take(i as int)).push(content@[i as int]) =~= topic@
                + content@.take(i as int + 1));
        }
        i += 1;
    }
    proof {
        assert(content@.take(content@.len() as int) =~= content@);
    }
    msg
}

/// Strips the topic from a message: returns the content when the message
/// carries the topic as its prefix, and nothing otherwise. A message shorter
/// than the topic, or one under another topic, is rejected, never sliced.
pub fn strip(topic: &Vec<u8>, msg: &Vec<u8>) -> (r: Option<Vec<u8>>)
    ensures
        is_framed(topic@, msg@) ==> (r matches Some(c) && c@ == strip_spec(topic@, msg@)),
        !is_framed(topic@, msg@) ==> r is None,
{
    if !is_topic_prefix(topic, msg) {
        return None;
    }
    let mut content: Vec<u8> = Vec::new();
    let mut i: usize = topic.len();
    while i < msg.len()
        invariant
            topic@.len() <= i <= msg@.len(),
            content@ == msg@.subrange(topic@.len() as int, i as int),
        decreases msg.len() - i,
    {
        content.push(msg[i]);
        proof {
            assert(msg@.subrange(topic@.len() as int, i as int).push(msg@[i as int]) =~= msg@
                .subrange(topic@.len() as int, i as int + 1));
        }
        i += 1;
    }
    proof {
        assert(content@ =~= strip_spec(topic@, msg@));
    }
    Some(content)
}

/// Framing then stripping gives the content back: stripping removes exactly
/// the topic that framing put in front, for every topic and every content.
pub proof fn lemma_round_trip(topic: Seq<u8>, content: Seq<u8>)
    ensures
        is_framed(topic, frame_spec(topic, content)),
        strip_spec(topic, frame_spec(topic, content)) == content,
{
    assert(frame_spec(topic, content).take(topic.len() as int) =~= topic);
    assert(frame_spec(topic, content).skip(topic.len() as int) =~= content);
}

} // verus!
