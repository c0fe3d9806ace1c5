//! Shared constants of the protocol, gathered in an explicit configuration
//! that each role takes at construction. All participants must agree on the
//! topic and the two ports out of band; the defaults here are the fixed
//! values every stock publisher, subscriber and relay uses.

use vstd::prelude::*;
use vstd::string::StringExecFns;

verus! {

/// How long a publisher waits between two clipboard polls, in seconds.
pub const DEFAULT_POLL_DELAY_SECS: u64 = 3;

/// The bytes of the default topic, `"clipboard"`.
pub open spec fn default_topic_spec() -> Seq<u8> {
    seq![
        'c' as u8,
        'l' as u8,
        'i' as u8,
        'p' as u8,
        'b' as u8,
        'o' as u8,
        'a' as u8,
        'r' as u8,
        'd' as u8,
    ]
}

/// The process-wide settings of one participant: the topic every message is
/// framed under, the poll delay of the publisher, and the two relay ports —
/// publishers connect to the publish port, subscribers to the subscribe
/// port.
pub struct Config {
    pub topic: Vec<u8>,
    pub poll_delay_secs: u64,
    pub publish_port: String,
    pub subscribe_port: String,
}

impl Config {
    /// The stock configuration: topic `"clipboard"`, a poll every three
    /// seconds, port 9991 for publishers and port 9992 for subscribers.
    pub fn new() -> (c: Config)
        ensures
            c.topic@ == default_topic_spec(),
            c.poll_delay_secs == DEFAULT_POLL_DELAY_SECS,
            c.publish_port@ == "9991"@,
            c.subscribe_port@ == "9992"@,
    {
        let mut topic: Vec<u8> = Vec::new();
        topic.push('c' as u8);
        topic.push('l' as u8);
        topic.push('i' as u8);
        topic.push('p' as u8);
        topic.push('b' as u8);
        topic.push('o' as u8);
        topic.push('a' as u8);
        topic.push('r' as u8);
        topic.push('d' as u8);
        proof {
            assert(topic@ =~= default_topic_spec());
        }
        Config {
            topic,
            poll_delay_secs: DEFAULT_POLL_DELAY_SECS,
            publish_port: String::from_str("9991"),
            subscribe_port: String::from_str("9992"),
        }
    }
}

/// Builds the transport address for a host and a port: `tcp://host:port`,
/// pure concatenation and nothing else. The host's shape is the caller's
/// responsibility — no validation happens here — but the concatenation
/// itself must be exact, or every role talks to the wrong place.
pub fn generate_url(device_address: &str, port: &str) -> (url: String)
    ensures
        url@ == "tcp://"@ + device_address@ + ":"@ + port@,
{
    let mut url = String::from_str("tcp://");
    url.append(device_address);
    url.append(":");
    url.append(port);
    url
}

} // verus!
