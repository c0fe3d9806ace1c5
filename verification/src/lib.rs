//! Verified core of a clipboard synchronizer.
//!
//! Machines share a text clipboard over a publish/subscribe bus. A publisher
//! polls the local clipboard and, on a change, sends the new content framed
//! under a fixed topic; a subscriber strips the topic from each received
//! message and writes the remainder to its local clipboard; a relay forwards
//! framed messages between publishers and subscribers that cannot reach each
//! other directly.
//!
//! This crate holds the protocol logic — change detection, message framing
//! and stripping, topic filtering, and relay forwarding — with contracts that
//! pin each step down. The transport sockets and the OS clipboard are outside
//! collaborators; the binary around this library drives them and feeds plain
//! byte values in and out.

pub mod config;
pub mod detector;
pub mod framing;
pub mod pipeline;
pub mod publisher;
pub mod relay;
pub mod subscriber;
