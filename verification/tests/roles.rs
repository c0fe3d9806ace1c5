use clipsync::config::Config;
use clipsync::detector::ChangeDetector;
use clipsync::framing::frame;
use clipsync::publisher::publisher_step;
use clipsync::relay::{relay_all, relay_step};
use clipsync::subscriber::{handle_all, handle_frame};

#[test]
fn subscriber_acts_only_on_matching_topic() {
    let cfg = Config::new();
    let matching = frame(&cfg.topic, &b"hello".to_vec());
    assert_eq!(handle_frame(&cfg.topic, &matching), Some(b"hello".to_vec()));
    // same length as `matching`, different prefix: ignored entirely
    let foreign = b"CLIPBOARDhello".to_vec();
    assert_eq!(foreign.len(), matching.len());
    assert_eq!(handle_frame(&cfg.topic, &foreign), None);
}

#[test]
fn short_frame_is_dropped_and_service_continues() {
    let cfg = Config::new();
    let short = b"clip".to_vec();
    assert_eq!(handle_frame(&cfg.topic, &short), None);
    // the next valid frame is still served
    let valid = frame(&cfg.topic, &b"after".to_vec());
    assert_eq!(handle_frame(&cfg.topic, &valid), Some(b"after".to_vec()));
}

#[test]
fn subscriber_batch_keeps_only_matching_contents_in_order() {
    let cfg = Config::new();
    let msgs = vec![
        frame(&cfg.topic, &b"one".to_vec()),
        b"clip".to_vec(),
        b"CLIPBOARDtwo".to_vec(),
        frame(&cfg.topic, &b"three".to_vec()),
    ];
    let written = handle_all(&cfg.topic, &msgs);
    assert_eq!(written, vec![b"one".to_vec(), b"three".to_vec()]);
}

#[test]
fn relay_forwards_matching_message_verbatim() {
    let cfg = Config::new();
    let msg = frame(&cfg.topic, &b"payload".to_vec());
    assert_eq!(relay_step(&cfg.topic, &msg), Some(msg.clone()));
    assert_eq!(relay_step(&cfg.topic, &b"otherbus".to_vec()), None);
}

#[test]
fn relay_preserves_publisher_order() {
    let cfg = Config::new();
    let m1 = frame(&cfg.topic, &b"m1".to_vec());
    let m2 = frame(&cfg.topic, &b"m2".to_vec());
    let m3 = frame(&cfg.topic, &b"m3".to_vec());
    let sent = vec![m1.clone(), m2.clone(), m3.clone()];
    let forwarded = relay_all(&cfg.topic, &sent);
    assert_eq!(forwarded, vec![m1, m2, m3]);
}

#[test]
fn relay_drops_foreign_traffic_but_keeps_order() {
    let cfg = Config::new();
    let m1 = frame(&cfg.topic, &b"m1".to_vec());
    let m2 = frame(&cfg.topic, &b"m2".to_vec());
    let arriving = vec![m1.clone(), b"noise".to_vec(), m2.clone()];
    assert_eq!(relay_all(&cfg.topic, &arriving), vec![m1, m2]);
}

#[test]
fn publisher_emits_framed_change_and_then_stays_silent() {
    let cfg = Config::new();
    let mut det = ChangeDetector::new(Vec::new());
    let polled = b"fresh".to_vec();
    assert_eq!(
        publisher_step(&mut det, &cfg.topic, &polled),
        Some(b"clipboardfresh".to_vec())
    );
    assert_eq!(publisher_step(&mut det, &cfg.topic, &polled), None);
}

#[test]
fn hello_crosses_from_host_a_to_host_b() {
    let cfg = Config::new();

    // host A: clipboard set to "hello"; its publisher polls it
    let mut det_a = ChangeDetector::new(Vec::new());
    let clipboard_a = b"hello".to_vec();
    let sent = publisher_step(&mut det_a, &cfg.topic, &clipboard_a).expect("a change to publish");

    // the relay between them forwards the message verbatim
    let forwarded = relay_step(&cfg.topic, &sent).expect("a matching message");

    // host B: clipboard empty; its subscriber writes what it receives
    let mut clipboard_b: Vec<u8> = Vec::new();
    if let Some(content) = handle_frame(&cfg.topic, &forwarded) {
        clipboard_b = content;
    }
    assert_eq!(clipboard_b, b"hello".to_vec());

    // and host B's own detector, told of the applied update, stays silent
    let mut det_b = ChangeDetector::new(Vec::new());
    det_b.record_applied(&clipboard_b);
    assert_eq!(det_b.observe(&clipboard_b), None);
}
