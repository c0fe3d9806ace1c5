//! Change detection: a detector remembers the last clipboard content it has
//! seen (its baseline) and surfaces an observed value only when it differs
//! from that baseline. No-op observations are never surfaced, so polling the
//! same content over and over emits nothing.

use vstd::prelude::*;

use crate::framing::bytes_eq;

verus! {

/// What one observation emits: the observed content when it differs from the
/// baseline, and nothing when it is the baseline itself.
pub open spec fn detect_spec(baseline: Seq<u8>, current: Seq<u8>) -> Option<Seq<u8>> {
    if current == baseline {
        None
    } else {
        Some(current)
    }
}

/// The baseline after an observation: the observed content. When nothing was
/// emitted the observed content already was the baseline, so either way the
/// detector now knows exactly what the clipboard holds.
pub open spec fn next_baseline(baseline: Seq<u8>, current: Seq<u8>) -> Seq<u8> {
    current
}

/// Remembers the last clipboard content observed by one role. Held in memory
/// only, for the lifetime of the role.
pub struct ChangeDetector {
    last_known: Vec<u8>,
}

impl ChangeDetector {
    /// The content this detector takes as already known.
    pub closed spec fn baseline(&self) -> Seq<u8> {
        self.last_known@
    }

    /// A detector whose baseline is `initial`; a publisher starts from the
    /// empty content, so the first non-empty clipboard value counts as a
    /// change.
    pub fn new(initial: Vec<u8>) -> (d: ChangeDetector)
        ensures
            d.baseline() == initial@,
    {
        ChangeDetector { last_known: initial }
    }

    /// Feeds one polled clipboard value to the detector. Emits the value
    /// exactly when it differs from the baseline, and moves the baseline to
    /// it; a value equal to the baseline is swallowed and changes nothing.
    pub fn observe(&mut self, current: &Vec<u8>) -> (emitted: Option<Vec<u8>>)
        ensures
            match emitted {
                Some(c) => detect_spec(old(self).baseline(), current@) == Some(c@),
                None => detect_spec(old(self).baseline(), current@) is None,
            },
            final(self).baseline() == next_baseline(old(self).baseline(), current@),
    {
        if bytes_eq(&self.last_known, current) {
            None
        } else {
            self.last_known = vstd::slice::slice_to_vec(current.as_slice());
            Some(vstd::slice::slice_to_vec(current.as_slice()))
        }
    }

    /// Moves the baseline to `content` without emitting anything. A client
    /// that applies a remote update to its clipboard records it here, so that
    /// its own publisher finds the new value already known and does not echo
    /// the update back onto the bus.
    pub fn record_applied(&mut self, content: &Vec<u8>)
        ensures
            final(self).baseline() == content@,
    {
        self.last_known = vstd::slice::slice_to_vec(content.as_slice());
    }
}

/// A value that differs from the baseline is emitted exactly as observed:
/// once the clipboard holds something new, the detector surfaces precisely
/// that content, never stale data.
pub proof fn lemma_change_detected(baseline: Seq<u8>, current: Seq<u8>)
    requires
        current != baseline,
    ensures
        detect_spec(baseline, current) == Some(current),
{
}

/// The detector never emits the baseline itself: whatever one observation
/// emits differs from the content that was already known before it.
pub proof fn lemma_never_emits_baseline(baseline: Seq<u8>, current: Seq<u8>)
    ensures
        detect_spec(baseline, current) matches Some(c) ==> c != baseline,
{
}

/// Observing the same content twice in a row emits at most once: after any
/// observation of `current`, a second observation of `current` is silent.
pub proof fn lemma_second_observation_silent(baseline: Seq<u8>, current: Seq<u8>)
    ensures
        detect_spec(next_baseline(baseline, current), current) is None,
{
}

/// Feedback-loop avoidance: once an applied remote update has been recorded
/// as the baseline, observing that same content emits nothing, so a received
/// update is never published back out.
pub proof fn lemma_applied_update_not_echoed(content: Seq<u8>)
    ensures
        detect_spec(content, content) is None,
{
}

} // verus!
