//! Shader-watch filtering and debounce.
//!
//! File-system events for the shader directory are first filtered by kind
//! (only modify/create/remove events matter), then debounced: once a reload
//! has been triggered, further events within `DEBOUNCE_MS` milliseconds are
//! discarded. When the debounce window has passed, the caller reports whether
//! a shader file is still present on disk; if it is not, the reload is
//! skipped and the previous pipeline stays in use.

use vstd::prelude::*;

verus! {

/// Width of the debounce window, in milliseconds.
pub const DEBOUNCE_MS: u64 = 200;

/// The kind of a file-system event, reduced to what the watch cares about.
#[derive(Clone, Copy, Debug, PartialEq, Eq, Structural)]
pub enum FsEventKind {
    /// A file's contents were modified.
    DataModified,
    /// A file was created.
    Created,
    /// A file was removed.
    Removed,
    /// Anything else (metadata change, access, rename notice, ...).
    Other,
}

/// What the watch decided for one event.
#[derive(Clone, Copy, Debug, PartialEq, Eq, Structural)]
pub enum WatchDecision {
    /// Trigger a shader reload.
    Reload,
    /// The debounce window had passed, but no shader file is on disk:
    /// skip the rebuild and keep the previous pipeline.
    SkippedMissing,
    /// The event kind is not a content change; ignored.
    Filtered,
    /// A reload was triggered less than `DEBOUNCE_MS` ago; discarded.
    Debounced,
}

/// Debounce state: the time of the last triggered reload, if any.
#[derive(Clone, Copy, Debug)]
pub struct ShaderWatch {
    /// Milliseconds (on the caller's monotonic clock) of the last event that
    /// passed the debounce check; `None` before the first one.
    pub last_reload_ms: Option<u64>,
}

/// Whether an event kind passes the filter: modify, create and remove do.
pub open spec fn relevant_kind(k: FsEventKind) -> bool {
    !(k is Other)
}

/// Whether an event at `now` passes the debounce check: more than
/// `DEBOUNCE_MS` milliseconds after the last reload, or no reload yet.
pub open spec fn debounce_passes(last: Option<u64>, now: u64) -> bool {
    match last {
        None => true,
        Some(l) => now > l + DEBOUNCE_MS,
    }
}

/// The watch transition: next state and decision for one event.
pub open spec fn note_event_spec(
    w: ShaderWatch,
    kind: FsEventKind,
    now_ms: u64,
    shader_present: bool,
) -> (ShaderWatch, WatchDecision) {
    if !relevant_kind(kind) {
        (w, WatchDecision::Filtered)
    } else if !debounce_passes(w.last_reload_ms, now_ms) {
        (w, WatchDecision::Debounced)
    } else {
        let stamped = ShaderWatch { last_reload_ms: Some(now_ms) };
        if shader_present {
            (stamped, WatchDecision::Reload)
        } else {
            (stamped, WatchDecision::SkippedMissing)
        }
    }
}

impl ShaderWatch {
    /// A fresh watch: no reload has been triggered yet, so the first relevant
    /// event always passes the debounce check.
    pub fn new() -> (w: ShaderWatch)
        ensures
            w.last_reload_ms is None,
    {
        ShaderWatch { last_reload_ms: None }
    }

    /// Process one file-system event. `now_ms` is the caller's monotonic
    /// clock; `shader_present` reports whether a shader file is on disk.
    pub fn note_event(&mut self, kind: FsEventKind, now_ms: u64, shader_present: bool) -> (d:
        WatchDecision)
        ensures
            (*final(self), d) == note_event_spec(*old(self), kind, now_ms, shader_present),
            d == WatchDecision::Reload <==> relevant_kind(kind) && debounce_passes(
                old(self).last_reload_ms,
                now_ms,
            ) && shader_present,
    {
        let relevant = match kind {
            FsEventKind::Other => false,
            _ => true,
        };
        if !relevant {
            return WatchDecision::Filtered;
        }
        let passes = match self.last_reload_ms {
            None => true,
            Some(l) => now_ms > l && now_ms - l > DEBOUNCE_MS,
        };
        if !passes {
            return WatchDecision::Debounced;
        }
        self.last_reload_ms = Some(now_ms);
        if shader_present {
            WatchDecision::Reload
        } else {
            WatchDecision::SkippedMissing
        }
    }
}

/// Law: two events at most `DEBOUNCE_MS` milliseconds apart produce at most
/// one reload, whatever the state of the watch, the event kinds, and the
/// presence of the shader file.
pub proof fn lemma_debounce_at_most_one(
    w: ShaderWatch,
    k1: FsEventKind,
    k2: FsEventKind,
    t1: u64,
    t2: u64,
    p1: bool,
    p2: bool,
)
    requires
        t1 <= t2 <= t1 + DEBOUNCE_MS,
    ensures
        !({
            let (w1, d1) = note_event_spec(w, k1, t1, p1);
            let (w2, d2) = note_event_spec(w1, k2, t2, p2);
            d1 == WatchDecision::Reload && d2 == WatchDecision::Reload
        }),
{
}

/// Law: two relevant events in separate debounce windows (the first past the
/// watch's window, the second more than `DEBOUNCE_MS` after the first) each
/// trigger a reload when the shader file is present.
pub proof fn lemma_independent_windows(
    w: ShaderWatch,
    k1: FsEventKind,
    k2: FsEventKind,
    t1: u64,
    t2: u64,
)
    requires
        relevant_kind(k1),
        relevant_kind(k2),
        debounce_passes(w.last_reload_ms, t1),
        t2 > t1 + DEBOUNCE_MS,
    ensures
        ({
            let (w1, d1) = note_event_spec(w, k1, t1, true);
            let (w2, d2) = note_event_spec(w1, k2, t2, true);
            d1 == WatchDecision::Reload && d2 == WatchDecision::Reload
        }),
{
}

} // verus!
