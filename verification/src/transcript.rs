//! Transcript tracking: folds discrete word events into text segments,
//! emits deduplicated partial snapshots while a segment is open, and
//! finalizes a segment either on sustained silence (measured on the owned
//! detector's clock) or on an explicit request.
//!
//! The buffer of an open segment is always a trimmed string: each appended
//! word is trimmed first and words are joined by at most one space, so the
//! separator rule and the emitted text can be stated over the buffer
//! directly.

use vstd::prelude::*;
use vstd::string::StrSliceExecFns;
use vstd::string::StringExecFns;
use crate::chars::{is_space, is_alnum};
use crate::text::{trim_spec, trim_str, lemma_trim_ends_not_space};
use crate::vad::{
    VadConfig, VadState, EnergyVad, default_vad_config, initial_state, vad_process_spec,
};

verus! {

/// Default auto-finalize duration, in samples (0.8 s at 24 kHz).
pub const DEFAULT_FINALIZE_AFTER: u64 = 19200;

#[derive(Debug, Clone)]
pub struct TrackerConfig {
    /// The configuration of the owned voice-activity detector.
    pub vad: VadConfig,
    /// How much confirmed silence, in samples on the detector's clock,
    /// auto-finalizes an open segment.
    pub finalize_after: u64,
}

impl Default for TrackerConfig {
    /// The default configuration: default detector, 0.8 s auto-finalize.
    fn default() -> (c: Self)
        ensures
            c.vad == default_vad_config(),
            c.finalize_after == DEFAULT_FINALIZE_AFTER,
    {
        TrackerConfig { vad: VadConfig::default(), finalize_after: DEFAULT_FINALIZE_AFTER }
    }
}

/// One output of the tracker: a snapshot of the open segment when
/// `is_final` is false, the segment's terminal record when it is true.
#[derive(Debug, Clone)]
pub struct TranscriptUpdate {
    pub text: String,
    pub start_time: u64,
    pub stop_time: Option<u64>,
    pub is_final: bool,
}

/// The mathematical view of a `TranscriptUpdate`.
pub ghost struct UpdateModel {
    pub text: Seq<char>,
    pub start: u64,
    pub stop: Option<u64>,
    pub is_final: bool,
}

impl View for TranscriptUpdate {
    type V = UpdateModel;

    open spec fn view(&self) -> UpdateModel {
        UpdateModel {
            text: self.text@,
            start: self.start_time,
            stop: self.stop_time,
            is_final: self.is_final,
        }
    }
}

/// The view of an optional update.
pub open spec fn opt_view(r: Option<TranscriptUpdate>) -> Option<UpdateModel> {
    match r {
        Some(u) => Some(u@),
        None => None,
    }
}

/// What the tracker last sent out, kept for deduplication only.
pub ghost struct Snapshot {
    pub text: Seq<char>,
    pub stop: Option<u64>,
    pub is_final: bool,
}

/// The mathematical view of a tracker's segment state.
pub ghost struct TrackerModel {
    /// The accumulated words of the open segment.
    pub buffer: Seq<char>,
    /// The segment's start time: the first word's timestamp, set once.
    pub start: Option<u64>,
    /// The most recent end-of-word timestamp.
    pub last_stop: Option<u64>,
    /// The last emitted snapshot.
    pub emitted: Option<Snapshot>,
}

/// The segment state of a fresh, reset or just-finalized tracker.
pub open spec fn idle_model() -> TrackerModel {
    TrackerModel { buffer: Seq::empty(), start: None, last_stop: None, emitted: None }
}

/// Invariants of every reachable segment state: the segment is open exactly
/// when the buffer is non-empty; the buffer is trimmed; and the last
/// emitted snapshot, when present, is the non-final snapshot of the current
/// buffer and stop time.
pub open spec fn tracker_model_wf(m: TrackerModel) -> bool {
    &&& m.start is None <==> m.buffer.len() == 0
    &&& m.buffer.len() > 0 ==> !is_space(m.buffer.first()) && !is_space(m.buffer.last())
    &&& m.emitted is Some ==> m.start is Some && m.emitted->Some_0 == (Snapshot {
        text: m.buffer,
        stop: m.last_stop,
        is_final: false,
    })
}

/// The partial-emission policy: nothing without an open, non-empty
/// segment; otherwise the non-final snapshot of the buffer is emitted, and
/// recorded, exactly when it differs from the last emitted snapshot.
pub open spec fn emit_partial_spec(m: TrackerModel) -> (TrackerModel, Option<UpdateModel>) {
    if m.start is None {
        (m, None)
    } else if m.buffer.len() == 0 {
        (m, None)
    } else {
        let cand = Snapshot { text: m.buffer, stop: m.last_stop, is_final: false };
        if m.emitted == Some(cand) {
            (m, None)
        } else {
            (
                TrackerModel {
                    buffer: m.buffer,
                    start: m.start,
                    last_stop: m.last_stop,
                    emitted: Some(cand),
                },
                Some(
                    UpdateModel {
                        text: m.buffer,
                        start: m.start->Some_0,
                        stop: m.last_stop,
                        is_final: false,
                    },
                ),
            )
        }
    }
}

/// What a word event does: the word is trimmed and an empty result is a
/// no-op; otherwise the word is appended, separated by one space exactly
/// when the buffer's last character and the word's first character are both
/// alphanumeric (the buffer is trimmed and the word is trimmed, so these
/// are the adjacent non-whitespace characters); the first word of a segment
/// records its start time; then the partial-emission policy runs.
pub open spec fn handle_word_spec(m: TrackerModel, word: Seq<char>, start_time: u64) -> (
    TrackerModel,
    Option<UpdateModel>,
) {
    let piece = trim_spec(word);
    if piece.len() == 0 {
        (m, None)
    } else {
        let sep = m.buffer.len() > 0 && is_alnum(m.buffer.last()) && is_alnum(piece.first());
        let buf2 = if sep {
            m.buffer + seq![' '] + piece
        } else {
            m.buffer + piece
        };
        let start2 = if m.start is Some {
            m.start
        } else {
            Some(start_time)
        };
        emit_partial_spec(
            TrackerModel { buffer: buf2, start: start2, last_stop: m.last_stop, emitted: m.emitted },
        )
    }
}

/// What an end-of-word event does: the most recent stop time wins, then
/// the partial-emission policy runs.
pub open spec fn handle_end_word_spec(m: TrackerModel, stop_time: u64) -> (
    TrackerModel,
    Option<UpdateModel>,
) {
    emit_partial_spec(
        TrackerModel {
            buffer: m.buffer,
            start: m.start,
            last_stop: Some(stop_time),
            emitted: m.emitted,
        },
    )
}

/// What finalizing does: nothing while no segment is open; with an open
/// segment, the stop time is the last end-of-word time, else the supplied
/// fallback, clamped up to the start time; the final update bypasses
/// deduplication, and the segment state is cleared either way.
pub open spec fn finalize_spec(m: TrackerModel, fallback_stop: Option<u64>) -> (
    TrackerModel,
    Option<UpdateModel>,
) {
    if m.start is None {
        (m, None)
    } else if m.buffer.len() == 0 {
        (idle_model(), None)
    } else {
        let start = m.start->Some_0;
        let resolved = if m.last_stop is Some {
            m.last_stop
        } else {
            fallback_stop
        };
        let stop = match resolved {
            Some(t) => if t < start {
                Some(start)
            } else {
                Some(t)
            },
            None => None,
        };
        (idle_model(), Some(UpdateModel { text: m.buffer, start: start, stop: stop, is_final: true }))
    }
}

/// The fallback stop time of an explicit finalize: the last end-of-word
/// time, else the detector's last voiced instant when there was one, else
/// the detector's clock when it has advanced, else nothing.
pub open spec fn fallback_stop_spec(last_stop: Option<u64>, last_voice: int, current: int) -> Option<
    u64,
> {
    if last_stop is Some {
        last_stop
    } else if last_voice > 0 {
        Some(last_voice as u64)
    } else if current > 0 {
        Some(current as u64)
    } else {
        None
    }
}

/// The silence-timer predicate: an open segment auto-finalizes when the
/// detector is out of speech, has observed voice at least once, and its
/// clock has run at least `finalize_after` past the last voiced instant.
pub open spec fn should_finalize_spec(m: TrackerModel, v: VadState, finalize_after: u64) -> bool {
    &&& m.buffer.len() > 0
    &&& !v.in_speech
    &&& v.last_voice > 0
    &&& v.time - v.last_voice >= finalize_after
}

/// Word events preserve the segment-state invariants.
pub proof fn lemma_handle_word_preserves_wf(m: TrackerModel, word: Seq<char>, start_time: u64)
    requires
        tracker_model_wf(m),
    ensures
        tracker_model_wf(handle_word_spec(m, word, start_time).0),
{
    let piece = trim_spec(word);
    lemma_trim_ends_not_space(word);
    if piece.len() > 0 {
        let sep = m.buffer.len() > 0 && is_alnum(m.buffer.last()) && is_alnum(piece.first());
        let buf2 = if sep {
            m.buffer + seq![' '] + piece
        } else {
            m.buffer + piece
        };
        assert(buf2.last() == piece.last());
        if m.buffer.len() > 0 {
            assert(buf2.first() == m.buffer.first());
        } else {
            assert(buf2 =~= piece);
        }
    }
}

/// End-of-word events preserve the segment-state invariants.
pub proof fn lemma_handle_end_word_preserves_wf(m: TrackerModel, stop_time: u64)
    requires
        tracker_model_wf(m),
    ensures
        tracker_model_wf(handle_end_word_spec(m, stop_time).0),
{
}

/// Finalizing preserves the segment-state invariants.
pub proof fn lemma_finalize_preserves_wf(m: TrackerModel, fallback_stop: Option<u64>)
    requires
        tracker_model_wf(m),
    ensures
        tracker_model_wf(finalize_spec(m, fallback_stop).0),
{
}

/// Law: after any emission, the partial-emission policy stays quiet until
/// the `(text, stop time)` pair changes — in every reachable state the
/// recorded snapshot is the snapshot of the current pair, so running the
/// policy again emits nothing and changes nothing.
pub proof fn lemma_emitted_snapshot_not_repeated(m: TrackerModel)
    requires
        tracker_model_wf(m),
        m.emitted is Some,
    ensures
        emit_partial_spec(m).1 is None,
        emit_partial_spec(m).0 == m,
{
}

/// Law: no update is ever emitted for an empty text buffer, neither a
/// partial one nor a final one.
pub proof fn lemma_no_update_for_empty_buffer(m: TrackerModel, fallback_stop: Option<u64>)
    requires
        m.buffer.len() == 0,
    ensures
        emit_partial_spec(m).1 is None,
        finalize_spec(m, fallback_stop).1 is None,
{
}

/// Law: in a run of events that leaves the `(text, stop time)` pair
/// unchanged, only the first emits. An end-of-word event repeated with the
/// same stop time yields nothing the second time and leaves the state as
/// it was.
pub proof fn lemma_repeated_end_word_not_emitted(m: TrackerModel, stop_time: u64)
    requires
        tracker_model_wf(m),
    ensures
        ({
            let m1 = handle_end_word_spec(m, stop_time).0;
            &&& handle_end_word_spec(m1, stop_time).1 is None
            &&& handle_end_word_spec(m1, stop_time).0 == m1
        }),
{
}

/// Law: a word that trims to nothing changes nothing and emits nothing,
/// whatever the state.
pub proof fn lemma_blank_word_is_noop(m: TrackerModel, word: Seq<char>, start_time: u64)
    requires
        trim_spec(word).len() == 0,
    ensures
        handle_word_spec(m, word, start_time).0 == m,
        handle_word_spec(m, word, start_time).1 is None,
{
}

/// Law: finalizing with an empty buffer yields nothing and leaves the
/// segment fields — buffer, start time, last emitted snapshot — clear.
pub proof fn lemma_finalize_empty_buffer(m: TrackerModel, fallback_stop: Option<u64>)
    requires
        tracker_model_wf(m),
        m.buffer.len() == 0,
    ensures
        ({
            let r = finalize_spec(m, fallback_stop);
            &&& r.1 is None
            &&& r.0.buffer.len() == 0
            &&& r.0.start is None
            &&& r.0.emitted is None
        }),
{
}

/// Law: when the resolved stop time of a finalize precedes the segment's
/// start time, the emitted stop time equals the start time exactly.
pub proof fn lemma_finalize_clamps_stop(m: TrackerModel, fallback_stop: Option<u64>, t: u64)
    requires
        tracker_model_wf(m),
        m.start is Some,
        (if m.last_stop is Some {
            m.last_stop
        } else {
            fallback_stop
        }) == Some(t),
        t < m.start->Some_0,
    ensures
        ({
            let r = finalize_spec(m, fallback_stop);
            &&& r.1 is Some
            &&& r.1->Some_0.stop == Some(m.start->Some_0)
            &&& r.1->Some_0.is_final
        }),
{
}

/// What the tracker last sent out, kept for deduplication only.
#[derive(Debug, Clone)]
struct EmittedState {
    text: String,
    stop_time: Option<u64>,
    is_final: bool,
}

/// The transcript tracker: owns one voice-activity detector, accumulates
/// recognized words into a segment buffer, and surfaces deduplicated
/// partial snapshots and finalized segments.
#[derive(Debug, Clone)]
pub struct TranscriptTracker {
    vad: EnergyVad,
    finalize_after: u64,
    buffer: String,
    start_time: Option<u64>,
    last_stop_time: Option<u64>,
    last_emitted: Option<EmittedState>,
}

impl View for TranscriptTracker {
    type V = TrackerModel;

    closed spec fn view(&self) -> TrackerModel {
        TrackerModel {
            buffer: self.buffer@,
            start: self.start_time,
            last_stop: self.last_stop_time,
            emitted: match self.last_emitted {
                Some(e) => Some(Snapshot { text: e.text@, stop: e.stop_time, is_final: e.is_final }),
                None => None,
            },
        }
    }
}

impl TranscriptTracker {
    /// The owned detector, as a specification-level value.
    pub closed spec fn detector(&self) -> EnergyVad {
        self.vad
    }

    /// The configured auto-finalize duration, in samples.
    pub closed spec fn finalize_after_spec(&self) -> u64 {
        self.finalize_after
    }

    /// Validity: the owned detector is well formed and the segment state
    /// satisfies its invariants.
    pub open spec fn wf(&self) -> bool {
        &&& self.detector().wf()
        &&& tracker_model_wf(self@)
    }

    /// A fresh tracker in the idle state, owning a fresh detector.
    pub fn new(cfg: TrackerConfig) -> (t: Self)
        ensures
            t@ == idle_model(),
            t.detector()@ == initial_state(),
            t.detector().config() == cfg.vad,
            t.detector().pending() == Seq::<i32>::empty(),
            t.finalize_after_spec() == cfg.finalize_after,
            t.wf(),
    {
        TranscriptTracker {
            vad: EnergyVad::new(cfg.vad),
            finalize_after: cfg.finalize_after,
            buffer: String::default(),
            start_time: None,
            last_stop_time: None,
            last_emitted: None,
        }
    }

    /// Full session reset: clears the segment state and resets the owned
    /// detector, clock included — unlike finalizing, which leaves the
    /// detector untouched.
    pub fn reset(&mut self)
        ensures
            final(self)@ == idle_model(),
            final(self).detector()@ == initial_state(),
            final(self).detector().config() == old(self).detector().config(),
            final(self).detector().pending().len() == 0,
            final(self).finalize_after_spec() == old(self).finalize_after_spec(),
            final(self).wf(),
    {
        self.buffer = String::default();
        self.start_time = None;
        self.last_stop_time = None;
        self.last_emitted = None;
        self.vad.reset();
    }

    /// Clears the segment-scoped fields only; the detector keeps running.
    fn reset_segment_state(&mut self)
        ensures
            final(self)@ == idle_model(),
            final(self).detector() == old(self).detector(),
            final(self).finalize_after_spec() == old(self).finalize_after_spec(),
    {
        self.buffer = String::default();
        self.start_time = None;
        self.last_stop_time = None;
        self.last_emitted = None;
    }

    /// Whether `update` differs from the last emitted snapshot in text,
    /// stop time or finality.
    fn should_emit(&self, update: &TranscriptUpdate) -> (r: bool)
        ensures
            r == (match self@.emitted {
                Some(prev) => prev != (Snapshot {
                    text: update@.text,
                    stop: update@.stop,
                    is_final: update@.is_final,
                }),
                None => true,
            }),
    {
        match &self.last_emitted {
            Some(prev) => {
                prev.text != update.text || prev.stop_time != update.stop_time || prev.is_final
                    != update.is_final
            },
            None => true,
        }
    }

    /// Runs the partial-emission policy on the current state.
    fn emit_partial(&mut self) -> (r: Option<TranscriptUpdate>)
        ensures
            final(self)@ == emit_partial_spec(old(self)@).0,
            opt_view(r) == emit_partial_spec(old(self)@).1,
            final(self).detector() == old(self).detector(),
            final(self).finalize_after_spec() == old(self).finalize_after_spec(),
    {
        if self.start_time.is_none() {
            return None;
        }
        let start = self.start_time.unwrap();
        if self.buffer.as_str().is_empty() {
            return None;
        }
        let text = self.buffer.clone();
        let update = TranscriptUpdate {
            text: text,
            start_time: start,
            stop_time: self.last_stop_time,
            is_final: false,
        };
        if self.should_emit(&update) {
            self.last_emitted = Some(
                EmittedState {
                    text: update.text.clone(),
                    stop_time: update.stop_time,
                    is_final: false,
                },
            );
            Some(update)
        } else {
            None
        }
    }

    /// Folds one recognized word into the open segment (opening one at the
    /// word's timestamp if none is open) and returns the partial update,
    /// if the snapshot changed.
    pub fn handle_word(&mut self, word: &str, start_time: u64) -> (r: Option<TranscriptUpdate>)
        requires
            old(self).wf(),
        ensures
            final(self).wf(),
            final(self)@ == handle_word_spec(old(self)@, word@, start_time).0,
            opt_view(r) == handle_word_spec(old(self)@, word@, start_time).1,
            final(self).detector() == old(self).detector(),
            final(self).finalize_after_spec() == old(self).finalize_after_spec(),
    {
        proof {
            lemma_handle_word_preserves_wf(old(self)@, word@, start_time);
            lemma_trim_ends_not_space(word@);
        }
        let piece = trim_str(word);
        if piece.is_empty() {
            return None;
        }
        if !self.buffer.as_str().is_empty() {
            let blen = self.buffer.as_str().unicode_len();
            let prev_char = self.buffer.as_str().get_char(blen - 1);
            let next_char = piece.get_char(0);
            if prev_char.is_alphanumeric() && next_char.is_alphanumeric() {
                self.buffer.append(" ");
                proof {
                    reveal_strlit(" ");
                    assert(" "@ =~= seq![' ']);
                }
            }
        }
        self.buffer.append(piece);
        if self.start_time.is_none() {
            self.start_time = Some(start_time);
        }
        self.emit_partial()
    }

    /// Records the newest end-of-word timestamp (the most recent one wins)
    /// and returns the partial update, if the snapshot changed.
    pub fn handle_end_word(&mut self, stop_time: u64) -> (r: Option<TranscriptUpdate>)
        requires
            old(self).wf(),
        ensures
            final(self).wf(),
            final(self)@ == handle_end_word_spec(old(self)@, stop_time).0,
            opt_view(r) == handle_end_word_spec(old(self)@, stop_time).1,
            final(self).detector() == old(self).detector(),
            final(self).finalize_after_spec() == old(self).finalize_after_spec(),
    {
        proof {
            lemma_handle_end_word_preserves_wf(old(self)@, stop_time);
        }
        self.last_stop_time = Some(stop_time);
        self.emit_partial()
    }

    /// Closes the open segment, if any: the final update's stop time is
    /// the last end-of-word time, else `fallback_stop`, clamped up to the
    /// segment start; segment state is cleared, the detector untouched.
    fn finalize(&mut self, fallback_stop: Option<u64>) -> (r: Option<TranscriptUpdate>)
        ensures
            final(self)@ == finalize_spec(old(self)@, fallback_stop).0,
            opt_view(r) == finalize_spec(old(self)@, fallback_stop).1,
            final(self).detector() == old(self).detector(),
            final(self).finalize_after_spec() == old(self).finalize_after_spec(),
    {
        if self.start_time.is_none() {
            return None;
        }
        let start = self.start_time.unwrap();
        if self.buffer.as_str().is_empty() {
            self.reset_segment_state();
            return None;
        }
        let mut stop_time = if self.last_stop_time.is_some() {
            self.last_stop_time
        } else {
            fallback_stop
        };
        if let Some(stop) = stop_time {
            if stop < start {
                // The detector's timestamps can lag behind the recognizer's
                // reported start; never report a negative-length segment.
                stop_time = Some(start);
            }
        }
        let text = self.buffer.clone();
        let update = TranscriptUpdate {
            text: text,
            start_time: start,
            stop_time: stop_time,
            is_final: true,
        };
        self.reset_segment_state();
        Some(update)
    }

    /// Explicitly closes the open segment (stream end): the stop time
    /// falls back from the last end-of-word time to the detector's last
    /// voiced instant to its clock, in that order.
    pub fn force_finalize(&mut self) -> (r: Option<TranscriptUpdate>)
        requires
            old(self).wf(),
        ensures
            final(self).wf(),
            ({
                let fb = fallback_stop_spec(
                    old(self)@.last_stop,
                    old(self).detector()@.last_voice,
                    old(self).detector()@.time,
                );
                &&& final(self)@ == finalize_spec(old(self)@, fb).0
                &&& opt_view(r) == finalize_spec(old(self)@, fb).1
            }),
            final(self).detector() == old(self).detector(),
            final(self).finalize_after_spec() == old(self).finalize_after_spec(),
    {
        proof {
            let fb = fallback_stop_spec(
                old(self)@.last_stop,
                old(self).detector()@.last_voice,
                old(self).detector()@.time,
            );
            lemma_finalize_preserves_wf(old(self)@, fb);
        }
        let fallback = if self.last_stop_time.is_some() {
            self.last_stop_time
        } else {
            let t = self.vad.last_voice_time();
            if t > 0 {
                Some(t)
            } else {
                let current = self.vad.current_time();
                if current > 0 {
                    Some(current)
                } else {
                    None
                }
            }
        };
        self.finalize(fallback)
    }

    /// The silence-timer predicate over the current state.
    fn should_finalize_by_timer(&self) -> (r: bool)
        requires
            self.wf(),
        ensures
            r == should_finalize_spec(self@, self.detector()@, self.finalize_after_spec()),
    {
        if self.buffer.as_str().is_empty() {
            return false;
        }
        if self.vad.in_speech() {
            return false;
        }
        let last_voice = self.vad.last_voice_time();
        if last_voice == 0 {
            return false;
        }
        let silence = self.vad.current_time() - last_voice;
        silence >= self.finalize_after
    }

    /// Forwards an audio batch into the owned detector (its own events are
    /// discarded; the silence-timer predicate recomputes the condition from
    /// the detector's clock), then auto-finalizes the open segment when the
    /// timer has expired, using the last voiced instant as the fallback
    /// stop time.
    pub fn ingest_audio(&mut self, pcm: &[i32]) -> (updates: Vec<TranscriptUpdate>)
        requires
            old(self).wf(),
            old(self).detector()@.time + old(self).detector().pending().len() + pcm@.len()
                <= u64::MAX,
        ensures
            final(self).wf(),
            final(self).detector().config() == old(self).detector().config(),
            final(self).finalize_after_spec() == old(self).finalize_after_spec(),
            ({
                let r = vad_process_spec(
                    old(self).detector().config(),
                    old(self).detector()@,
                    old(self).detector().pending(),
                    pcm@,
                );
                &&& final(self).detector()@ == r.state
                &&& final(self).detector().pending() == r.rest
                &&& (if should_finalize_spec(old(self)@, r.state, old(self).finalize_after_spec()) {
                    let f = finalize_spec(old(self)@, Some(r.state.last_voice as u64));
                    &&& final(self)@ == f.0
                    &&& (match f.1 {
                        Some(u) => updates@.len() == 1 && updates@[0]@ == u,
                        None => updates@.len() == 0,
                    })
                } else {
                    &&& final(self)@ == old(self)@
                    &&& updates@.len() == 0
                })
            }),
    {
        let mut updates: Vec<TranscriptUpdate> = Vec::new();
        let _ = self.vad.process(pcm);
        if self.should_finalize_by_timer() {
            let lvt = self.vad.last_voice_time();
            proof {
                lemma_finalize_preserves_wf(old(self)@, Some(lvt));
            }
            let r = self.finalize(Some(lvt));
            if let Some(update) = r {
                updates.push(update);
            }
        }
        updates
    }
}

} // verus!
