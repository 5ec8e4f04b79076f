use transcript_core::transcript::{TrackerConfig, TranscriptTracker, TranscriptUpdate};

// Times are samples on the detector's clock (24 kHz by default), so one
// second is 24000.

fn assert_update(
    u: &TranscriptUpdate,
    text: &str,
    start_time: u64,
    stop_time: Option<u64>,
    is_final: bool,
) {
    assert_eq!(u.text, text);
    assert_eq!(u.start_time, start_time);
    assert_eq!(u.stop_time, stop_time);
    assert_eq!(u.is_final, is_final);
}

#[test]
fn default_flow_scenario() {
    let mut t = TranscriptTracker::new(TrackerConfig::default());
    let u = t.handle_word("the", 24000).expect("first word emits");
    assert_update(&u, "the", 24000, None, false);
    let u = t.handle_word("cat", 28800).expect("text changed");
    assert_update(&u, "the cat", 24000, None, false);
    let u = t.handle_end_word(36000).expect("stop time changed");
    assert_update(&u, "the cat", 24000, Some(36000), false);
    let u = t.force_finalize().expect("open segment finalizes");
    assert_update(&u, "the cat", 24000, Some(36000), true);
    // The segment is closed: finalizing again yields nothing.
    assert!(t.force_finalize().is_none());
}

#[test]
fn punctuation_attaches_without_space() {
    let mut t = TranscriptTracker::new(TrackerConfig::default());
    t.handle_word("hello", 0);
    let u = t.handle_word(",", 2400).expect("text changed");
    assert_eq!(u.text, "hello,");
    let mut t = TranscriptTracker::new(TrackerConfig::default());
    t.handle_word("hello", 0);
    let u = t.handle_word("world", 12000).expect("text changed");
    assert_eq!(u.text, "hello world");
}

#[test]
fn apostrophe_suffix_attaches_then_words_separate() {
    let mut t = TranscriptTracker::new(TrackerConfig::default());
    t.handle_word("don", 0);
    let u = t.handle_word("'t", 100).expect("text changed");
    assert_eq!(u.text, "don't");
    let u = t.handle_word("stop", 200).expect("text changed");
    assert_eq!(u.text, "don't stop");
}

#[test]
fn unchanged_snapshot_is_deduplicated() {
    let mut t = TranscriptTracker::new(TrackerConfig::default());
    assert!(t.handle_word("a", 0).is_some());
    assert!(t.handle_end_word(100).is_some());
    // Same text and stop time again: nothing to report.
    assert!(t.handle_end_word(100).is_none());
    assert!(t.handle_word("   ", 150).is_none());
    // A new stop time differs, so it is reported once.
    let u = t.handle_end_word(200).expect("stop time changed");
    assert_eq!(u.stop_time, Some(200));
    assert!(t.handle_end_word(200).is_none());
}

#[test]
fn words_are_trimmed_and_blank_words_ignored() {
    let mut t = TranscriptTracker::new(TrackerConfig::default());
    assert!(t.handle_word("  \t ", 5).is_none());
    assert!(t.force_finalize().is_none());
    let u = t.handle_word("  hi  ", 7).expect("first word emits");
    assert_update(&u, "hi", 7, None, false);
}

#[test]
fn finalize_on_empty_buffer_yields_nothing() {
    let mut t = TranscriptTracker::new(TrackerConfig::default());
    assert!(t.force_finalize().is_none());
    // The tracker is still idle and usable: the next word opens a segment
    // with its own start time.
    let u = t.handle_word("next", 777).expect("first word emits");
    assert_eq!(u.start_time, 777);
}

#[test]
fn stop_time_is_clamped_to_start() {
    let mut t = TranscriptTracker::new(TrackerConfig::default());
    // An end-of-word before any word leaves a stale stop time behind.
    assert!(t.handle_end_word(100).is_none());
    let u = t.handle_word("hi", 500).expect("first word emits");
    assert_update(&u, "hi", 500, Some(100), false);
    let u = t.force_finalize().expect("open segment finalizes");
    // Resolved stop 100 precedes start 500, so it is clamped to 500 exactly.
    assert_update(&u, "hi", 500, Some(500), true);
}

#[test]
fn fallback_stop_prefers_last_voice_then_clock() {
    // Last voiced instant wins when there is one.
    let mut t = TranscriptTracker::new(TrackerConfig::default());
    assert!(t.ingest_audio(&vec![1000; 480]).is_empty());
    t.handle_word("word", 100);
    let u = t.force_finalize().expect("open segment finalizes");
    assert_update(&u, "word", 100, Some(480), true);
    // With no voice ever, a clock that has advanced is used instead.
    let mut t = TranscriptTracker::new(TrackerConfig::default());
    assert!(t.ingest_audio(&vec![0; 480]).is_empty());
    t.handle_word("word", 100);
    let u = t.force_finalize().expect("open segment finalizes");
    assert_update(&u, "word", 100, Some(480), true);
    // With nothing at all, the final update carries no stop time.
    let mut t = TranscriptTracker::new(TrackerConfig::default());
    t.handle_word("word", 100);
    let u = t.force_finalize().expect("open segment finalizes");
    assert_update(&u, "word", 100, None, true);
}

#[test]
fn silence_timer_finalizes_open_segment() {
    let mut t = TranscriptTracker::new(TrackerConfig::default());
    // One voiced frame, then a word.
    assert!(t.ingest_audio(&vec![1000; 480]).is_empty());
    assert!(t.handle_word("hey", 0).is_some());
    // 0.6 s of silence flips the detector out of speech, but 14400 samples
    // past the last voiced instant is still short of finalize_after.
    assert!(t.ingest_audio(&vec![0; 14400]).is_empty());
    // Reaching 19200 samples past the last voiced instant finalizes, with
    // the last voiced instant as the stop time.
    let updates = t.ingest_audio(&vec![0; 4800]);
    assert_eq!(updates.len(), 1);
    assert_update(&updates[0], "hey", 0, Some(480), true);
    // The segment is gone; more silence reports nothing.
    assert!(t.ingest_audio(&vec![0; 4800]).is_empty());
    assert!(t.force_finalize().is_none());
}

#[test]
fn silence_timer_ignores_empty_buffer() {
    let mut t = TranscriptTracker::new(TrackerConfig::default());
    // Voice, then far more than enough silence — but no words arrived.
    assert!(t.ingest_audio(&vec![1000; 480]).is_empty());
    assert!(t.ingest_audio(&vec![0; 48000]).is_empty());
}

#[test]
fn finalize_keeps_detector_clock_but_reset_clears_it() {
    let mut t = TranscriptTracker::new(TrackerConfig::default());
    assert!(t.ingest_audio(&vec![1000; 480]).is_empty());
    t.handle_word("one", 0);
    let u = t.force_finalize().expect("open segment finalizes");
    assert_eq!(u.stop_time, Some(480));
    // The detector's clock kept running across the finalize: a new segment
    // falls back to the same last voiced instant.
    t.handle_word("two", 100);
    let u = t.force_finalize().expect("open segment finalizes");
    assert_eq!(u.stop_time, Some(480));
    // After a full reset the detector has no time and no voice to offer.
    t.handle_word("three", 100);
    t.reset();
    assert!(t.force_finalize().is_none());
    t.handle_word("four", 100);
    let u = t.force_finalize().expect("open segment finalizes");
    assert_eq!(u.stop_time, None);
}

#[test]
fn word_after_finalize_starts_a_fresh_segment() {
    let mut t = TranscriptTracker::new(TrackerConfig::default());
    t.handle_word("first", 10);
    t.handle_end_word(20);
    t.force_finalize();
    let u = t.handle_word("second", 30).expect("first word emits");
    // The old text, start time and stop time are all gone.
    assert_update(&u, "second", 30, None, false);
}
