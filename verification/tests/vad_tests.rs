use transcript_core::vad::{EnergyVad, VadConfig, VadEvent};

// Default units: 480-sample frames at 24 kHz; a frame is voiced when its
// mean squared amplitude reaches 805306 (about 7.5e-4 of full scale
// squared), so a constant tone of amplitude 1000 is voiced and one of
// amplitude 100 is not.

fn tone(amplitude: i32, len: usize) -> Vec<i32> {
    vec![amplitude; len]
}

#[test]
fn voiced_first_frame_enters_speech() {
    let mut vad = EnergyVad::new(VadConfig::default());
    assert!(!vad.in_speech());
    let events = vad.process(&tone(1000, 480));
    assert!(events.is_empty());
    assert!(vad.in_speech());
    assert_eq!(vad.current_time(), 480);
    assert_eq!(vad.last_voice_time(), 480);
}

#[test]
fn partial_frames_are_buffered() {
    let mut vad = EnergyVad::new(VadConfig::default());
    let events = vad.process(&tone(1000, 100));
    assert!(events.is_empty());
    assert_eq!(vad.current_time(), 0);
    assert!(!vad.in_speech());
    let events = vad.process(&tone(1000, 380));
    assert!(events.is_empty());
    assert_eq!(vad.current_time(), 480);
    assert!(vad.in_speech());
}

#[test]
fn sustained_silence_emits_exactly_one_event() {
    let mut vad = EnergyVad::new(VadConfig::default());
    vad.process(&tone(1000, 480));
    assert!(vad.in_speech());
    // 0.6 s of silence: thirty silent frames; the event fires on the last.
    let events = vad.process(&tone(0, 14400));
    assert_eq!(events.len(), 1);
    assert_eq!(events[0], VadEvent::SpeechEnded { end_time: 480 });
    assert!(!vad.in_speech());
    assert_eq!(vad.current_time(), 480 + 14400);
    // Further silence produces no more events, but the clock keeps running.
    let events = vad.process(&tone(0, 4800));
    assert!(events.is_empty());
    assert_eq!(vad.current_time(), 480 + 14400 + 4800);
    assert_eq!(vad.last_voice_time(), 480);
}

#[test]
fn silence_shorter_than_minimum_keeps_speech_open() {
    let mut vad = EnergyVad::new(VadConfig::default());
    vad.process(&tone(1000, 480));
    let events = vad.process(&tone(0, 14400 - 480));
    assert!(events.is_empty());
    assert!(vad.in_speech());
    // Voice resumes: the accumulator starts over.
    let events = vad.process(&tone(1000, 480));
    assert!(events.is_empty());
    assert!(vad.in_speech());
    assert_eq!(vad.last_voice_time(), 480 + 14400);
}

#[test]
fn threshold_is_inclusive() {
    // 898^2 = 806404 >= 805306, 897^2 = 804609 < 805306.
    let mut vad = EnergyVad::new(VadConfig::default());
    vad.process(&tone(897, 480));
    assert!(!vad.in_speech());
    vad.process(&tone(898, 480));
    assert!(vad.in_speech());
    assert_eq!(vad.last_voice_time(), 960);
}

#[test]
fn empty_input_is_a_noop() {
    let mut vad = EnergyVad::new(VadConfig::default());
    let events = vad.process(&[]);
    assert!(events.is_empty());
    assert_eq!(vad.current_time(), 0);
}

#[test]
fn degenerate_config_is_inert() {
    let cfg = VadConfig { frame_length: 0, ..VadConfig::default() };
    let mut vad = EnergyVad::new(cfg);
    let events = vad.process(&tone(1000, 4800));
    assert!(events.is_empty());
    assert_eq!(vad.current_time(), 0);
    assert!(!vad.in_speech());
    let cfg = VadConfig { sample_rate: 0, ..VadConfig::default() };
    let mut vad = EnergyVad::new(cfg);
    let events = vad.process(&tone(1000, 4800));
    assert!(events.is_empty());
    assert_eq!(vad.current_time(), 0);
}

#[test]
fn reset_restores_the_initial_state() {
    let mut vad = EnergyVad::new(VadConfig::default());
    vad.process(&tone(1000, 700));
    assert!(vad.in_speech());
    vad.reset();
    assert_eq!(vad.current_time(), 0);
    assert_eq!(vad.last_voice_time(), 0);
    assert!(!vad.in_speech());
    // The residual 220 samples were dropped too: a fresh 480 make one frame.
    vad.process(&tone(1000, 480));
    assert_eq!(vad.current_time(), 480);
}
