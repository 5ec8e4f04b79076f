//! Energy-based voice-activity detection over fixed-length audio frames.
//!
//! The clock counts samples: every processed frame advances `current_time`
//! by `frame_length`, so a timestamp of `n` means `n / sample_rate` seconds.
//! Amplitudes are fixed-point integers; a frame is voiced when the sum of
//! its squared samples reaches `energy_threshold * frame_length`, that is,
//! when the mean squared amplitude reaches the threshold.

use vstd::prelude::*;

verus! {

/// Default sample rate, in samples per second.
pub const DEFAULT_SAMPLE_RATE: usize = 24000;

/// Default frame length, in samples (20 ms at 24 kHz).
pub const DEFAULT_FRAME_LENGTH: usize = 480;

/// Default energy threshold, in squared-amplitude units. With amplitudes
/// scaled to units of 1/32768 of full scale this is a mean squared
/// amplitude of about 7.5e-4.
pub const DEFAULT_ENERGY_THRESHOLD: u64 = 805306;

/// Default minimum silence duration, in samples (0.6 s at 24 kHz).
pub const DEFAULT_MIN_SILENCE: u64 = 14400;

#[derive(Debug, Clone)]
pub struct VadConfig {
    /// Samples per second; zero disables processing.
    pub sample_rate: usize,
    /// Samples per frame; zero disables processing.
    pub frame_length: usize,
    /// A frame is voiced when its mean squared amplitude reaches this.
    pub energy_threshold: u64,
    /// Silence must last this many samples before speech is considered ended.
    pub min_silence_duration: u64,
}

/// The default detector configuration as a value.
pub open spec fn default_vad_config() -> VadConfig {
    VadConfig {
        sample_rate: DEFAULT_SAMPLE_RATE,
        frame_length: DEFAULT_FRAME_LENGTH,
        energy_threshold: DEFAULT_ENERGY_THRESHOLD,
        min_silence_duration: DEFAULT_MIN_SILENCE,
    }
}

impl Default for VadConfig {
    /// The default configuration: 20 ms frames at 24 kHz, 0.6 s hysteresis.
    fn default() -> (c: Self)
        ensures
            c == default_vad_config(),
    {
        VadConfig {
            sample_rate: DEFAULT_SAMPLE_RATE,
            frame_length: DEFAULT_FRAME_LENGTH,
            energy_threshold: DEFAULT_ENERGY_THRESHOLD,
            min_silence_duration: DEFAULT_MIN_SILENCE,
        }
    }
}

/// An event reported by `process`.
#[derive(Debug, Clone, Copy, PartialEq, Eq, Structural)]
pub enum VadEvent {
    /// Speech ended; `end_time` is the end instant of the last voiced frame.
    SpeechEnded { end_time: u64 },
}

/// The timing state of a detector: the mathematical view of `EnergyVad`,
/// less the residual samples.
pub ghost struct VadState {
    /// The audio-derived clock, in samples.
    pub time: int,
    /// Whether the detector is currently inside a voiced region.
    pub in_speech: bool,
    /// How much silence has accumulated since the last voiced frame.
    pub silence: int,
    /// End instant of the most recent voiced frame; zero if none yet.
    pub last_voice: int,
}

/// The state of a freshly created or reset detector.
pub open spec fn initial_state() -> VadState {
    VadState { time: 0, in_speech: false, silence: 0, last_voice: 0 }
}

/// Whether the configuration allows frame processing at all.
pub open spec fn vad_enabled(cfg: VadConfig) -> bool {
    cfg.frame_length > 0 && cfg.sample_rate > 0
}

/// Sanity bounds that every reachable detector state satisfies.
pub open spec fn state_wf(s: VadState) -> bool {
    &&& 0 <= s.silence <= s.time
    &&& 0 <= s.last_voice <= s.time
    &&& s.time <= u64::MAX
}

/// The sum of squared amplitudes of a frame.
pub open spec fn frame_energy(frame: Seq<i32>) -> int
    decreases frame.len(),
{
    if frame.len() == 0 {
        0
    } else {
        frame_energy(frame.drop_last()) + (frame.last() as int) * (frame.last() as int)
    }
}

/// Whether a frame's mean squared amplitude reaches the threshold.
pub open spec fn frame_voiced(cfg: VadConfig, frame: Seq<i32>) -> bool {
    frame_energy(frame) >= cfg.energy_threshold * cfg.frame_length
}

/// How one classified frame changes the state: the clock always advances by
/// one frame; a voiced frame (re)enters speech and stamps `last_voice`; a
/// silent frame inside speech grows the accumulator and, once it reaches
/// the minimum silence duration, ends speech and reports `last_voice`.
pub open spec fn vad_step(cfg: VadConfig, s: VadState, frame: Seq<i32>) -> (VadState, Option<
    int,
>) {
    let t2 = s.time + cfg.frame_length;
    if frame_voiced(cfg, frame) {
        (VadState { time: t2, in_speech: true, silence: 0, last_voice: t2 }, None)
    } else if s.in_speech {
        let s2 = s.silence + cfg.frame_length;
        if s2 >= cfg.min_silence_duration {
            (
                VadState { time: t2, in_speech: false, silence: 0, last_voice: s.last_voice },
                Some(s.last_voice),
            )
        } else {
            (VadState { time: t2, in_speech: true, silence: s2, last_voice: s.last_voice }, None)
        }
    } else {
        (
            VadState { time: t2, in_speech: false, silence: s.silence, last_voice: s.last_voice },
            None,
        )
    }
}

/// The outcome of running the detector over queued samples.
pub ghost struct VadRun {
    /// The timing state afterwards.
    pub state: VadState,
    /// The samples left over, less than one frame's worth.
    pub rest: Seq<i32>,
    /// The end times of the speech-ended events, in order.
    pub events: Seq<int>,
}

/// Runs `vad_step` over `queue`, one full frame at a time in arrival order,
/// keeping the remainder.
pub open spec fn vad_run(cfg: VadConfig, s: VadState, queue: Seq<i32>) -> VadRun
    decreases queue.len(),
{
    if cfg.frame_length <= 0 || queue.len() < cfg.frame_length {
        VadRun { state: s, rest: queue, events: Seq::empty() }
    } else {
        let step = vad_step(cfg, s, queue.take(cfg.frame_length as int));
        let r = vad_run(cfg, step.0, queue.skip(cfg.frame_length as int));
        VadRun {
            state: r.state,
            rest: r.rest,
            events: match step.1 {
                Some(t) => Seq::empty().push(t) + r.events,
                None => r.events,
            },
        }
    }
}

/// What `process` does with state `s`, residual samples `pending` and fresh
/// input: empty input is a no-op, a disabled configuration only queues the
/// input, and otherwise every completed frame is classified.
pub open spec fn vad_process_spec(
    cfg: VadConfig,
    s: VadState,
    pending: Seq<i32>,
    input: Seq<i32>,
) -> VadRun {
    if input.len() == 0 {
        VadRun { state: s, rest: pending, events: Seq::empty() }
    } else if !vad_enabled(cfg) {
        VadRun { state: s, rest: pending + input, events: Seq::empty() }
    } else {
        vad_run(cfg, s, pending + input)
    }
}

/// Whether every complete frame of `queue`, taken in arrival order, is
/// below the energy threshold.
pub open spec fn all_frames_silent(cfg: VadConfig, queue: Seq<i32>) -> bool
    decreases queue.len(),
{
    if cfg.frame_length <= 0 || queue.len() < cfg.frame_length {
        true
    } else {
        &&& !frame_voiced(cfg, queue.take(cfg.frame_length as int))
        &&& all_frames_silent(cfg, queue.skip(cfg.frame_length as int))
    }
}

/// A frame whose mean squared amplitude reaches the threshold always
/// (re)enters speech and stamps `last_voice` with that frame's end instant;
/// in particular the first voiced frame a detector sees flips `in_speech`
/// to true and sets `last_voice` to the end of that frame.
pub proof fn lemma_voiced_frame_enters_speech(cfg: VadConfig, s: VadState, frame: Seq<i32>)
    requires
        frame_voiced(cfg, frame),
    ensures
        ({
            let r = vad_step(cfg, s, frame);
            &&& r.0.in_speech
            &&& r.0.last_voice == s.time + cfg.frame_length
            &&& r.1 is None
        }),
{
}

/// Silent audio reaching a detector that is already out of speech produces
/// no events and leaves `in_speech` and `last_voice` untouched.
pub proof fn lemma_silent_run_stays_quiet(cfg: VadConfig, s: VadState, queue: Seq<i32>)
    requires
        all_frames_silent(cfg, queue),
        !s.in_speech,
    ensures
        ({
            let r = vad_run(cfg, s, queue);
            &&& r.events.len() == 0
            &&& !r.state.in_speech
            &&& r.state.last_voice == s.last_voice
        }),
    decreases queue.len(),
{
    if !(cfg.frame_length <= 0 || queue.len() < cfg.frame_length) {
        let step = vad_step(cfg, s, queue.take(cfg.frame_length as int));
        lemma_silent_run_stays_quiet(cfg, step.0, queue.skip(cfg.frame_length as int));
    }
}

/// After entering speech, consecutive below-threshold frames whose total
/// duration reaches the minimum silence duration produce exactly one
/// speech-ended event, carrying the end instant of the most recent voiced
/// frame, and no further events for as long as the silence lasts.
pub proof fn lemma_sustained_silence_single_event(
    cfg: VadConfig,
    s: VadState,
    queue: Seq<i32>,
    n: nat,
)
    requires
        vad_enabled(cfg),
        s.in_speech,
        0 <= s.silence,
        all_frames_silent(cfg, queue),
        queue.len() == n * cfg.frame_length,
        s.silence + n * cfg.frame_length >= cfg.min_silence_duration,
        n >= 1,
    ensures
        ({
            let r = vad_run(cfg, s, queue);
            &&& r.events == seq![s.last_voice]
            &&& !r.state.in_speech
            &&& r.state.last_voice == s.last_voice
        }),
    decreases n,
{
    let fl = cfg.frame_length as int;
    assert(queue.len() >= fl) by (nonlinear_arith)
        requires
            n >= 1,
            queue.len() == n * fl,
            fl > 0,
    ;
    let frame = queue.take(fl);
    let step = vad_step(cfg, s, frame);
    let rest = queue.skip(fl);
    assert(rest.len() == (n - 1) * fl) by (nonlinear_arith)
        requires
            queue.len() == n * fl,
            rest.len() == queue.len() - fl,
    ;
    if s.silence + fl >= cfg.min_silence_duration {
        lemma_silent_run_stays_quiet(cfg, step.0, rest);
        assert(vad_run(cfg, s, queue).events =~= seq![s.last_voice]);
    } else {
        assert(n >= 2) by (nonlinear_arith)
            requires
                s.silence + fl < cfg.min_silence_duration,
                s.silence + n * fl >= cfg.min_silence_duration,
                fl > 0,
                n >= 1,
        ;
        assert(step.0.silence + (n - 1) * fl >= cfg.min_silence_duration) by (nonlinear_arith)
            requires
                step.0.silence == s.silence + fl,
                s.silence + n * fl >= cfg.min_silence_duration,
                n >= 1,
        ;
        lemma_sustained_silence_single_event(cfg, step.0, rest, (n - 1) as nat);
        assert(vad_run(cfg, s, queue).events =~= seq![s.last_voice]);
    }
}

/// The end times carried by a sequence of events.
pub open spec fn event_times(s: Seq<VadEvent>) -> Seq<int>
    decreases s.len(),
{
    if s.len() == 0 {
        Seq::empty()
    } else {
        event_times(s.drop_last()).push(
            match s.last() {
                VadEvent::SpeechEnded { end_time } => end_time as int,
            },
        )
    }
}

/// The voice-activity detector: slices incoming audio into frames, keeps a
/// sample-counting clock, and classifies voiced against silent regions with
/// hysteresis.
#[derive(Debug, Clone)]
pub struct EnergyVad {
    cfg: VadConfig,
    buffer: Vec<i32>,
    current_time: u64,
    in_speech: bool,
    silence_accumulator: u64,
    last_voice_time: u64,
}

impl View for EnergyVad {
    type V = VadState;

    closed spec fn view(&self) -> VadState {
        VadState {
            time: self.current_time as int,
            in_speech: self.in_speech,
            silence: self.silence_accumulator as int,
            last_voice: self.last_voice_time as int,
        }
    }
}

impl EnergyVad {
    /// The configuration the detector was created with.
    pub closed spec fn config(&self) -> VadConfig {
        self.cfg
    }

    /// The residual samples that do not yet form a complete frame.
    pub closed spec fn pending(&self) -> Seq<i32> {
        self.buffer@
    }

    /// Bounds and residual-size invariant, kept by every operation.
    pub open spec fn wf(&self) -> bool {
        &&& state_wf(self@)
        &&& vad_enabled(self.config()) ==> self.pending().len() < self.config().frame_length
    }

    /// A fresh detector with a zeroed clock and no residual samples.
    pub fn new(cfg: VadConfig) -> (v: Self)
        ensures
            v.config() == cfg,
            v@ == initial_state(),
            v.pending() == Seq::<i32>::empty(),
            v.wf(),
    {
        EnergyVad {
            cfg,
            buffer: Vec::new(),
            current_time: 0,
            in_speech: false,
            silence_accumulator: 0,
            last_voice_time: 0,
        }
    }

    /// Clears the residual queue and all timing state; the configuration
    /// stays.
    pub fn reset(&mut self)
        ensures
            final(self).config() == old(self).config(),
            final(self)@ == initial_state(),
            final(self).pending() == Seq::<i32>::empty(),
            final(self).wf(),
    {
        self.buffer.clear();
        self.current_time = 0;
        self.in_speech = false;
        self.silence_accumulator = 0;
        self.last_voice_time = 0;
    }

    /// The audio-derived clock, in samples.
    pub fn current_time(&self) -> (t: u64)
        ensures
            t == self@.time,
    {
        self.current_time
    }

    /// End instant of the most recent voiced frame, in samples; zero if no
    /// frame was ever voiced.
    pub fn last_voice_time(&self) -> (t: u64)
        ensures
            t == self@.last_voice,
    {
        self.last_voice_time
    }

    /// Whether the detector is currently inside a voiced region.
    pub fn in_speech(&self) -> (b: bool)
        ensures
            b == self@.in_speech,
    {
        self.in_speech
    }

    /// Queues `pcm` behind the residual samples and classifies every
    /// completed frame, advancing the clock by one frame length per frame;
    /// returns the speech-ended events in order. Empty input and disabled
    /// configurations change nothing but the queue.
    pub fn process(&mut self, pcm: &[i32]) -> (events: Vec<VadEvent>)
        requires
            old(self).wf(),
            old(self)@.time + old(self).pending().len() + pcm@.len() <= u64::MAX,
        ensures
            final(self).wf(),
            final(self).config() == old(self).config(),
            ({
                let r = vad_process_spec(
                    old(self).config(),
                    old(self)@,
                    old(self).pending(),
                    pcm@,
                );
                &&& final(self)@ == r.state
                &&& final(self).pending() == r.rest
                &&& event_times(events@) == r.events
            }),
            old(self)@.time <= final(self)@.time,
    {
        let mut events: Vec<VadEvent> = Vec::new();
        if pcm.len() == 0 {
            return events;
        }
        let ghost orig_buf = self.buffer@;
        let mut i: usize = 0;
        while i < pcm.len()
            invariant
                i <= pcm@.len(),
                self.buffer@ == orig_buf + pcm@.take(i as int),
                self@ == old(self)@,
                self.cfg == old(self).config(),
            decreases pcm@.len() - i,
        {
            self.buffer.push(pcm[i]);
            i = i + 1;
        }
        proof {
            assert(self.buffer@ =~= orig_buf + pcm@);
        }
        if self.cfg.frame_length == 0 || self.cfg.sample_rate == 0 {
            return events;
        }
        let frame_len: usize = self.cfg.frame_length;
        let queue_len: usize = self.buffer.len();
        let ghost cfg = self.cfg;
        let ghost queue = orig_buf + pcm@;
        let ghost s0 = old(self)@;
        let mut time: u64 = self.current_time;
        let mut in_speech: bool = self.in_speech;
        let mut silence: u64 = self.silence_accumulator;
        let mut last_voice: u64 = self.last_voice_time;
        let mut start: usize = 0;
        proof {
            assert(queue.skip(0) =~= queue);
            assert(event_times(events@) + vad_run(cfg, s0, queue).events =~= vad_run(
                cfg,
                s0,
                queue,
            ).events);
        }
        while self.buffer.len() - start >= frame_len
            invariant
                vad_enabled(cfg),
                frame_len == cfg.frame_length,
                self.cfg == cfg,
                self.buffer@ == queue,
                queue.len() == queue_len,
                start <= queue.len(),
                silence <= time,
                last_voice <= time,
                s0.time <= time as int,
                time + (queue.len() - start) <= u64::MAX,
                ({
                    let cur = VadState {
                        time: time as int,
                        in_speech: in_speech,
                        silence: silence as int,
                        last_voice: last_voice as int,
                    };
                    let r = vad_run(cfg, cur, queue.skip(start as int));
                    let total = vad_run(cfg, s0, queue);
                    &&& total.state == r.state
                    &&& total.rest == r.rest
                    &&& total.events == event_times(events@) + r.events
                }),
            decreases queue.len() - start,
        {
            let ghost frame = queue.subrange(start as int, start as int + frame_len as int);
            let mut sum: u128 = 0;
            let mut j: usize = 0;
            while j < frame_len
                invariant
                    j <= frame_len,
                    queue.len() == queue_len,
                    start as int + frame_len as int <= queue.len(),
                    self.buffer@ == queue,
                    frame == queue.subrange(start as int, start as int + frame_len as int),
                    sum == frame_energy(frame.take(j as int)),
                    sum <= (j as int) * 0x4000_0000_0000_0000,
                decreases frame_len - j,
            {
                let sample = self.buffer[start + j];
                proof {
                    let sv = sample as int;
                    assert(0 <= sv * sv <= 0x4000_0000_0000_0000) by (nonlinear_arith)
                        requires
                            -0x8000_0000 <= sv <= 0x7fff_ffff,
                    ;
                    assert((j as int + 1) * 0x4000_0000_0000_0000 == (j as int)
                        * 0x4000_0000_0000_0000 + 0x4000_0000_0000_0000) by (nonlinear_arith);
                    assert((j as int + 1) * 0x4000_0000_0000_0000 <= 0xffff_ffff_ffff_ffff
                        * 0x4000_0000_0000_0000) by (nonlinear_arith)
                        requires
                            j as int + 1 <= 0xffff_ffff_ffff_ffff,
                    ;
                }
                let sq: i64 = (sample as i64) * (sample as i64);
                sum = sum + (sq as u128);
                proof {
                    assert(frame.take(j as int + 1).drop_last() =~= frame.take(j as int));
                    assert(frame.take(j as int + 1).last() == frame[j as int]);
                    assert(frame[j as int] == queue[start as int + j as int]);
                }
                j = j + 1;
            }
            proof {
                assert(frame.take(frame_len as int) =~= frame);
                assert((cfg.energy_threshold as int) * (frame_len as int) <= 0xffff_ffff_ffff_ffff
                    * 0xffff_ffff_ffff_ffff) by (nonlinear_arith)
                    requires
                        0 <= cfg.energy_threshold as int <= 0xffff_ffff_ffff_ffff,
                        0 <= frame_len as int <= 0xffff_ffff_ffff_ffff,
                ;
            }
            let threshold: u128 = (self.cfg.energy_threshold as u128) * (frame_len as u128);
            let next_time: u64 = time + frame_len as u64;
            let voiced = sum >= threshold;
            let ghost prev = VadState {
                time: time as int,
                in_speech: in_speech,
                silence: silence as int,
                last_voice: last_voice as int,
            };
            let ghost ev0 = events@;
            proof {
                assert(voiced == frame_voiced(cfg, frame));
            }
            if voiced {
                in_speech = true;
                silence = 0;
                last_voice = next_time;
            } else if in_speech {
                let s2: u64 = silence + frame_len as u64;
                if s2 >= self.cfg.min_silence_duration {
                    in_speech = false;
                    silence = 0;
                    events.push(VadEvent::SpeechEnded { end_time: last_voice });
                } else {
                    silence = s2;
                }
            }
            time = next_time;
            start = start + frame_len;
            proof {
                let stepres = vad_step(cfg, prev, frame);
                let cur2 = VadState {
                    time: time as int,
                    in_speech: in_speech,
                    silence: silence as int,
                    last_voice: last_voice as int,
                };
                assert(stepres.0 == cur2);
                let rem = queue.skip(start as int - frame_len as int);
                assert(rem.take(frame_len as int) =~= frame);
                assert(rem.skip(frame_len as int) =~= queue.skip(start as int));
                let rnew = vad_run(cfg, cur2, queue.skip(start as int));
                if stepres.1 is Some {
                    assert(events@ == ev0.push(VadEvent::SpeechEnded { end_time: prev.last_voice as u64 }));
                    assert(events@.drop_last() =~= ev0);
                    assert(event_times(events@) =~= event_times(ev0).push(prev.last_voice));
                    assert(event_times(ev0) + (Seq::empty().push(prev.last_voice) + rnew.events)
                        =~= event_times(events@) + rnew.events);
                } else {
                    assert(events@ == ev0);
                }
            }
        }
        proof {
            let cur = VadState {
                time: time as int,
                in_speech: in_speech,
                silence: silence as int,
                last_voice: last_voice as int,
            };
            assert(event_times(events@) + vad_run(cfg, cur, queue.skip(start as int)).events
                =~= event_times(events@));
        }
        let mut rest_vec: Vec<i32> = Vec::new();
        let mut k: usize = start;
        while k < self.buffer.len()
            invariant
                start <= k <= queue.len(),
                self.buffer@ == queue,
                rest_vec@ == queue.subrange(start as int, k as int),
            decreases queue.len() - k,
        {
            let v = self.buffer[k];
            rest_vec.push(v);
            k = k + 1;
        }
        proof {
            assert(rest_vec@ =~= queue.skip(start as int));
        }
        self.buffer = rest_vec;
        self.current_time = time;
        self.in_speech = in_speech;
        self.silence_accumulator = silence;
        self.last_voice_time = last_voice;
        events
    }
}

} // verus!
