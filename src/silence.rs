//! The silence filter: decides sample by sample what a capture session keeps,
//! dropping long runs of quiet samples.

use vstd::prelude::*;

verus! {

/// Magnitude of a PCM sample.
pub open spec fn amplitude(s: i16) -> int {
    if s < 0 {
        -(s as int)
    } else {
        s as int
    }
}

/// Silence-removal settings read by the filter of one capture session.
#[derive(Clone, Copy, Debug, PartialEq, Eq, Structural)]
pub struct SilenceConfig {
    /// Whether quiet runs are removed at all.
    pub enabled: bool,
    /// A sample whose amplitude is strictly above this value is sound.
    pub threshold: u16,
    /// Number of consecutive quiet samples after which the filter closes.
    pub min_silence_duration: usize,
}

/// Default threshold: one hundredth of full scale.
pub const DEFAULT_SILENCE_THRESHOLD: u16 = 328;

/// Default length of a quiet run before the filter closes.
pub const DEFAULT_MIN_SILENCE_DURATION: usize = 1000;

/// Default settings: removal off, default threshold and run length.
pub open spec fn default_silence_config() -> SilenceConfig {
    SilenceConfig {
        enabled: false,
        threshold: DEFAULT_SILENCE_THRESHOLD,
        min_silence_duration: DEFAULT_MIN_SILENCE_DURATION,
    }
}

impl Default for SilenceConfig {
    fn default() -> (r: Self)
        ensures
            r == default_silence_config(),
    {
        SilenceConfig {
            enabled: false,
            threshold: DEFAULT_SILENCE_THRESHOLD,
            min_silence_duration: DEFAULT_MIN_SILENCE_DURATION,
        }
    }
}

/// Mathematical state of the filter: the length of the current quiet run and
/// whether the filter has closed.
pub struct GatePhase {
    pub run_len: nat,
    pub in_silence: bool,
}

/// The state at the start of every session.
pub open spec fn open_phase() -> GatePhase {
    GatePhase { run_len: 0, in_silence: false }
}

/// Whether the filter keeps sample `s` in phase `p`.
pub open spec fn step_keeps(cfg: SilenceConfig, p: GatePhase, s: i16) -> bool {
    if !cfg.enabled {
        true
    } else if amplitude(s) > cfg.threshold {
        true
    } else if p.in_silence {
        false
    } else {
        p.run_len + 1 < cfg.min_silence_duration
    }
}

/// The phase after the filter has seen sample `s` in phase `p`.
pub open spec fn step_phase(cfg: SilenceConfig, p: GatePhase, s: i16) -> GatePhase {
    if !cfg.enabled {
        p
    } else if amplitude(s) > cfg.threshold {
        if p.in_silence {
            open_phase()
        } else {
            p
        }
    } else if p.in_silence {
        p
    } else {
        GatePhase {
            run_len: p.run_len + 1,
            in_silence: p.run_len + 1 >= cfg.min_silence_duration,
        }
    }
}

/// The samples of `s` that the filter keeps, starting in phase `p`, and the
/// phase it ends in.
pub open spec fn gate_run(cfg: SilenceConfig, p: GatePhase, s: Seq<i16>) -> (Seq<i16>, GatePhase)
    decreases s.len(),
{
    if s.len() == 0 {
        (Seq::empty(), p)
    } else {
        let (kept, q) = gate_run(cfg, p, s.drop_last());
        let x = s.last();
        (if step_keeps(cfg, q, x) {
            kept.push(x)
        } else {
            kept
        }, step_phase(cfg, q, x))
    }
}

/// What a session retains from blocks delivered one after another to a filter
/// that starts in phase `p`, and the phase it ends in.
pub open spec fn capture_run(cfg: SilenceConfig, p: GatePhase, blocks: Seq<Seq<i16>>) -> (
    Seq<i16>,
    GatePhase,
)
    decreases blocks.len(),
{
    if blocks.len() == 0 {
        (Seq::empty(), p)
    } else {
        let (kept, q) = capture_run(cfg, p, blocks.drop_last());
        let (more, r) = gate_run(cfg, q, blocks.last());
        (kept + more, r)
    }
}

/// Feeding the filter two pieces one after the other keeps the same samples, and
/// ends in the same phase, as feeding it their concatenation.
pub proof fn lemma_gate_run_concat(cfg: SilenceConfig, p: GatePhase, a: Seq<i16>, b: Seq<i16>)
    ensures
        gate_run(cfg, p, a + b) == ({
            let (ka, pa) = gate_run(cfg, p, a);
            let (kb, pb) = gate_run(cfg, pa, b);
            (ka + kb, pb)
        }),
    decreases b.len(),
{
    if b.len() == 0 {
        assert(a + b =~= a);
        let (ka, pa) = gate_run(cfg, p, a);
        assert(ka + Seq::<i16>::empty() =~= ka);
    } else {
        assert((a + b).drop_last() =~= a + b.drop_last());
        assert((a + b).last() == b.last());
        lemma_gate_run_concat(cfg, p, a, b.drop_last());
        let (ka, pa) = gate_run(cfg, p, a);
        let (kb1, pb1) = gate_run(cfg, pa, b.drop_last());
        assert((ka + kb1).push(b.last()) =~= ka + kb1.push(b.last()));
    }
}

/// Block boundaries do not matter: what a session retains from a series of
/// blocks is what the filter keeps from their concatenation.
pub proof fn lemma_capture_run_is_gate_run(cfg: SilenceConfig, p: GatePhase, blocks: Seq<Seq<i16>>)
    ensures
        capture_run(cfg, p, blocks) == gate_run(cfg, p, blocks.flatten_alt()),
    decreases blocks.len(),
{
    if blocks.len() == 0 {
    } else {
        lemma_capture_run_is_gate_run(cfg, p, blocks.drop_last());
        lemma_gate_run_concat(cfg, p, blocks.drop_last().flatten_alt(), blocks.last());
    }
}

/// With silence removal disabled the filter keeps every sample and its phase
/// does not move.
pub proof fn lemma_disabled_gate_keeps_all(cfg: SilenceConfig, p: GatePhase, s: Seq<i16>)
    requires
        !cfg.enabled,
    ensures
        gate_run(cfg, p, s) == (s, p),
    decreases s.len(),
{
    if s.len() > 0 {
        lemma_disabled_gate_keeps_all(cfg, p, s.drop_last());
        assert(s.drop_last().push(s.last()) =~= s);
    }
}

/// With silence removal disabled a session retains exactly the concatenation
/// of all delivered blocks, whatever their amplitudes.
pub proof fn lemma_disabled_capture_retains_all_blocks(
    cfg: SilenceConfig,
    p: GatePhase,
    blocks: Seq<Seq<i16>>,
)
    requires
        !cfg.enabled,
    ensures
        capture_run(cfg, p, blocks).0 == blocks.flatten(),
{
    lemma_capture_run_is_gate_run(cfg, p, blocks);
    lemma_disabled_gate_keeps_all(cfg, p, blocks.flatten_alt());
    blocks.lemma_flatten_and_flatten_alt_are_equivalent();
}

/// A sample at or below the threshold.
pub open spec fn is_quiet(cfg: SilenceConfig, s: i16) -> bool {
    amplitude(s) <= cfg.threshold
}

/// A quiet run that starts with an empty counter keeps its first `D - 1`
/// samples, where `D` is the configured run length, and the filter is closed
/// from the `D`-th sample on.
proof fn lemma_quiet_run_prefix(cfg: SilenceConfig, s: Seq<i16>)
    requires
        cfg.enabled,
        cfg.min_silence_duration >= 1,
        forall|i: int| 0 <= i < s.len() ==> is_quiet(cfg, #[trigger] s[i]),
    ensures
        s.len() < cfg.min_silence_duration ==> gate_run(cfg, open_phase(), s) == (
            s,
            GatePhase { run_len: s.len(), in_silence: false },
        ),
        s.len() >= cfg.min_silence_duration ==> gate_run(cfg, open_phase(), s).0 == s.subrange(
            0,
            cfg.min_silence_duration - 1,
        ),
        s.len() >= cfg.min_silence_duration ==> gate_run(cfg, open_phase(), s).1.in_silence,
    decreases s.len(),
{
    if s.len() > 0 {
        let d = cfg.min_silence_duration as int;
        lemma_quiet_run_prefix(cfg, s.drop_last());
        assert(is_quiet(cfg, s[s.len() - 1]));
        if s.len() < d {
            assert(s.drop_last().push(s.last()) =~= s);
        } else if s.len() == d {
            assert(s.drop_last() =~= s.subrange(0, d - 1));
        }
    }
}

/// With silence removal enabled and a run length `D >= 1`, a run of quiet
/// samples that starts on an open filter with an empty counter keeps its first
/// `D - 1` samples, drops the `D`-th and every quiet sample after it, and the
/// first sample above the threshold is kept again and reopens the filter.
pub proof fn lemma_quiet_run_closes_gate(cfg: SilenceConfig, s: Seq<i16>, loud: i16)
    requires
        cfg.enabled,
        cfg.min_silence_duration >= 1,
        s.len() >= cfg.min_silence_duration,
        forall|i: int| 0 <= i < s.len() ==> is_quiet(cfg, #[trigger] s[i]),
        !is_quiet(cfg, loud),
    ensures
        gate_run(cfg, open_phase(), s).0 == s.subrange(0, cfg.min_silence_duration - 1),
        gate_run(cfg, open_phase(), s).1.in_silence,
        gate_run(cfg, open_phase(), s.push(loud)) == (
            s.subrange(0, cfg.min_silence_duration - 1).push(loud),
            open_phase(),
        ),
{
    lemma_quiet_run_prefix(cfg, s);
    assert(s.push(loud).drop_last() =~= s);
}

/// The filter of one capture session: its settings and its run counter.
#[derive(Clone, Copy, Debug)]
pub struct SilenceGate {
    config: SilenceConfig,
    run_len: usize,
    in_silence: bool,
}

impl SilenceGate {
    pub closed spec fn config_spec(&self) -> SilenceConfig {
        self.config
    }

    pub closed spec fn phase(&self) -> GatePhase {
        GatePhase { run_len: self.run_len as nat, in_silence: self.in_silence }
    }

    /// The counter cannot overflow: while the filter is open the run is shorter
    /// than the configured length (or empty).
    pub closed spec fn wf(&self) -> bool {
        !self.in_silence ==> (self.run_len == 0 || self.run_len < self.config.min_silence_duration)
    }

    /// A filter for a new session, open and with an empty run.
    pub fn new(config: SilenceConfig) -> (r: Self)
        ensures
            r.wf(),
            r.config_spec() == config,
            r.phase() == open_phase(),
    {
        SilenceGate { config, run_len: 0, in_silence: false }
    }

    /// The settings this filter applies.
    pub fn config(&self) -> (r: SilenceConfig)
        ensures
            r == self.config_spec(),
    {
        self.config
    }

    /// Decides whether to keep one sample and advances the run counter.
    pub fn keep_sample(&mut self, s: i16) -> (keep: bool)
        requires
            old(self).wf(),
        ensures
            final(self).wf(),
            final(self).config_spec() == old(self).config_spec(),
            keep == step_keeps(old(self).config_spec(), old(self).phase(), s),
            final(self).phase() == step_phase(old(self).config_spec(), old(self).phase(), s),
    {
        if !self.config.enabled {
            return true;
        }
        let amp: i32 = if s < 0 {
            -(s as i32)
        } else {
            s as i32
        };
        if amp > self.config.threshold as i32 {
            if self.in_silence {
                self.run_len = 0;
                self.in_silence = false;
            }
            true
        } else if self.in_silence {
            false
        } else {
            self.run_len = self.run_len + 1;
            if self.run_len >= self.config.min_silence_duration {
                self.in_silence = true;
                false
            } else {
                true
            }
        }
    }

    /// Filters one delivered block, returning the samples to keep in order.
    pub fn filter_block(&mut self, data: &[i16]) -> (kept: Vec<i16>)
        requires
            old(self).wf(),
        ensures
            final(self).wf(),
            final(self).config_spec() == old(self).config_spec(),
            (kept@, final(self).phase()) == gate_run(old(self).config_spec(), old(self).phase(), data@),
    {
        let mut kept: Vec<i16> = Vec::with_capacity(data.len());
        let mut i: usize = 0;
        while i < data.len()
            invariant
                self.wf(),
                self.config_spec() == old(self).config_spec(),
                i <= data.len(),
                (kept@, self.phase()) == gate_run(
                    old(self).config_spec(),
                    old(self).phase(),
                    data@.subrange(0, i as int),
                ),
            decreases data.len() - i,
        {
            let x = data[i];
            proof {
                assert(data@.subrange(0, i + 1).drop_last() =~= data@.subrange(0, i as int));
            }
            if self.keep_sample(x) {
                kept.push(x);
            }
            i = i + 1;
        }
        proof {
            assert(data@.subrange(0, data@.len() as int) =~= data@);
        }
        kept
    }
}

} // verus!
