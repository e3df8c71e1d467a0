use vstd::prelude::*;

verus! {

/// The three phases of the boot animation, in order.
#[derive(Debug, Clone, Copy, PartialEq, Eq, Structural)]
pub enum BootPhase {
    Ignition,
    PulseLock,
    Reveal,
}

#[derive(Debug, Clone, Copy, PartialEq, Eq, Structural)]
pub enum BootStylePreset {
    Classic,
    NeonStorm,
    CrystalPulse,
}

#[derive(Debug, Clone, Copy, PartialEq, Eq, Structural)]
pub enum BootSequenceRecipe {
    Standard,
    QuickPulse,
    GrandReveal,
}

/// Frames in `phases` that are in `phase`.
pub open spec fn phase_frames(phases: Seq<BootPhase>, phase: BootPhase) -> nat
    decreases phases.len(),
{
    if phases.len() == 0 {
        0
    } else {
        phase_frames(phases.drop_last(), phase) + if phases.last() == phase { 1nat } else { 0nat }
    }
}

proof fn lemma_phase_frames_sum(phases: Seq<BootPhase>)
    ensures
        phase_frames(phases, BootPhase::Ignition) + phase_frames(phases, BootPhase::PulseLock)
            + phase_frames(phases, BootPhase::Reveal) == phases.len(),
    decreases phases.len(),
{
    if phases.len() > 0 {
        lemma_phase_frames_sum(phases.drop_last());
    }
}

/// How many frames of a timeline are in each phase: ignition, pulse lock, reveal.
pub fn phase_counts(phases: &Vec<BootPhase>) -> (r: (usize, usize, usize))
    ensures
        r.0 == phase_frames(phases@, BootPhase::Ignition),
        r.1 == phase_frames(phases@, BootPhase::PulseLock),
        r.2 == phase_frames(phases@, BootPhase::Reveal),
        r.0 + r.1 + r.2 == phases@.len(),
{
    let mut ignition: usize = 0;
    let mut pulse_lock: usize = 0;
    let mut reveal_frames: usize = 0;
    let mut i: usize = 0;
    while i < phases.len()
        invariant
            i <= phases@.len(),
            ignition == phase_frames(phases@.subrange(0, i as int), BootPhase::Ignition),
            pulse_lock == phase_frames(phases@.subrange(0, i as int), BootPhase::PulseLock),
            reveal_frames == phase_frames(phases@.subrange(0, i as int), BootPhase::Reveal),
            ignition + pulse_lock + reveal_frames == i,
        decreases phases@.len() - i,
    {
        assert(phases@.subrange(0, i + 1).drop_last() =~= phases@.subrange(0, i as int));
        match phases[i] {
            BootPhase::Ignition => {
                ignition = ignition + 1;
            },
            BootPhase::PulseLock => {
                pulse_lock = pulse_lock + 1;
            },
            BootPhase::Reveal => {
                reveal_frames = reveal_frames + 1;
            },
        }
        i = i + 1;
    }
    assert(phases@.subrange(0, i as int) =~= phases@);
    proof { lemma_phase_frames_sum(phases@); }
    (ignition, pulse_lock, reveal_frames)
}

/// `v` clamped into `[lo, hi]` (with `lo <= hi`).
pub open spec fn clamp_nat(v: int, lo: int, hi: int) -> int {
    if v < lo {
        lo
    } else if v > hi {
        hi
    } else {
        v
    }
}

/// Where ignition and pulse lock end for a timeline of `total` frames
/// (zero counts as one), given the rounded frame counts that the recipe's
/// ratios ask for. Ignition keeps at least one frame and leaves two when it
/// can; pulse lock keeps at least one frame and leaves one when it can.
pub open spec fn phase_bounds(total: usize, ignition_guess: usize, pulse_lock_guess: usize) -> (
    int,
    int,
) {
    let t: int = if total == 0 { 1 } else { total as int };
    let ig_hi: int = if t - 2 < 1 { 1 } else { t - 2 };
    let ignition_end = clamp_nat(ignition_guess as int, 1, ig_hi);
    let pl_hi: int = if t - 1 < ignition_end + 1 { ignition_end + 1 } else { t - 1 };
    let pulse_lock_end = clamp_nat(pulse_lock_guess as int, ignition_end + 1, pl_hi);
    (ignition_end, pulse_lock_end)
}

/// The ends of the ignition and pulse-lock phases of a timeline.
pub fn boot_phase_bounds(total: usize, ignition_guess: usize, pulse_lock_guess: usize) -> (r: (
    usize,
    usize,
))
    ensures
        r.0 == phase_bounds(total, ignition_guess, pulse_lock_guess).0,
        r.1 == phase_bounds(total, ignition_guess, pulse_lock_guess).1,
        1 <= r.0 < r.1,
{
    let t = if total == 0 { 1 } else { total };
    let ig_hi = if t < 3 { 1 } else { t - 2 };
    let ignition_end = if ignition_guess < 1 {
        1
    } else if ignition_guess > ig_hi {
        ig_hi
    } else {
        ignition_guess
    };
    let pl_lo = ignition_end + 1;
    let pl_hi = if t - 1 < pl_lo { pl_lo } else { t - 1 };
    let pulse_lock_end = if pulse_lock_guess < pl_lo {
        pl_lo
    } else if pulse_lock_guess > pl_hi {
        pl_hi
    } else {
        pulse_lock_guess
    };
    (ignition_end, pulse_lock_end)
}

/// The phase of frame `idx`, its index within the phase, and the phase's
/// length in frames (at least one).
pub open spec fn phase_of_frame(idx: int, ignition_end: int, pulse_lock_end: int, total: int) -> (
    BootPhase,
    int,
    int,
) {
    let ignition_span = if ignition_end < 1 { 1 } else { ignition_end };
    let pulse_lock_span = if pulse_lock_end - ignition_end < 1 { 1 } else { pulse_lock_end - ignition_end };
    let reveal_span = if total - pulse_lock_end < 1 { 1 } else { total - pulse_lock_end };
    if idx < ignition_end {
        (BootPhase::Ignition, idx, ignition_span)
    } else if idx < pulse_lock_end {
        (BootPhase::PulseLock, idx - ignition_end, pulse_lock_span)
    } else {
        (BootPhase::Reveal, idx - pulse_lock_end, reveal_span)
    }
}

/// Frame `idx` of a timeline of `total` frames: its phase, its index within
/// the phase, and the phase's length.
pub fn frame_phase(idx: usize, ignition_end: usize, pulse_lock_end: usize, total: usize) -> (r: (
    BootPhase,
    usize,
    usize,
))
    requires
        ignition_end < pulse_lock_end,
        idx < total,
    ensures
        (r.0, r.1 as int, r.2 as int) == phase_of_frame(
            idx as int,
            ignition_end as int,
            pulse_lock_end as int,
            total as int,
        ),
{
    let ignition_span = if ignition_end < 1 { 1 } else { ignition_end };
    let pulse_lock_span = if pulse_lock_end - ignition_end < 1 { 1 } else { pulse_lock_end - ignition_end };
    let reveal_span = if total <= pulse_lock_end { 1 } else { total - pulse_lock_end };
    if idx < ignition_end {
        (BootPhase::Ignition, idx, ignition_span)
    } else if idx < pulse_lock_end {
        (BootPhase::PulseLock, idx - ignition_end, pulse_lock_span)
    } else {
        (BootPhase::Reveal, idx - pulse_lock_end, reveal_span)
    }
}

/// A timeline of three or more frames passes through all three phases, in
/// order: frame 0 ignites, the frame where ignition ends locks the pulse, and
/// the last frame reveals.
pub proof fn lemma_timeline_covers_all_phases(
    total: usize,
    ignition_guess: usize,
    pulse_lock_guess: usize,
)
    requires
        3 <= total,
    ensures
        ({
            let (ig, pl) = phase_bounds(total, ignition_guess, pulse_lock_guess);
            &&& phase_of_frame(0, ig, pl, total as int).0 == BootPhase::Ignition
            &&& ig < total && phase_of_frame(ig, ig, pl, total as int).0 == BootPhase::PulseLock
            &&& phase_of_frame(total - 1, ig, pl, total as int).0 == BootPhase::Reveal
        }),
{
}

/// Phases never go back: a later frame is never in an earlier phase.
pub proof fn lemma_phases_in_order(a: int, b: int, ignition_end: int, pulse_lock_end: int, total: int)
    requires
        0 <= a <= b,
        ignition_end < pulse_lock_end,
    ensures
        phase_rank(phase_of_frame(a, ignition_end, pulse_lock_end, total).0) <= phase_rank(
            phase_of_frame(b, ignition_end, pulse_lock_end, total).0,
        ),
{
}

pub open spec fn phase_rank(p: BootPhase) -> int {
    match p {
        BootPhase::Ignition => 0,
        BootPhase::PulseLock => 1,
        BootPhase::Reveal => 2,
    }
}

/// The position of the first tick in `ticks` equal to `tick`.
pub open spec fn first_tick_index(ticks: Seq<u64>, tick: u64) -> Option<int>
    decreases ticks.len(),
{
    if ticks.len() == 0 {
        None
    } else if ticks[0] == tick {
        Some(0)
    } else {
        match first_tick_index(ticks.drop_first(), tick) {
            Some(i) => Some(i + 1),
            None => None,
        }
    }
}

/// Which post-effect snapshot of a track belongs to `tick`: the first one
/// stamped with it, given the snapshots' ticks in track order.
pub fn snapshot_index_for_tick(ticks: &Vec<u64>, tick: u64) -> (r: Option<usize>)
    ensures
        match first_tick_index(ticks@, tick) {
            Some(i) => r == Some(i as usize),
            None => r is None,
        },
{
    let mut i: usize = 0;
    assert(ticks@.subrange(0, ticks@.len() as int) =~= ticks@);
    while i < ticks.len()
        invariant
            i <= ticks@.len(),
            first_tick_index(ticks@, tick) == match first_tick_index(
                ticks@.subrange(i as int, ticks@.len() as int),
                tick,
            ) {
                Some(k) => Some(k + i),
                None => None,
            },
        decreases ticks@.len() - i,
    {
        let ghost rest = ticks@.subrange(i as int, ticks@.len() as int);
        assert(rest.drop_first() =~= ticks@.subrange(i + 1, ticks@.len() as int));
        assert(rest[0] == ticks@[i as int]);
        if ticks[i] == tick {
            return Some(i);
        }
        i = i + 1;
    }
    None
}

/// How many of the first `n` frames of a timeline are in `phase`.
pub open spec fn frames_in_phase(n: int, ignition_end: int, pulse_lock_end: int, total: int, phase: BootPhase) -> nat
    decreases n,
{
    if n <= 0 {
        0
    } else {
        frames_in_phase(n - 1, ignition_end, pulse_lock_end, total, phase) + if phase_of_frame(
            n - 1,
            ignition_end,
            pulse_lock_end,
            total,
        ).0 == phase {
            1nat
        } else {
            0nat
        }
    }
}

proof fn lemma_frames_in_phase_counts(n: int, ignition_end: int, pulse_lock_end: int, total: int)
    requires
        0 <= n,
        0 <= ignition_end < pulse_lock_end,
    ensures
        frames_in_phase(n, ignition_end, pulse_lock_end, total, BootPhase::Ignition) == if n
            < ignition_end {
            n
        } else {
            ignition_end
        },
        frames_in_phase(n, ignition_end, pulse_lock_end, total, BootPhase::PulseLock) == if n
            <= ignition_end {
            0
        } else if n < pulse_lock_end {
            n - ignition_end
        } else {
            pulse_lock_end - ignition_end
        },
        frames_in_phase(n, ignition_end, pulse_lock_end, total, BootPhase::Reveal) == if n
            <= pulse_lock_end {
            0
        } else {
            n - pulse_lock_end
        },
    decreases n,
{
    if n > 0 {
        lemma_frames_in_phase_counts(n - 1, ignition_end, pulse_lock_end, total);
    }
}

/// Laid out by its phase ends, a timeline has exactly `ignition_end` ignition
/// frames, then the pulse-lock frames up to `pulse_lock_end`, then the rest
/// revealing. Each frame's index within its phase counts the earlier frames
/// of that phase, and its phase length is the number of frames in the phase,
/// so the index always stays below the length.
pub proof fn lemma_frame_phase_counts(idx: int, ignition_end: int, pulse_lock_end: int, total: int)
    requires
        0 <= idx < total,
        0 <= ignition_end < pulse_lock_end <= total,
    ensures
        frames_in_phase(total, ignition_end, pulse_lock_end, total, BootPhase::Ignition)
            == ignition_end,
        frames_in_phase(total, ignition_end, pulse_lock_end, total, BootPhase::PulseLock)
            == pulse_lock_end - ignition_end,
        frames_in_phase(total, ignition_end, pulse_lock_end, total, BootPhase::Reveal) == total
            - pulse_lock_end,
        ({
            let (phase, local, span) = phase_of_frame(idx, ignition_end, pulse_lock_end, total);
            let count = frames_in_phase(total, ignition_end, pulse_lock_end, total, phase);
            &&& local == frames_in_phase(idx, ignition_end, pulse_lock_end, total, phase)
            &&& span == if count < 1 { 1 } else { count as int }
            &&& 0 <= local < span
        }),
{
    lemma_frames_in_phase_counts(total, ignition_end, pulse_lock_end, total);
    lemma_frames_in_phase_counts(idx, ignition_end, pulse_lock_end, total);
}

/// The phase ends keep the recipe's guesses when they leave room for every
/// phase, and otherwise move them just enough: ignition keeps at least one
/// frame, pulse lock starts after it, and on a timeline of three or more
/// frames pulse lock ends before the last frame.
pub proof fn lemma_phase_bounds_clamp(total: usize, ignition_guess: usize, pulse_lock_guess: usize)
    ensures
        ({
            let (ig, pl) = phase_bounds(total, ignition_guess, pulse_lock_guess);
            &&& 1 <= ig < pl
            &&& total >= 3 ==> ig <= total - 2 && pl <= total - 1
            &&& (1 <= ignition_guess && ignition_guess + 2 <= total) ==> ig == ignition_guess
            &&& (ig < pulse_lock_guess && pulse_lock_guess + 1 <= total) ==> pl == pulse_lock_guess
            &&& ignition_guess < 1 ==> ig == 1
            &&& pulse_lock_guess <= ig ==> pl == ig + 1
        }),
{
}

} // verus!
