use vstd::prelude::*;

verus! {

/// The synthesizer a track plays on.
#[derive(Debug, Clone, PartialEq, Eq, Structural)]
pub enum InstrumentKind {
    SineSynth,
    NoiseSynth,
    PulseSynth,
    Percussion,
}

pub open spec fn audio_instrument_name(kind: InstrumentKind) -> Seq<char> {
    match kind {
        InstrumentKind::SineSynth => "sine_synth"@,
        InstrumentKind::NoiseSynth => "noise_synth"@,
        InstrumentKind::PulseSynth => "pulse_synth"@,
        InstrumentKind::Percussion => "percussion"@,
    }
}

impl InstrumentKind {
    /// The audio engine's name for the instrument.
    pub fn as_audio_instrument(&self) -> (s: &'static str)
        ensures
            s@ == audio_instrument_name(*self),
    {
        match self {
            InstrumentKind::SineSynth => "sine_synth",
            InstrumentKind::NoiseSynth => "noise_synth",
            InstrumentKind::PulseSynth => "pulse_synth",
            InstrumentKind::Percussion => "percussion",
        }
    }
}

/// Ticks per quarter note when a sequence does not say.
pub fn default_ppq() -> (r: u32)
    ensures
        r == 16,
{
    16
}

/// The pattern step that plays at `tick`: one step per beat of `ppq` ticks,
/// wrapping around a pattern of `steps` steps (zero counts as one).
pub open spec fn step_at_tick(tick: u64, ppq: u32, steps: u32) -> u32 {
    let tps: int = if ppq == 0 { 1 } else { ppq as int };
    let n: int = if steps == 0 { 1 } else { steps as int };
    ((tick as int / tps) % n) as u32
}

/// The pattern step that plays at `tick`.
pub fn active_step(tick: u64, ppq: u32, steps: u32) -> (r: u32)
    ensures
        r == step_at_tick(tick, ppq, steps),
        r < if steps == 0 { 1 } else { steps },
{
    let steps = if steps == 0 { 1 } else { steps };
    let ticks_per_step: u64 = if ppq == 0 { 1 } else { ppq as u64 };
    ((tick / ticks_per_step) % steps as u64) as u32
}

/// Positions, in order, of the events of `event_steps` that sit on `step`.
pub open spec fn indices_on_step(event_steps: Seq<u32>, step: u32) -> Seq<usize>
    decreases event_steps.len(),
{
    if event_steps.len() == 0 {
        Seq::empty()
    } else {
        let rest = indices_on_step(event_steps.drop_last(), step);
        if event_steps.last() == step {
            rest.push((event_steps.len() - 1) as usize)
        } else {
            rest
        }
    }
}

/// Which events of a track fire at `tick`: the positions, in pattern order, of
/// the events whose step is the one playing at `tick`.
pub fn emitted_event_indices(event_steps: &Vec<u32>, tick: u64, ppq: u32, steps: u32) -> (r: Vec<
    usize,
>)
    ensures
        r@ == indices_on_step(event_steps@, step_at_tick(tick, ppq, steps)),
{
    let step = active_step(tick, ppq, steps);
    let mut out: Vec<usize> = Vec::new();
    let mut i: usize = 0;
    while i < event_steps.len()
        invariant
            i <= event_steps@.len(),
            step == step_at_tick(tick, ppq, steps),
            out@ == indices_on_step(event_steps@.subrange(0, i as int), step),
        decreases event_steps@.len() - i,
    {
        assert(event_steps@.subrange(0, i + 1).drop_last() =~= event_steps@.subrange(0, i as int));
        if event_steps[i] == step {
            out.push(i);
        }
        i = i + 1;
    }
    assert(event_steps@.subrange(0, i as int) =~= event_steps@);
    out
}

/// Note `a` plays before note `b`: an earlier step, or the same step and an
/// earlier position in the pattern.
pub open spec fn note_before(steps: Seq<u32>, a: usize, b: usize) -> bool {
    steps[a as int] < steps[b as int] || (steps[a as int] == steps[b as int] && a < b)
}

/// `order` lists every note position of `steps` exactly once, by step and then
/// by pattern position.
pub open spec fn is_step_order(steps: Seq<u32>, order: Seq<usize>) -> bool {
    &&& order.len() == steps.len()
    &&& forall|k: int| 0 <= k < order.len() ==> order[k] < steps.len()
    &&& forall|a: int, b: int|
        0 <= a < b < order.len() ==> note_before(steps, #[trigger] order[a], #[trigger] order[b])
    &&& forall|i: int| 0 <= i < steps.len() ==> #[trigger] order.contains(i as usize)
}

/// The order in which the notes of a track are rendered: grouped by step in
/// ascending order, keeping the pattern order within a step.
pub fn notes_in_step_order(note_steps: &Vec<u32>) -> (r: Vec<usize>)
    ensures
        is_step_order(note_steps@, r@),
{
    let n = note_steps.len();
    let mut order: Vec<usize> = Vec::new();
    let mut i: usize = 0;
    while i < n
        invariant
            n == note_steps@.len(),
            i <= n,
            order@.len() == i,
            forall|k: int| 0 <= k < order@.len() ==> order@[k] < i,
            forall|a: int, b: int|
                0 <= a < b < order@.len() ==> note_before(
                    note_steps@,
                    #[trigger] order@[a],
                    #[trigger] order@[b],
                ),
            forall|j: int| 0 <= j < i ==> #[trigger] order@.contains(j as usize),
        decreases n - i,
    {
        let s = note_steps[i];
        let mut pos: usize = 0;
        while pos < order.len() && note_steps[order[pos]] <= s
            invariant
                n == note_steps@.len(),
                i < n,
                pos <= order@.len(),
                forall|k: int| 0 <= k < order@.len() ==> order@[k] < i,
                forall|k: int| 0 <= k < pos ==> note_steps@[order@[k] as int] <= s,
            decreases order@.len() - pos,
        {
            pos = pos + 1;
        }
        let ghost old_order = order@;
        order.insert(pos, i);
        proof {
            assert forall|a: int, b: int| 0 <= a < b < order@.len() implies note_before(
                note_steps@,
                #[trigger] order@[a],
                #[trigger] order@[b],
            ) by {
                if a < pos as int && b == pos as int {
                    assert(note_steps@[old_order[a] as int] <= s);
                } else if a == pos as int && b > pos as int {
                    assert(order@[b] == old_order[b - 1]);
                    if pos < old_order.len() {
                        assert(note_steps@[old_order[pos as int] as int] > s);
                        if b - 1 > pos as int {
                            assert(note_before(note_steps@, old_order[pos as int], old_order[b - 1]));
                        }
                    }
                } else if a < pos as int && b > pos as int {
                    assert(order@[a] == old_order[a]);
                    assert(order@[b] == old_order[b - 1]);
                } else if b < pos as int {
                    assert(order@[a] == old_order[a]);
                    assert(order@[b] == old_order[b]);
                } else {
                    assert(order@[a] == old_order[a - 1]);
                    assert(order@[b] == old_order[b - 1]);
                }
            }
            assert forall|j: int| 0 <= j < i + 1 implies #[trigger] order@.contains(j as usize) by {
                if j == i as int {
                    assert(order@[pos as int] == i);
                } else {
                    assert(old_order.contains(j as usize));
                    let k = choose|k: int| 0 <= k < old_order.len() && old_order[k] == j as usize;
                    if k < pos as int {
                        assert(order@[k] == j as usize);
                    } else {
                        assert(order@[k + 1] == j as usize);
                    }
                }
            }
        }
        i = i + 1;
    }
    order
}

} // verus!
