use aurex::boot::{
    boot_phase_bounds, frame_phase, phase_counts, snapshot_index_for_tick, BootPhase, BootSequenceRecipe,
};

/// The ignition and pulse-lock ratios of each recipe.
fn ratios(recipe: BootSequenceRecipe) -> (f32, f32) {
    match recipe {
        BootSequenceRecipe::Standard => (0.33, 0.34),
        BootSequenceRecipe::QuickPulse => (0.22, 0.5),
        BootSequenceRecipe::GrandReveal => (0.38, 0.27),
    }
}

/// The phase of every frame of a timeline of `frame_count` frames.
fn timeline_phases(frame_count: usize, recipe: BootSequenceRecipe) -> Vec<BootPhase> {
    let total = frame_count.max(1);
    let (ig, pl) = ratios(recipe);
    let ignition_guess = (total as f32 * ig).round() as usize;
    let pulse_lock_guess = (total as f32 * (ig + pl)).round() as usize;
    let (ignition_end, pulse_lock_end) = boot_phase_bounds(total, ignition_guess, pulse_lock_guess);
    (0..frame_count)
        .map(|idx| frame_phase(idx, ignition_end, pulse_lock_end, frame_count).0)
        .collect()
}

#[test]
fn boot_timeline_covers_all_phases() {
    let phases = timeline_phases(12, BootSequenceRecipe::Standard);
    let (ignition, pulse_lock, reveal) = phase_counts(&phases);
    assert!(ignition > 0);
    assert!(pulse_lock > 0);
    assert!(reveal > 0);
    assert_eq!(ignition + pulse_lock + reveal, 12);
}

#[test]
fn recipe_changes_phase_distribution() {
    let standard = phase_counts(&timeline_phases(12, BootSequenceRecipe::Standard));
    let quick = phase_counts(&timeline_phases(12, BootSequenceRecipe::QuickPulse));
    assert_ne!(standard, quick);
    assert_eq!(standard, (4, 4, 4));
    assert_eq!(quick, (3, 6, 3));
}

#[test]
fn phase_bounds_are_clamped_into_the_timeline() {
    assert_eq!(boot_phase_bounds(12, 4, 8), (4, 8));
    assert_eq!(boot_phase_bounds(12, 0, 0), (1, 2));
    assert_eq!(boot_phase_bounds(12, 50, 50), (10, 11));
    assert_eq!(boot_phase_bounds(0, 0, 0), (1, 2));
    assert_eq!(boot_phase_bounds(2, 1, 1), (1, 2));
    assert_eq!(boot_phase_bounds(3, 3, 3), (1, 2));
}

#[test]
fn frames_know_their_place_in_the_phase() {
    assert_eq!(frame_phase(0, 4, 8, 12), (BootPhase::Ignition, 0, 4));
    assert_eq!(frame_phase(3, 4, 8, 12), (BootPhase::Ignition, 3, 4));
    assert_eq!(frame_phase(4, 4, 8, 12), (BootPhase::PulseLock, 0, 4));
    assert_eq!(frame_phase(11, 4, 8, 12), (BootPhase::Reveal, 3, 4));
    assert_eq!(frame_phase(1, 1, 2, 2), (BootPhase::PulseLock, 0, 1));
}

#[test]
fn counting_an_empty_timeline_gives_zeros() {
    assert_eq!(phase_counts(&vec![]), (0, 0, 0));
    assert_eq!(
        phase_counts(&vec![BootPhase::Reveal, BootPhase::Ignition, BootPhase::Reveal]),
        (1, 0, 2)
    );
}

#[test]
fn phases_never_go_back_over_a_long_timeline() {
    for recipe in [
        BootSequenceRecipe::Standard,
        BootSequenceRecipe::QuickPulse,
        BootSequenceRecipe::GrandReveal,
    ] {
        for frames in 3..40usize {
            let phases = timeline_phases(frames, recipe);
            let rank = |p: &BootPhase| match p {
                BootPhase::Ignition => 0,
                BootPhase::PulseLock => 1,
                BootPhase::Reveal => 2,
            };
            for w in phases.windows(2) {
                assert!(rank(&w[0]) <= rank(&w[1]));
            }
            assert_eq!(phases[0], BootPhase::Ignition);
            assert_eq!(phases[frames - 1], BootPhase::Reveal);
            let (a, b, c) = phase_counts(&phases);
            assert!(a > 0 && b > 0 && c > 0);
            assert_eq!(a + b + c, frames);
        }
    }
}

#[test]
fn snapshot_lookup_finds_the_first_with_the_tick() {
    let ticks: Vec<u64> = (25..35).collect();
    assert_eq!(snapshot_index_for_tick(&ticks, 25), Some(0));
    assert_eq!(snapshot_index_for_tick(&ticks, 34), Some(9));
    assert_eq!(snapshot_index_for_tick(&ticks, 999), None);
    assert_eq!(snapshot_index_for_tick(&vec![7, 3, 7], 7), Some(0));
    assert_eq!(snapshot_index_for_tick(&vec![], 7), None);
}

#[test]
fn phase_bounds_handle_the_largest_timeline() {
    assert_eq!(boot_phase_bounds(usize::MAX, 0, 0), (1, 2));
    assert_eq!(boot_phase_bounds(usize::MAX, usize::MAX, usize::MAX), (usize::MAX - 2, usize::MAX - 1));
}
