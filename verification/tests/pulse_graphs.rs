use aurex::resonance::PrimeFaction;
use aurex::pulse::{
    active_prime,
    bar_multiple_reached, district_for_pulse, portals_to_launch, validate_pulse_header,
    Interactivity, PrimePulseGate, PrimePulseProgress, PulseGraph, PulseKind, PulseNode,
    PulseTransition, TriggerSet,
};

#[derive(Debug, Clone, PartialEq)]
enum Cue {
    Manual(String),
    AfterSeconds(f32),
}

fn node(id: &str) -> PulseNode {
    PulseNode { id: id.to_string(), pulse_path: format!("{id}.pulse.json") }
}

fn edge(from: &str, to: &str, kind: Cue) -> PulseTransition<Cue> {
    PulseTransition { from: from.to_string(), to: to.to_string(), kind }
}

fn graph(name: &str, entry: &str, nodes: Vec<PulseNode>, transitions: Vec<PulseTransition<Cue>>) -> PulseGraph<Cue> {
    PulseGraph { name: name.to_string(), seed: 7, entry_node: entry.to_string(), nodes, transitions }
}

#[test]
fn valid_graph_passes_validation() {
    let g = graph(
        "mini_graph",
        "a",
        vec![node("a"), node("b")],
        vec![edge("a", "b", Cue::AfterSeconds(3.0)), edge("b", "a", Cue::Manual("back".into()))],
    );
    assert_eq!(g.validate(), Ok(()));
}

#[test]
fn graph_validation_reports_the_first_problem() {
    let unnamed = graph("   ", "a", vec![node("a")], vec![]);
    assert_eq!(unnamed.validate(), Err("graph name must not be empty".to_string()));

    let empty = graph("g", "a", vec![], vec![]);
    assert_eq!(empty.validate(), Err("graph must contain at least one node".to_string()));

    let bad_entry = graph("g", "zzz", vec![node("a")], vec![]);
    assert_eq!(
        bad_entry.validate(),
        Err("entry_node must reference an existing node id".to_string())
    );

    let bad_edge = graph(
        "g",
        "a",
        vec![node("a"), node("b")],
        vec![edge("a", "b", Cue::AfterSeconds(1.0)), edge("b", "c", Cue::AfterSeconds(1.0))],
    );
    assert_eq!(
        bad_edge.validate(),
        Err("transition references unknown nodes: b -> c".to_string())
    );
}

#[test]
fn node_lookup_keeps_the_last_node_with_an_id() {
    let mut second = node("a");
    second.pulse_path = "other.pulse.json".to_string();
    let g = graph("g", "a", vec![node("a"), node("b"), second], vec![]);
    assert_eq!(g.node_for_id(&"a".to_string()).unwrap().pulse_path, "other.pulse.json");
    assert_eq!(g.node_for_id(&"b".to_string()).unwrap().pulse_path, "b.pulse.json");
    assert!(g.node_for_id(&"c".to_string()).is_none());
}

#[test]
fn transition_target_is_the_first_firing_edge_out_of_the_active_node() {
    let g = graph(
        "g",
        "a",
        vec![node("a"), node("b"), node("c")],
        vec![
            edge("b", "c", Cue::AfterSeconds(0.0)),
            edge("a", "b", Cue::Manual("go".into())),
            edge("a", "c", Cue::AfterSeconds(2.0)),
        ],
    );
    let mut manual = TriggerSet::new();
    let elapsed = 5.0f32;
    let fires = |t: &PulseTransition<Cue>| match &t.kind {
        Cue::Manual(name) => manual.contains(name),
        Cue::AfterSeconds(s) => elapsed >= s.max(0.0),
    };
    assert_eq!(g.select_transition_target(&"a".to_string(), fires), Some("c".to_string()));

    manual.insert("go".to_string());
    let fires = |t: &PulseTransition<Cue>| match &t.kind {
        Cue::Manual(name) => manual.contains(name),
        Cue::AfterSeconds(s) => elapsed >= s.max(0.0),
    };
    assert_eq!(g.select_transition_target(&"a".to_string(), fires), Some("b".to_string()));
    assert_eq!(g.select_transition_target(&"c".to_string(), |_t: &PulseTransition<Cue>| true), None);
    assert_eq!(g.select_transition_target(&"a".to_string(), |_t: &PulseTransition<Cue>| false), None);
}

#[test]
fn trigger_set_holds_each_name_once() {
    let mut s = TriggerSet::new();
    assert!(!s.contains(&"portal_jazz".to_string()));
    s.insert("portal_jazz".to_string());
    s.insert("portal_jazz".to_string());
    assert!(s.contains(&"portal_jazz".to_string()));
    assert!(!s.contains(&"portal_rock".to_string()));
    s.clear();
    assert!(!s.contains(&"portal_jazz".to_string()));
}

#[test]
fn bar_multiples_fire_on_positive_multiples() {
    assert!(bar_multiple_reached(8, 4));
    assert!(!bar_multiple_reached(6, 4));
    assert!(!bar_multiple_reached(0, 4));
    assert!(bar_multiple_reached(3, 0));
    assert!(bar_multiple_reached(3, 1));
}

#[test]
fn pulse_header_needs_matching_kind_and_a_title() {
    assert_eq!(validate_pulse_header(&PulseKind::World, &PulseKind::World, "Megacity"), Ok(()));
    assert_eq!(
        validate_pulse_header(&PulseKind::World, &PulseKind::Demo, "Megacity"),
        Err("metadata.pulse_kind must match pulse_kind".to_string())
    );
    assert_eq!(
        validate_pulse_header(&PulseKind::Ambient, &PulseKind::Ambient, " \t "),
        Err("metadata.title must not be empty".to_string())
    );
    assert_ne!(Interactivity::Interactive, Interactivity::Passive);
}

#[test]
fn district_is_the_first_that_lists_the_pulse() {
    let refs = vec![
        vec!["hub".to_string()],
        vec!["jazz".to_string(), "lounge".to_string()],
        vec!["jazz".to_string()],
    ];
    assert_eq!(district_for_pulse(&refs, &"jazz".to_string()), Some(1));
    assert_eq!(district_for_pulse(&refs, &"hub".to_string()), Some(0));
    assert_eq!(district_for_pulse(&refs, &"rock".to_string()), None);
}

#[test]
fn boot_world_portal_emits_manual_trigger_for_graph() {
    let ids = vec!["portal_jazz".to_string(), "portal_rock".to_string(), "portal_jazz".to_string()];
    let mut launched = TriggerSet::new();
    let first = portals_to_launch(&ids, &vec![true, false, true], &mut launched);
    assert_eq!(first, vec![0]);
    assert!(launched.contains(&"portal_jazz".to_string()));
    let again = portals_to_launch(&ids, &vec![true, true, true], &mut launched);
    assert_eq!(again, vec![1]);
    let none = portals_to_launch(&ids, &vec![true, true, false], &mut launched);
    assert!(none.is_empty());
}

/// How many of twelve factions with resonance `value` reach each default layer's threshold.
fn qualifying_counts(value: f32, factions: usize) -> Vec<u32> {
    let thresholds = [0.25f32, 0.35, 0.50, 0.60];
    thresholds
        .iter()
        .map(|t| (0..12).filter(|i| *i < factions && value >= *t).count() as u32)
        .collect()
}

#[test]
fn thresholds_unlock_layers() {
    let mut s = PrimePulseProgress::default_boot_world();
    s.update_layers(&qualifying_counts(0.61, 12));
    assert_eq!(s.unlocked_layers, s.total_layers);
    assert!(!s.force_field_active());
}

#[test]
fn deterministic_progression_for_fixed_profile() {
    let mut a = PrimePulseProgress::default_boot_world();
    let mut b = PrimePulseProgress::default_boot_world();
    a.update_layers(&qualifying_counts(0.36, 6));
    b.update_layers(&qualifying_counts(0.36, 6));
    assert_eq!(a, b);
    assert_eq!(a.unlocked_layers, 2);
    assert_eq!(a.active_layer, 3);
}

#[test]
fn layers_stay_locked_when_unmet() {
    let mut s = PrimePulseProgress::default_boot_world();
    s.update_layers(&qualifying_counts(0.2, 12));
    assert_eq!(s.unlocked_layers, 0);
    assert!(s.force_field_active());
}

#[test]
fn unlocked_layers_stay_unlocked() {
    let mut s = PrimePulseProgress::default_boot_world();
    s.update_layers(&vec![3, 0, 0, 0]);
    assert_eq!(s.unlocked_layers, 1);
    assert_eq!(s.active_layer, 2);
    s.update_layers(&vec![0, 0, 0, 0]);
    assert_eq!(s.unlocked_layers, 1);
    assert_eq!(
        s.gates[0],
        PrimePulseGate { layer_index: 1, required_prime_count: 3, unlocked: true }
    );
    s.update_layers(&vec![12, 12, 12, 12]);
    assert_eq!(s.unlocked_layers, 4);
    assert_eq!(s.active_layer, 4);
}

#[test]
fn active_prime_is_the_first_district_with_the_id() {
    let ids = vec!["hub".to_string(), "jazz_quarter".to_string(), "hub".to_string()];
    let primes = vec![PrimeFaction::Electronic, PrimeFaction::Jazz, PrimeFaction::Rock];
    assert_eq!(active_prime(&ids, &primes, Some(&"hub".to_string())), Some(PrimeFaction::Electronic));
    assert_eq!(active_prime(&ids, &primes, Some(&"jazz_quarter".to_string())), Some(PrimeFaction::Jazz));
    assert_eq!(active_prime(&ids, &primes, Some(&"nowhere".to_string())), None);
    assert_eq!(active_prime(&ids, &primes, None), None);
}
