use aurex::music::{active_step, default_ppq, emitted_event_indices, notes_in_step_order, InstrumentKind};
use aurex::resonance::PrimeFaction;
use aurex::world::{
    choose_glyph_style, generate_world_blueprint, pick_color, scalar_bits, seeded_bits,
    splitmix_u64, AtmosphereType, CameraRig, GeometryStyle, GlyphStyle, LightingMode,
    StructureSet, VisualTheme,
};

#[test]
fn world_blueprint_is_deterministic() {
    let a = generate_world_blueprint(42, VisualTheme::Reactor);
    let b = generate_world_blueprint(42, VisualTheme::Reactor);
    assert_eq!(a, b);
}

#[test]
fn theme_drives_structure_and_lighting() {
    let reactor = generate_world_blueprint(1, VisualTheme::Reactor);
    let cathedral = generate_world_blueprint(1, VisualTheme::Cathedral);
    assert_ne!(reactor.structure_set, cathedral.structure_set);
    assert_ne!(reactor.lighting, cathedral.lighting);
}

#[test]
fn typography_choice_is_deterministic() {
    let a = choose_glyph_style(88);
    let b = choose_glyph_style(88);
    assert_eq!(a, b);
    assert_eq!(a, GlyphStyle::Rune);
}

#[test]
fn splitmix_matches_reference_outputs() {
    assert_eq!(splitmix_u64(0), 0xe220_a839_7b1d_cdaf);
    assert_eq!(splitmix_u64(1), 0x910a_2dec_8902_5cc1);
    assert_eq!(seeded_bits(42, 0), 13_679_457_532_755_275_413);
    assert_eq!(scalar_bits(5), 6_488_891);
}

#[test]
fn blueprint_fields_follow_seed_and_theme() {
    let w = generate_world_blueprint(42, VisualTheme::Reactor);
    assert_eq!(w.theme, VisualTheme::Reactor);
    assert_eq!(w.geometry_style, GeometryStyle::Monolith);
    assert_eq!(w.atmosphere, AtmosphereType::Aurora);
    assert_eq!(w.structure_set, StructureSet::ReactorCore);
    assert_eq!(w.lighting, LightingMode::ReactorGlow);
    assert_eq!(w.camera_rig, CameraRig::ReactorDive);
    assert_eq!(w.color_palette.primary, 0x18_39_29);
    assert_eq!(w.color_palette.secondary, 0x39_18_50);
    assert_eq!(w.color_palette.accent, 0x29_50_18);

    let c = generate_world_blueprint(1, VisualTheme::Cathedral);
    assert_eq!(c.geometry_style, GeometryStyle::CathedralArches);
    assert_eq!(c.atmosphere, AtmosphereType::VolumetricFog);
    assert_eq!(c.structure_set, StructureSet::Cathedral);
    assert_eq!(c.lighting, LightingMode::CrystalRefraction);
    assert_eq!(c.camera_rig, CameraRig::Orbit);
}

#[test]
fn picked_colours_are_24_bit() {
    for seed in [0u64, 1, 42, u64::MAX] {
        assert!(pick_color(seed) < 0x100_0000);
    }
    assert_eq!(pick_color(42 ^ 0xB100), 0x18_39_29);
}

#[test]
fn every_theme_has_its_own_structures_and_lighting() {
    let themes = [
        VisualTheme::Reactor,
        VisualTheme::Cathedral,
        VisualTheme::DesertMonolith,
        VisualTheme::StormField,
        VisualTheme::NeonCity,
    ];
    for (i, a) in themes.iter().enumerate() {
        for (j, b) in themes.iter().enumerate() {
            if i != j {
                let wa = generate_world_blueprint(7, *a);
                let wb = generate_world_blueprint(9, *b);
                assert_ne!(wa.structure_set, wb.structure_set);
                assert_ne!(wa.lighting, wb.lighting);
            }
        }
    }
}

#[test]
fn step_wraps_around_the_pattern() {
    assert_eq!(default_ppq(), 16);
    assert_eq!(active_step(0, 16, 4), 0);
    assert_eq!(active_step(16, 16, 4), 1);
    assert_eq!(active_step(63, 16, 4), 3);
    assert_eq!(active_step(64, 16, 4), 0);
    assert_eq!(active_step(5, 0, 4), 1);
    assert_eq!(active_step(99, 16, 0), 0);
}

#[test]
fn events_on_the_playing_step_are_emitted_in_order() {
    let steps = vec![0u32, 2, 1, 2, 3];
    assert_eq!(emitted_event_indices(&steps, 32, 16, 4), vec![1, 3]);
    assert_eq!(emitted_event_indices(&steps, 0, 16, 4), vec![0]);
    assert_eq!(emitted_event_indices(&steps, 70, 16, 4), vec![0]);
    assert!(emitted_event_indices(&vec![], 5, 16, 4).is_empty());
}

#[test]
fn notes_are_ordered_by_step_then_position() {
    assert_eq!(notes_in_step_order(&vec![2, 0, 2, 1]), vec![1, 3, 0, 2]);
    assert_eq!(notes_in_step_order(&vec![5, 5, 5]), vec![0, 1, 2]);
    assert!(notes_in_step_order(&vec![]).is_empty());
}

#[test]
fn instruments_map_to_audio_names() {
    assert_eq!(InstrumentKind::SineSynth.as_audio_instrument(), "sine_synth");
    assert_eq!(InstrumentKind::NoiseSynth.as_audio_instrument(), "noise_synth");
    assert_eq!(InstrumentKind::PulseSynth.as_audio_instrument(), "pulse_synth");
    assert_eq!(InstrumentKind::Percussion.as_audio_instrument(), "percussion");
}

#[test]
fn faction_labels_are_case_and_space_insensitive() {
    assert_eq!(PrimeFaction::from_label("  DJINN "), Some(PrimeFaction::Electronic));
    assert_eq!(PrimeFaction::from_label("Hip-Hop / Rap"), Some(PrimeFaction::HipHopRap));
    assert_eq!(PrimeFaction::from_label("kazoom"), Some(PrimeFaction::Kazoom));
    assert_eq!(PrimeFaction::from_label("Blue Rondo"), Some(PrimeFaction::Jazz));
    assert_eq!(PrimeFaction::from_label("polka"), None);
    assert_eq!(PrimeFaction::from_label(""), None);
}

#[test]
fn faction_ranks_index_the_full_list() {
    let all = PrimeFaction::all();
    assert_eq!(all.len(), 12);
    for (i, p) in all.iter().enumerate() {
        assert_eq!(p.rank() as usize, i);
    }
    assert_eq!(all[0], PrimeFaction::Pop);
    assert_eq!(all[11], PrimeFaction::Kazoom);
}

#[test]
fn faction_names_and_aliases_are_recognized() {
    let cases = [
        ("Pop", PrimeFaction::Pop),
        ("Rock", PrimeFaction::Rock),
        ("HipHopRap", PrimeFaction::HipHopRap),
        ("Hip-Hop / Rap", PrimeFaction::HipHopRap),
        ("Electronic", PrimeFaction::Electronic),
        ("RnBSoulFunk", PrimeFaction::RnBSoulFunk),
        ("R&B / Soul / Funk", PrimeFaction::RnBSoulFunk),
        ("Classical", PrimeFaction::Classical),
        ("Jazz", PrimeFaction::Jazz),
        ("CountryFolk", PrimeFaction::CountryFolk),
        ("Country / Folk", PrimeFaction::CountryFolk),
        ("ReggaeCaribbeanAfrobeat", PrimeFaction::ReggaeCaribbeanAfrobeat),
        ("Reggae / Caribbean / Afrobeat", PrimeFaction::ReggaeCaribbeanAfrobeat),
        ("WorldTraditional", PrimeFaction::WorldTraditional),
        ("World / Traditional", PrimeFaction::WorldTraditional),
        ("AmbientExperimental", PrimeFaction::AmbientExperimental),
        ("Ambient / Experimental", PrimeFaction::AmbientExperimental),
        ("Ambient", PrimeFaction::AmbientExperimental),
        ("PlayToyCartoon", PrimeFaction::Kazoom),
        ("Play / Toy / Cartoon", PrimeFaction::Kazoom),
    ];
    for (name, faction) in cases {
        assert_eq!(PrimeFaction::from_label(name), Some(faction));
        let padded = format!(" \t{} \n", name.to_ascii_uppercase());
        assert_eq!(PrimeFaction::from_label(&padded), Some(faction));
    }
    assert_eq!(PrimeFaction::from_label(" POLKA "), PrimeFaction::from_label("polka"));
}
