use vstd::prelude::*;
use crate::text::str_eq;

verus! {

/// The hand-drawn scenes of the boot demo.
#[derive(Debug, Clone, Copy, PartialEq, Eq, Structural)]
pub enum DemoScene {
    Visualizer,
    StarfieldWarp,
    PulseReactorChamber,
    ParticleStorm,
    ReturnToTitle,
}

/// The scene the runtime's scene name, or failing that its pulse name, asks
/// for; `None` leaves the choice to the demo's clock.
pub open spec fn scene_for_names(scene: Seq<char>, pulse: Seq<char>) -> Option<DemoScene> {
    if scene == "boot_pulse"@ {
        Some(DemoScene::Visualizer)
    } else if scene == "aurex_logo"@ {
        Some(DemoScene::ReturnToTitle)
    } else if scene == "rings"@ {
        Some(DemoScene::PulseReactorChamber)
    } else if scene == "particle_swirl"@ {
        Some(DemoScene::ParticleStorm)
    } else if scene == "starfield_expansion"@ {
        Some(DemoScene::StarfieldWarp)
    } else if scene == "aurielle_reveal"@ || scene == "aurielle_reveal_scene"@ {
        Some(DemoScene::PulseReactorChamber)
    } else if scene == "megacity_skyline"@ {
        Some(DemoScene::PulseReactorChamber)
    } else if scene == "jazz_lounge"@ {
        Some(DemoScene::ReturnToTitle)
    } else if scene == "ambient_mist"@ {
        Some(DemoScene::StarfieldWarp)
    } else if pulse == "megacity"@ {
        Some(DemoScene::PulseReactorChamber)
    } else if pulse == "ambient"@ {
        Some(DemoScene::StarfieldWarp)
    } else if pulse == "jazz"@ {
        Some(DemoScene::ReturnToTitle)
    } else if pulse == "aurielle_intro"@ {
        Some(DemoScene::ParticleStorm)
    } else {
        None
    }
}

/// The demo scene named by the runtime's scene or pulse, if either names one.
pub fn runtime_scene_choice(scene_name: &str, pulse_name: &str) -> (r: Option<DemoScene>)
    ensures
        r == scene_for_names(scene_name@, pulse_name@),
{
    if str_eq(scene_name, "boot_pulse") {
        Some(DemoScene::Visualizer)
    } else if str_eq(scene_name, "aurex_logo") {
        Some(DemoScene::ReturnToTitle)
    } else if str_eq(scene_name, "rings") {
        Some(DemoScene::PulseReactorChamber)
    } else if str_eq(scene_name, "particle_swirl") {
        Some(DemoScene::ParticleStorm)
    } else if str_eq(scene_name, "starfield_expansion") {
        Some(DemoScene::StarfieldWarp)
    } else if str_eq(scene_name, "aurielle_reveal") || str_eq(scene_name, "aurielle_reveal_scene") {
        Some(DemoScene::PulseReactorChamber)
    } else if str_eq(scene_name, "megacity_skyline") {
        Some(DemoScene::PulseReactorChamber)
    } else if str_eq(scene_name, "jazz_lounge") {
        Some(DemoScene::ReturnToTitle)
    } else if str_eq(scene_name, "ambient_mist") {
        Some(DemoScene::StarfieldWarp)
    } else if str_eq(pulse_name, "megacity") {
        Some(DemoScene::PulseReactorChamber)
    } else if str_eq(pulse_name, "ambient") {
        Some(DemoScene::StarfieldWarp)
    } else if str_eq(pulse_name, "jazz") {
        Some(DemoScene::ReturnToTitle)
    } else if str_eq(pulse_name, "aurielle_intro") {
        Some(DemoScene::ParticleStorm)
    } else {
        None
    }
}

/// The scene names pick their scenes whatever the pulse is.
pub proof fn lemma_scene_names(pulse: Seq<char>)
    ensures
        scene_for_names("boot_pulse"@, pulse) == Some(DemoScene::Visualizer),
        scene_for_names("aurex_logo"@, pulse) == Some(DemoScene::ReturnToTitle),
        scene_for_names("rings"@, pulse) == Some(DemoScene::PulseReactorChamber),
        scene_for_names("particle_swirl"@, pulse) == Some(DemoScene::ParticleStorm),
        scene_for_names("starfield_expansion"@, pulse) == Some(DemoScene::StarfieldWarp),
        scene_for_names("aurielle_reveal"@, pulse) == Some(DemoScene::PulseReactorChamber),
        scene_for_names("aurielle_reveal_scene"@, pulse) == Some(DemoScene::PulseReactorChamber),
        scene_for_names("megacity_skyline"@, pulse) == Some(DemoScene::PulseReactorChamber),
        scene_for_names("jazz_lounge"@, pulse) == Some(DemoScene::ReturnToTitle),
        scene_for_names("ambient_mist"@, pulse) == Some(DemoScene::StarfieldWarp),
{
    reveal_strlit("boot_pulse");
    reveal_strlit("aurex_logo");
    reveal_strlit("rings");
    reveal_strlit("particle_swirl");
    reveal_strlit("starfield_expansion");
    reveal_strlit("aurielle_reveal");
    reveal_strlit("aurielle_reveal_scene");
    reveal_strlit("megacity_skyline");
    reveal_strlit("jazz_lounge");
    reveal_strlit("ambient_mist");
    reveal_strlit("megacity");
    reveal_strlit("ambient");
    reveal_strlit("jazz");
    reveal_strlit("aurielle_intro");
    assert("boot_pulse"@.len() == 10);
    assert("aurex_logo"@.len() == 10);
    assert("rings"@.len() == 5);
    assert("particle_swirl"@.len() == 14);
    assert("starfield_expansion"@.len() == 19);
    assert("aurielle_reveal"@.len() == 15);
    assert("aurielle_reveal_scene"@.len() == 21);
    assert("megacity_skyline"@.len() == 16);
    assert("jazz_lounge"@.len() == 11);
    assert("ambient_mist"@.len() == 12);
    assert("megacity"@.len() == 8);
    assert("ambient"@.len() == 7);
    assert("jazz"@.len() == 4);
    assert("aurielle_intro"@.len() == 14);
    assert("boot_pulse"@[0] != "aurex_logo"@[0]);
}

/// When the scene name is none of the known ones, the pulse names pick their
/// scenes, and any other pulse leaves the choice open.
pub proof fn lemma_pulse_names(scene: Seq<char>, pulse: Seq<char>)
    requires
        scene != "boot_pulse"@,
        scene != "aurex_logo"@,
        scene != "rings"@,
        scene != "particle_swirl"@,
        scene != "starfield_expansion"@,
        scene != "aurielle_reveal"@,
        scene != "aurielle_reveal_scene"@,
        scene != "megacity_skyline"@,
        scene != "jazz_lounge"@,
        scene != "ambient_mist"@,
    ensures
        scene_for_names(scene, "megacity"@) == Some(DemoScene::PulseReactorChamber),
        scene_for_names(scene, "ambient"@) == Some(DemoScene::StarfieldWarp),
        scene_for_names(scene, "jazz"@) == Some(DemoScene::ReturnToTitle),
        scene_for_names(scene, "aurielle_intro"@) == Some(DemoScene::ParticleStorm),
        pulse != "megacity"@ && pulse != "ambient"@ && pulse != "jazz"@ && pulse != "aurielle_intro"@ ==> scene_for_names(scene, pulse) is None,
{
    reveal_strlit("boot_pulse");
    reveal_strlit("aurex_logo");
    reveal_strlit("rings");
    reveal_strlit("particle_swirl");
    reveal_strlit("starfield_expansion");
    reveal_strlit("aurielle_reveal");
    reveal_strlit("aurielle_reveal_scene");
    reveal_strlit("megacity_skyline");
    reveal_strlit("jazz_lounge");
    reveal_strlit("ambient_mist");
    reveal_strlit("megacity");
    reveal_strlit("ambient");
    reveal_strlit("jazz");
    reveal_strlit("aurielle_intro");
    assert("boot_pulse"@.len() == 10);
    assert("aurex_logo"@.len() == 10);
    assert("rings"@.len() == 5);
    assert("particle_swirl"@.len() == 14);
    assert("starfield_expansion"@.len() == 19);
    assert("aurielle_reveal"@.len() == 15);
    assert("aurielle_reveal_scene"@.len() == 21);
    assert("megacity_skyline"@.len() == 16);
    assert("jazz_lounge"@.len() == 11);
    assert("ambient_mist"@.len() == 12);
    assert("megacity"@.len() == 8);
    assert("ambient"@.len() == 7);
    assert("jazz"@.len() == 4);
    assert("aurielle_intro"@.len() == 14);
}

} // verus!
