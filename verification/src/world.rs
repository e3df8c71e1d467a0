use vstd::prelude::*;
use vstd::wrapping::u64_specs::{wrapping_add, wrapping_mul};

verus! {

/// SplitMix64's output for state `x`.
pub open spec fn splitmix_spec(x: u64) -> u64 {
    let a = wrapping_add(x, 0x9E37_79B9_7F4A_7C15);
    let b = wrapping_mul(a ^ (a >> 30u64), 0xBF58_476D_1CE4_E5B9);
    let c = wrapping_mul(b ^ (b >> 27u64), 0x94D0_49BB_1331_11EB);
    c ^ (c >> 31u64)
}

/// The SplitMix64 mixing function every procedural choice is drawn from.
pub fn splitmix_u64(x: u64) -> (r: u64)
    ensures
        r == splitmix_spec(x),
{
    let a = x.wrapping_add(0x9E37_79B9_7F4A_7C15);
    let b = (a ^ (a >> 30)).wrapping_mul(0xBF58_476D_1CE4_E5B9);
    let c = (b ^ (b >> 27)).wrapping_mul(0x94D0_49BB_1331_11EB);
    c ^ (c >> 31)
}

/// The mixed bits behind the boot animation's noise for frame `frame_index`.
pub open spec fn seeded_bits_spec(seed: u64, frame_index: u32) -> u64 {
    let x0 = seed ^ wrapping_mul((frame_index + 1) as u64, 0x9E37_79B9_7F4A_7C15);
    let x1 = x0 ^ (x0 >> 30u64);
    let x2 = wrapping_mul(x1, 0xBF58_476D_1CE4_E5B9);
    let x3 = x2 ^ (x2 >> 27u64);
    let x4 = wrapping_mul(x3, 0x94D0_49BB_1331_11EB);
    x4 ^ (x4 >> 31u64)
}

/// The mixed bits behind the boot animation's noise for frame `frame_index`.
pub fn seeded_bits(seed: u64, frame_index: u32) -> (r: u64)
    ensures
        r == seeded_bits_spec(seed, frame_index),
{
    let mut x = seed ^ ((frame_index as u64 + 1).wrapping_mul(0x9E37_79B9_7F4A_7C15));
    x = x ^ (x >> 30);
    x = x.wrapping_mul(0xBF58_476D_1CE4_E5B9);
    x = x ^ (x >> 27);
    x = x.wrapping_mul(0x94D0_49BB_1331_11EB);
    x ^ (x >> 31)
}

/// The 24-bit value a generator-stack layer scales into its range.
pub fn scalar_bits(seed: u64) -> (r: u32)
    ensures
        r == (splitmix_spec(seed) >> 40u64) as u32,
        r < 0x100_0000,
{
    let m = splitmix_u64(seed);
    assert(m >> 40u64 < 0x100_0000) by (bit_vector);
    (m >> 40) as u32
}

#[derive(Debug, Clone, Copy, PartialEq, Eq, Structural)]
pub enum VisualTheme {
    Reactor,
    Cathedral,
    DesertMonolith,
    StormField,
    NeonCity,
}

#[derive(Debug, Clone, Copy, PartialEq, Eq, Structural)]
pub enum GeometryStyle {
    Monolith,
    SpireField,
    OrbitalRings,
    FractalLattice,
    CathedralArches,
    EnergyPillars,
    FloatingIslands,
}

#[derive(Debug, Clone, Copy, PartialEq, Eq, Structural)]
pub enum AtmosphereType {
    Void,
    Mist,
    VolumetricFog,
    EnergyStorm,
    DustField,
    Aurora,
}

#[derive(Debug, Clone, Copy, PartialEq, Eq, Structural)]
pub enum LightingMode {
    NeonPulse,
    ReactorGlow,
    SunsetGradient,
    CrystalRefraction,
    LightningFlash,
}

#[derive(Debug, Clone, Copy, PartialEq, Eq, Structural)]
pub enum StructureSet {
    ReactorCore,
    Cathedral,
    DesertMonolith,
    NeonCity,
    StormField,
}

/// The camera motion a world is filmed with.
#[derive(Debug, Clone, Copy, PartialEq, Eq, Structural)]
pub enum CameraRig {
    ReactorDive,
    Orbit,
    Flyby,
    PulseOrbit,
}

/// Three packed `0xRRGGBB` colours.
#[derive(Debug, Clone, Copy, PartialEq, Eq, Structural)]
pub struct ColorPalette {
    pub primary: u32,
    pub secondary: u32,
    pub accent: u32,
}

/// Everything a procedural world is generated from.
#[derive(Debug, Clone, PartialEq, Eq, Structural)]
pub struct WorldBlueprint {
    pub theme: VisualTheme,
    pub geometry_style: GeometryStyle,
    pub structure_set: StructureSet,
    pub atmosphere: AtmosphereType,
    pub lighting: LightingMode,
    pub color_palette: ColorPalette,
    pub camera_rig: CameraRig,
}

/// A packed colour whose channels are the low bytes of three mixes of `seed`.
pub open spec fn color_for_seed(seed: u64) -> u32 {
    let r = (splitmix_spec(seed ^ 0x100) & 0xFF) as u32;
    let g = (splitmix_spec(seed ^ 0x200) & 0xFF) as u32;
    let b = (splitmix_spec(seed ^ 0x300) & 0xFF) as u32;
    (r << 16u32) | (g << 8u32) | b
}

pub fn pick_color(seed: u64) -> (c: u32)
    ensures
        c == color_for_seed(seed),
        c < 0x100_0000,
{
    let r = (splitmix_u64(seed ^ 0x100) & 0xFF) as u32;
    let g = (splitmix_u64(seed ^ 0x200) & 0xFF) as u32;
    let b = (splitmix_u64(seed ^ 0x300) & 0xFF) as u32;
    assert(r < 256 && g < 256 && b < 256) by {
        let x = splitmix_spec(seed ^ 0x100);
        let y = splitmix_spec(seed ^ 0x200);
        let z = splitmix_spec(seed ^ 0x300);
        assert(x & 0xFF < 256) by (bit_vector);
        assert(y & 0xFF < 256) by (bit_vector);
        assert(z & 0xFF < 256) by (bit_vector);
    }
    assert((r << 16u32) | (g << 8u32) | b < 0x100_0000) by (bit_vector)
        requires
            r < 256,
            g < 256,
            b < 256,
    ;
    (r << 16) | (g << 8) | b
}

pub open spec fn structure_for_theme(theme: VisualTheme) -> StructureSet {
    match theme {
        VisualTheme::Reactor => StructureSet::ReactorCore,
        VisualTheme::Cathedral => StructureSet::Cathedral,
        VisualTheme::DesertMonolith => StructureSet::DesertMonolith,
        VisualTheme::StormField => StructureSet::StormField,
        VisualTheme::NeonCity => StructureSet::NeonCity,
    }
}

pub open spec fn lighting_for_theme(theme: VisualTheme) -> LightingMode {
    match theme {
        VisualTheme::Reactor => LightingMode::ReactorGlow,
        VisualTheme::Cathedral => LightingMode::CrystalRefraction,
        VisualTheme::DesertMonolith => LightingMode::SunsetGradient,
        VisualTheme::StormField => LightingMode::LightningFlash,
        VisualTheme::NeonCity => LightingMode::NeonPulse,
    }
}

pub open spec fn camera_for_theme(theme: VisualTheme) -> CameraRig {
    match theme {
        VisualTheme::Reactor => CameraRig::ReactorDive,
        VisualTheme::Cathedral => CameraRig::Orbit,
        VisualTheme::DesertMonolith => CameraRig::Flyby,
        VisualTheme::StormField => CameraRig::PulseOrbit,
        VisualTheme::NeonCity => CameraRig::Flyby,
    }
}

pub open spec fn geometry_for_roll(roll: u64) -> GeometryStyle {
    if roll == 0 {
        GeometryStyle::Monolith
    } else if roll == 1 {
        GeometryStyle::SpireField
    } else if roll == 2 {
        GeometryStyle::OrbitalRings
    } else if roll == 3 {
        GeometryStyle::FractalLattice
    } else if roll == 4 {
        GeometryStyle::CathedralArches
    } else if roll == 5 {
        GeometryStyle::EnergyPillars
    } else {
        GeometryStyle::FloatingIslands
    }
}

pub open spec fn atmosphere_for_roll(roll: u64) -> AtmosphereType {
    if roll == 0 {
        AtmosphereType::Void
    } else if roll == 1 {
        AtmosphereType::Mist
    } else if roll == 2 {
        AtmosphereType::VolumetricFog
    } else if roll == 3 {
        AtmosphereType::EnergyStorm
    } else if roll == 4 {
        AtmosphereType::DustField
    } else {
        AtmosphereType::Aurora
    }
}

/// The world that `seed` and `theme` generate.
pub open spec fn blueprint_for(seed: u64, theme: VisualTheme) -> WorldBlueprint {
    WorldBlueprint {
        theme,
        geometry_style: geometry_for_roll(splitmix_spec(seed ^ 0xA100) % 7),
        structure_set: structure_for_theme(theme),
        atmosphere: atmosphere_for_roll(splitmix_spec(seed ^ 0xA200) % 6),
        lighting: lighting_for_theme(theme),
        color_palette: ColorPalette {
            primary: color_for_seed(seed ^ 0xB100),
            secondary: color_for_seed(seed ^ 0xB200),
            accent: color_for_seed(seed ^ 0xB300),
        },
        camera_rig: camera_for_theme(theme),
    }
}

/// Derives a world from a seed: the theme fixes structures, lighting and
/// camera; the seed picks geometry, atmosphere and colours.
pub fn generate_world_blueprint(seed: u64, theme: VisualTheme) -> (w: WorldBlueprint)
    ensures
        w == blueprint_for(seed, theme),
{
    let structure_set = match theme {
        VisualTheme::Reactor => StructureSet::ReactorCore,
        VisualTheme::Cathedral => StructureSet::Cathedral,
        VisualTheme::DesertMonolith => StructureSet::DesertMonolith,
        VisualTheme::StormField => StructureSet::StormField,
        VisualTheme::NeonCity => StructureSet::NeonCity,
    };
    let geometry_style = match splitmix_u64(seed ^ 0xA100) % 7 {
        0 => GeometryStyle::Monolith,
        1 => GeometryStyle::SpireField,
        2 => GeometryStyle::OrbitalRings,
        3 => GeometryStyle::FractalLattice,
        4 => GeometryStyle::CathedralArches,
        5 => GeometryStyle::EnergyPillars,
        _ => GeometryStyle::FloatingIslands,
    };
    let atmosphere = match splitmix_u64(seed ^ 0xA200) % 6 {
        0 => AtmosphereType::Void,
        1 => AtmosphereType::Mist,
        2 => AtmosphereType::VolumetricFog,
        3 => AtmosphereType::EnergyStorm,
        4 => AtmosphereType::DustField,
        _ => AtmosphereType::Aurora,
    };
    let lighting = match theme {
        VisualTheme::Reactor => LightingMode::ReactorGlow,
        VisualTheme::Cathedral => LightingMode::CrystalRefraction,
        VisualTheme::DesertMonolith => LightingMode::SunsetGradient,
        VisualTheme::StormField => LightingMode::LightningFlash,
        VisualTheme::NeonCity => LightingMode::NeonPulse,
    };
    let camera_rig = match theme {
        VisualTheme::Reactor => CameraRig::ReactorDive,
        VisualTheme::Cathedral => CameraRig::Orbit,
        VisualTheme::DesertMonolith => CameraRig::Flyby,
        VisualTheme::StormField => CameraRig::PulseOrbit,
        VisualTheme::NeonCity => CameraRig::Flyby,
    };
    let color_palette = ColorPalette {
        primary: pick_color(seed ^ 0xB100),
        secondary: pick_color(seed ^ 0xB200),
        accent: pick_color(seed ^ 0xB300),
    };
    WorldBlueprint {
        theme,
        geometry_style,
        structure_set,
        atmosphere,
        lighting,
        color_palette,
        camera_rig,
    }
}

/// Different themes always give different structure sets and lighting.
pub proof fn lemma_theme_drives_structure_and_lighting(
    seed_a: u64,
    seed_b: u64,
    a: VisualTheme,
    b: VisualTheme,
)
    requires
        a != b,
    ensures
        blueprint_for(seed_a, a).structure_set != blueprint_for(seed_b, b).structure_set,
        blueprint_for(seed_a, a).lighting != blueprint_for(seed_b, b).lighting,
{
}

/// The glyph styles of lyric typography.
#[derive(Debug, Clone, Copy, PartialEq, Eq, Structural)]
pub enum GlyphStyle {
    Neon,
    Pulse,
    Crystal,
    Circuit,
    Rune,
}

pub open spec fn glyph_style_for_roll(roll: u64) -> GlyphStyle {
    if roll == 0 {
        GlyphStyle::Neon
    } else if roll == 1 {
        GlyphStyle::Pulse
    } else if roll == 2 {
        GlyphStyle::Crystal
    } else if roll == 3 {
        GlyphStyle::Circuit
    } else {
        GlyphStyle::Rune
    }
}

/// The glyph style a seed picks for lyric typography.
pub fn choose_glyph_style(seed: u64) -> (g: GlyphStyle)
    ensures
        g == glyph_style_for_roll(splitmix_spec(seed ^ 0x5A51_7EED_2024_0001) % 5),
{
    match splitmix_u64(seed ^ 0x5A51_7EED_2024_0001) % 5 {
        0 => GlyphStyle::Neon,
        1 => GlyphStyle::Pulse,
        2 => GlyphStyle::Crystal,
        3 => GlyphStyle::Circuit,
        _ => GlyphStyle::Rune,
    }
}

/// What a theme fixes in every world generated with it, whatever the seed:
/// its structures, its lighting and its camera. Only a storm field orbits
/// with the pulse; the desert and the neon city both fly by.
pub proof fn lemma_theme_table(seed: u64, theme: VisualTheme)
    ensures
        blueprint_for(seed, VisualTheme::Reactor).structure_set == StructureSet::ReactorCore,
        blueprint_for(seed, VisualTheme::Reactor).lighting == LightingMode::ReactorGlow,
        blueprint_for(seed, VisualTheme::Reactor).camera_rig == CameraRig::ReactorDive,
        blueprint_for(seed, VisualTheme::Cathedral).structure_set == StructureSet::Cathedral,
        blueprint_for(seed, VisualTheme::Cathedral).lighting == LightingMode::CrystalRefraction,
        blueprint_for(seed, VisualTheme::Cathedral).camera_rig == CameraRig::Orbit,
        blueprint_for(seed, VisualTheme::DesertMonolith).structure_set == StructureSet::DesertMonolith,
        blueprint_for(seed, VisualTheme::DesertMonolith).lighting == LightingMode::SunsetGradient,
        blueprint_for(seed, VisualTheme::DesertMonolith).camera_rig == CameraRig::Flyby,
        blueprint_for(seed, VisualTheme::StormField).structure_set == StructureSet::StormField,
        blueprint_for(seed, VisualTheme::StormField).lighting == LightingMode::LightningFlash,
        blueprint_for(seed, VisualTheme::StormField).camera_rig == CameraRig::PulseOrbit,
        blueprint_for(seed, VisualTheme::NeonCity).structure_set == StructureSet::NeonCity,
        blueprint_for(seed, VisualTheme::NeonCity).lighting == LightingMode::NeonPulse,
        blueprint_for(seed, VisualTheme::NeonCity).camera_rig == CameraRig::Flyby,
        blueprint_for(seed, theme).theme == theme,
        (blueprint_for(seed, theme).camera_rig == CameraRig::PulseOrbit) <==> (theme
            == VisualTheme::StormField),
        (blueprint_for(seed, theme).camera_rig == CameraRig::Flyby) <==> (theme
            == VisualTheme::DesertMonolith || theme == VisualTheme::NeonCity),
{
}

/// The seed's rolls pick geometry, atmosphere and glyph style in the order
/// the styles are listed; rolls past the last style keep the last one.
pub proof fn lemma_roll_tables(roll: u64)
    ensures
        geometry_for_roll(0) == GeometryStyle::Monolith,
        geometry_for_roll(1) == GeometryStyle::SpireField,
        geometry_for_roll(2) == GeometryStyle::OrbitalRings,
        geometry_for_roll(3) == GeometryStyle::FractalLattice,
        geometry_for_roll(4) == GeometryStyle::CathedralArches,
        geometry_for_roll(5) == GeometryStyle::EnergyPillars,
        roll >= 6 ==> geometry_for_roll(roll) == GeometryStyle::FloatingIslands,
        atmosphere_for_roll(0) == AtmosphereType::Void,
        atmosphere_for_roll(1) == AtmosphereType::Mist,
        atmosphere_for_roll(2) == AtmosphereType::VolumetricFog,
        atmosphere_for_roll(3) == AtmosphereType::EnergyStorm,
        atmosphere_for_roll(4) == AtmosphereType::DustField,
        roll >= 5 ==> atmosphere_for_roll(roll) == AtmosphereType::Aurora,
        glyph_style_for_roll(0) == GlyphStyle::Neon,
        glyph_style_for_roll(1) == GlyphStyle::Pulse,
        glyph_style_for_roll(2) == GlyphStyle::Crystal,
        glyph_style_for_roll(3) == GlyphStyle::Circuit,
        roll >= 4 ==> glyph_style_for_roll(roll) == GlyphStyle::Rune,
{
}

} // verus!
