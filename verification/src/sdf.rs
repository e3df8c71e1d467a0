use vstd::prelude::*;
use std::collections::BTreeMap;
use vstd::wrapping::i32_specs;

verus! {

/// A quantized sample position, time and seed; samples with the same key
/// share one cached value.
#[derive(Debug, Clone, Copy, PartialEq, Eq, PartialOrd, Ord, Structural)]
pub struct SampleKey {
    pub x: i32,
    pub y: i32,
    pub z: i32,
    pub t: i32,
    pub seed: u32,
}

/// The integers a key is ordered and found by, in field order.
pub open spec fn key_fields(k: SampleKey) -> (i32, i32, i32, i32, u32) {
    (k.x, k.y, k.z, k.t, k.seed)
}

/// A cache of sampled values keyed by quantized sample position, counting
/// lookups that hit and miss.
#[derive(Debug, Clone)]
pub struct SampleCache<V> {
    store: BTreeMap<(i32, i32, i32, i32, u32), V>,
    pub hits: u64,
    pub misses: u64,
}

impl<V: Copy> SampleCache<V> {
    /// The cached values.
    pub closed spec fn view(&self) -> Map<SampleKey, V> {
        Map::new(
            |k: SampleKey| self.store@.contains_key(key_fields(k)),
            |k: SampleKey| self.store@[key_fields(k)],
        )
    }

    /// Lookups that found a value.
    pub closed spec fn hit_count(&self) -> u64 {
        self.hits
    }

    /// Lookups that found nothing.
    pub closed spec fn miss_count(&self) -> u64 {
        self.misses
    }

    /// An empty cache with no lookups counted.
    pub fn new() -> (r: Self)
        ensures
            r@ == Map::<SampleKey, V>::empty(),
            r.hit_count() == 0,
            r.miss_count() == 0,
    {
        let r = SampleCache { store: BTreeMap::new(), hits: 0, misses: 0 };
        assert(r@ =~= Map::<SampleKey, V>::empty());
        r
    }

    /// The cached value for `key`, counting a hit if there is one and a miss if not.
    pub fn get(&mut self, key: SampleKey) -> (r: Option<V>)
        requires
            old(self)@.contains_key(key) ==> old(self).hit_count() < u64::MAX,
            !old(self)@.contains_key(key) ==> old(self).miss_count() < u64::MAX,
        ensures
            final(self)@ == old(self)@,
            old(self)@.contains_key(key) ==> {
                &&& r == Some(old(self)@[key])
                &&& final(self).hit_count() == old(self).hit_count() + 1
                &&& final(self).miss_count() == old(self).miss_count()
            },
            !old(self)@.contains_key(key) ==> {
                &&& r.is_none()
                &&& final(self).hit_count() == old(self).hit_count()
                &&& final(self).miss_count() == old(self).miss_count() + 1
            },
    {
        broadcast use vstd::laws_cmp::group_laws_cmp;
        broadcast use vstd::std_specs::btree::group_btree_axioms;

        let k = (key.x, key.y, key.z, key.t, key.seed);
        match self.store.get(&k) {
            Some(v) => {
                let v = *v;
                self.hits = self.hits + 1;
                assert(self@ =~= old(self)@);
                Some(v)
            },
            None => {
                self.misses = self.misses + 1;
                assert(self@ =~= old(self)@);
                None
            },
        }
    }

    /// Caches `value` for `key`, replacing any earlier value.
    pub fn insert(&mut self, key: SampleKey, value: V)
        ensures
            final(self)@ == old(self)@.insert(key, value),
            final(self).hit_count() == old(self).hit_count(),
            final(self).miss_count() == old(self).miss_count(),
    {
        broadcast use vstd::laws_cmp::group_laws_cmp;
        broadcast use vstd::std_specs::btree::group_btree_axioms;

        let k = (key.x, key.y, key.z, key.t, key.seed);
        self.store.insert(k, value);
        assert forall|q: SampleKey| key_fields(q) == key_fields(key) implies q == key by {}
        assert(self@ =~= old(self)@.insert(key, value));
    }

    /// Drops every cached value; the counters stay.
    pub fn clear(&mut self)
        ensures
            final(self)@ == Map::<SampleKey, V>::empty(),
            final(self).hit_count() == old(self).hit_count(),
            final(self).miss_count() == old(self).miss_count(),
    {
        self.store.clear();
        assert(self@ =~= Map::<SampleKey, V>::empty());
    }
}

/// A value cached for a key is what a later lookup of that key finds, and
/// caching it leaves every other key's value as it was.
pub proof fn lemma_cached_value_is_read_back<V: Copy>(
    before: SampleCache<V>,
    after: SampleCache<V>,
    key: SampleKey,
    value: V,
)
    requires
        after@ == before@.insert(key, value),
    ensures
        after@.contains_key(key),
        after@[key] == value,
        forall|other: SampleKey|
            other != key ==> (#[trigger] after@.contains_key(other) == before@.contains_key(other)
                && (before@.contains_key(other) ==> after@[other] == before@[other])),
{
}

/// Scene bounds already computed, by scene seed.
#[derive(Debug, Clone)]
pub struct SceneBoundsCache<V> {
    pub entries: BTreeMap<u32, V>,
}

impl<V: Copy> SceneBoundsCache<V> {
    pub fn new() -> (r: Self)
        ensures
            r.entries@ == Map::<u32, V>::empty(),
    {
        SceneBoundsCache { entries: BTreeMap::new() }
    }

    /// The bounds stored for `seed`; computes them with `f` and stores them
    /// only when there are none.
    pub fn get_or_insert_with<F: FnOnce() -> V>(&mut self, seed: u32, f: F) -> (r: V)
        requires
            f.requires(()),
        ensures
            old(self).entries@.contains_key(seed) ==> {
                &&& r == old(self).entries@[seed]
                &&& final(self).entries@ == old(self).entries@
            },
            !old(self).entries@.contains_key(seed) ==> {
                &&& f.ensures((), r)
                &&& final(self).entries@ == old(self).entries@.insert(seed, r)
            },
    {
        broadcast use vstd::laws_cmp::group_laws_cmp;
        broadcast use vstd::std_specs::btree::group_btree_axioms;

        match self.entries.get(&seed) {
            Some(v) => *v,
            None => {
                let v = f();
                self.entries.insert(seed, v);
                v
            },
        }
    }
}

/// Remembers which scene seed and time tick the effect graph was last
/// evaluated for, so that a frame at the same tick can reuse the result.
#[derive(Debug, Clone, Default)]
pub struct EffectGraphEvalCache {
    pub last_scene_seed: Option<u32>,
    pub last_time_tick: Option<i32>,
    pub eval_count: u64,
}

impl EffectGraphEvalCache {
    /// Whether the last evaluation was for this seed at this tick.
    pub fn should_reuse_tick(&self, scene_seed: u32, time_tick: i32) -> (r: bool)
        ensures
            r == (self.last_scene_seed == Some(scene_seed) && self.last_time_tick == Some(
                time_tick,
            )),
    {
        let seed_matches = match self.last_scene_seed {
            Some(s) => s == scene_seed,
            None => false,
        };
        let tick_matches = match self.last_time_tick {
            Some(t) => t == time_tick,
            None => false,
        };
        seed_matches && tick_matches
    }

    /// Records an evaluation for this seed at this tick.
    pub fn mark_evaluated_tick(&mut self, scene_seed: u32, time_tick: i32)
        requires
            old(self).eval_count < u64::MAX,
        ensures
            final(self).last_scene_seed == Some(scene_seed),
            final(self).last_time_tick == Some(time_tick),
            final(self).eval_count == old(self).eval_count + 1,
    {
        self.last_scene_seed = Some(scene_seed);
        self.last_time_tick = Some(time_tick);
        self.eval_count = self.eval_count + 1;
    }
}

#[derive(Debug, Clone, Default, PartialEq)]
pub struct CacheStats {
    pub pattern_hits: u64,
    pub pattern_misses: u64,
    pub field_hits: u64,
    pub field_misses: u64,
    pub effect_graph_evals: u64,
}

#[derive(Debug, Clone, Default, PartialEq)]
pub struct RenderStats {
    pub raymarch_steps_total: u64,
    pub rays_traced: u64,
    pub cache: CacheStats,
}

/// The stages a frame went through and what they cost.
#[derive(Debug, Clone, Default, PartialEq)]
pub struct FrameDiagnostics {
    pub stages: Vec<&'static str>,
    pub stats: RenderStats,
}

/// A coordinate axis for domain repetition.
#[derive(Debug, Clone, Copy, PartialEq, Eq, Structural)]
pub enum Axis {
    X,
    Y,
    Z,
}

#[derive(Debug, Clone, Default)]
pub struct GpuSceneDescriptor {
    pub object_count: u32,
    pub field_count: u32,
    pub pattern_count: u32,
}

#[derive(Debug, Clone, Default)]
pub struct GpuMaterialDescriptor {
    pub material_count: u32,
}

#[derive(Debug, Clone, Default)]
pub struct GpuPatternDescriptor {
    pub layer_count: u32,
}

#[derive(Debug, Clone, Default)]
pub struct GpuPipelineDescriptor {
    pub width: u32,
    pub height: u32,
    pub max_steps: u32,
}

/// The pipeline a GPU backend would need for a frame of this size and step budget.
pub fn gpu_pipeline_descriptor(width: u32, height: u32, max_steps: u32) -> (r: GpuPipelineDescriptor)
    ensures
        r.width == width,
        r.height == height,
        r.max_steps == max_steps,
{
    GpuPipelineDescriptor { width, height, max_steps }
}

/// One output pixel.
#[derive(Debug, Clone, Copy, PartialEq, Eq, Structural)]
pub struct Rgba8 {
    pub r: u8,
    pub g: u8,
    pub b: u8,
    pub a: u8,
}

#[derive(Debug, Clone, Copy, PartialEq, Eq, Structural)]
pub enum RenderPipelineStage {
    Geometry,
    MaterialShading,
    PatternSampling,
    Particles,
    PostProcessing,
    TemporalFeedback,
}

/// The pipeline stages in the order a frame runs them.
pub const RENDER_PIPELINE_STAGES: [RenderPipelineStage; 6] = [
    RenderPipelineStage::Geometry,
    RenderPipelineStage::MaterialShading,
    RenderPipelineStage::PatternSampling,
    RenderPipelineStage::Particles,
    RenderPipelineStage::PostProcessing,
    RenderPipelineStage::TemporalFeedback,
];

#[derive(Debug, Clone, Copy, PartialEq, Eq, Structural)]
pub enum RendererStage {
    ScenePreprocess,
    EffectGraphEvaluation,
    GeometrySdf,
    MaterialPattern,
    LightingAtmosphere,
    PostProcessing,
    TemporalFeedback,
}

/// The renderer's stages in execution order.
pub const RENDERER_STAGES: [RendererStage; 7] = [
    RendererStage::ScenePreprocess,
    RendererStage::EffectGraphEvaluation,
    RendererStage::GeometrySdf,
    RendererStage::MaterialPattern,
    RendererStage::LightingAtmosphere,
    RendererStage::PostProcessing,
    RendererStage::TemporalFeedback,
];

/// A preprocessed scene with the diagnostics gathered so far.
pub struct StageExecutionResult<S> {
    pub scene: S,
    pub diagnostics: FrameDiagnostics,
}

/// Runs scene preprocessing and records the stage.
pub fn execute_scene_preprocess_stage<S, C, F: Fn(&S, C) -> S>(
    scene: &S,
    config: C,
    diagnostics: FrameDiagnostics,
    preprocess: F,
) -> (r: StageExecutionResult<S>)
    requires
        preprocess.requires((scene, config)),
    ensures
        preprocess.ensures((scene, config), r.scene),
        r.diagnostics.stages@.len() == diagnostics.stages@.len() + 1,
        forall|i: int|
            0 <= i < diagnostics.stages@.len() ==> r.diagnostics.stages@[i]
                == diagnostics.stages@[i],
        r.diagnostics.stages@.last()@ == "ScenePreprocess"@,
        r.diagnostics.stats == diagnostics.stats,
{
    let mut diagnostics = diagnostics;
    diagnostics.stages.push("ScenePreprocess");
    let scene = preprocess(scene, config);
    StageExecutionResult { scene, diagnostics }
}

/// Records post-processing as the frame's last stage.
pub fn finalize_frame_stage<R>(frame: R, diagnostics: FrameDiagnostics) -> (r: (R, FrameDiagnostics))
    ensures
        r.0 == frame,
        r.1.stages@.len() == diagnostics.stages@.len() + 1,
        forall|i: int| 0 <= i < diagnostics.stages@.len() ==> r.1.stages@[i] == diagnostics.stages@[i],
        r.1.stages@.last()@ == "PostProcessing"@,
        r.1.stats == diagnostics.stats,
{
    let mut diagnostics = diagnostics;
    diagnostics.stages.push("PostProcessing");
    (frame, diagnostics)
}

/// How often level of detail has cut fractal iterations.
#[derive(Debug, Default)]
pub struct LodActivations {
    count: u64,
}

impl LodActivations {
    pub closed spec fn activations(&self) -> u64 {
        self.count
    }

    pub fn new() -> (r: Self)
        ensures
            r.activations() == 0,
    {
        LodActivations { count: 0 }
    }

    /// Starts counting again from zero.
    pub fn reset_lod_counters(&mut self)
        ensures
            final(self).activations() == 0,
    {
        self.count = 0;
    }

    pub fn lod_activation_count(&self) -> (r: u64)
        ensures
            r == self.activations(),
    {
        self.count
    }

    /// Counts one activation, wrapping around at `u64::MAX`.
    pub fn record_activation(&mut self)
        ensures
            final(self).activations() == vstd::wrapping::u64_specs::wrapping_add(
                old(self).activations(),
                1,
            ),
    {
        self.count = self.count.wrapping_add(1);
    }
}

/// `scaled` raised to at least two and capped by the limit, itself at least two.
pub open spec fn lod_clamp(scaled: u32, iteration_limit: u32) -> u32 {
    let low: u32 = if scaled < 2 { 2 } else { scaled };
    let limit: u32 = if iteration_limit < 2 { 2 } else { iteration_limit };
    if low < limit { low } else { limit }
}

/// The fractal iteration count level of detail settles on: the distance-scaled
/// count `scaled`, at least two and at most the limit (itself at least two);
/// and whether that cut the base count.
pub fn clamp_lod_iterations(scaled: u32, iteration_limit: u32, base_iterations: u32) -> (r: (
    u32,
    bool,
))
    ensures
        r.0 == lod_clamp(scaled, iteration_limit),
        r.1 == (r.0 < base_iterations),
{
    let low = if scaled < 2 { 2 } else { scaled };
    let limit = if iteration_limit < 2 { 2 } else { iteration_limit };
    let clamped = if low < limit { low } else { limit };
    (clamped, clamped < base_iterations)
}

/// The recent frames temporal effects blend with, newest first.
#[derive(Debug, Clone, Default)]
pub struct TemporalBuffer<T> {
    pub history: Vec<T>,
    pub max_history: usize,
}

/// The history after `frame` is pushed with depth cap `cap`.
pub open spec fn pushed_history<T>(history: Seq<T>, frame: T, cap: nat) -> Seq<T> {
    let h = seq![frame] + history;
    if h.len() > cap {
        h.subrange(0, cap as int)
    } else {
        h
    }
}

impl<T> TemporalBuffer<T> {
    /// Puts `frame` first and keeps at most `history_depth` frames (at least one).
    pub fn push_history(&mut self, frame: T, history_depth: usize)
        ensures
            final(self).max_history == if history_depth == 0 { 1 } else { history_depth },
            final(self).history@ == pushed_history(
                old(self).history@,
                frame,
                final(self).max_history as nat,
            ),
            final(self).history@.len() <= final(self).max_history,
            final(self).history@[0] == frame,
    {
        let depth_cap = if history_depth == 0 { 1 } else { history_depth };
        self.max_history = depth_cap;
        self.history.insert(0, frame);
        if self.history.len() > depth_cap {
            self.history.truncate(depth_cap);
        }
        assert(self.history@ =~= pushed_history(old(self).history@, frame, depth_cap as nat));
    }
}

/// The integer hash behind `hash_noise`, before it is scaled to `[-1, 1]`.
pub open spec fn hash_noise_bits_spec(x: i32) -> i32 {
    let a = i32_specs::wrapping_mul((x >> 13i32) ^ x, 15731);
    let b = i32_specs::wrapping_add(
        i32_specs::wrapping_mul(i32_specs::wrapping_mul(a, a), 789221),
        1376312589,
    );
    b & 0x7fff_ffff
}

/// The non-negative integer hash behind `hash_noise`.
pub fn hash_noise_bits(x: i32) -> (r: i32)
    ensures
        r == hash_noise_bits_spec(x),
        r >= 0,
{
    let a = ((x >> 13) ^ x).wrapping_mul(15731);
    let b = (a.wrapping_mul(a).wrapping_mul(789221)).wrapping_add(1376312589);
    assert(b & 0x7fff_ffff >= 0) by (bit_vector);
    b & 0x7fff_ffff
}

/// The lattice hash input of a 3D cell under `seed`.
pub open spec fn lattice_hash_spec(x: i32, y: i32, z: i32, seed: i32) -> i32 {
    i32_specs::wrapping_add(
        i32_specs::wrapping_add(
            i32_specs::wrapping_add(
                i32_specs::wrapping_mul(x, 374761393),
                i32_specs::wrapping_mul(y, 668265263),
            ),
            i32_specs::wrapping_mul(z, 2147483647),
        ),
        i32_specs::wrapping_mul(seed, 1274126177),
    )
}

/// Mixes a lattice cell and a seed into the input of `hash_noise`.
pub fn lattice_hash(x: i32, y: i32, z: i32, seed: i32) -> (r: i32)
    ensures
        r == lattice_hash_spec(x, y, z, seed),
{
    x.wrapping_mul(374761393).wrapping_add(y.wrapping_mul(668265263)).wrapping_add(
        z.wrapping_mul(2147483647),
    ).wrapping_add(seed.wrapping_mul(1274126177))
}

} // verus!
