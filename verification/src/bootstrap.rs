use vstd::prelude::*;
use vstd::string::StringExecFns;
use crate::text::{chars_eq_str, lower_chars, lowered, parse_usize, parsed_usize, trim_str, trimmed};

verus! {

/// Stages of one rendered frame.
#[derive(Debug, Clone, Copy, PartialEq, Eq, Structural)]
pub enum RenderStage {
    RenderPrepare,
    Render,
    Present,
}

/// The stages of a main frame, in order.
pub const RENDER_MAIN_STAGES: [RenderStage; 3] = [
    RenderStage::RenderPrepare,
    RenderStage::Render,
    RenderStage::Present,
];

/// Which renderer backend the runtime is configured for.
#[derive(Debug, Clone, Copy, PartialEq, Eq, Structural)]
pub enum RenderBackendMode {
    Mock,
    WgpuPlanned,
}

impl RenderBackendMode {
    /// The variant's name, as `{:?}` prints it.
    pub fn as_str(&self) -> (s: &'static str)
        ensures
            s@ == backend_mode_name(*self),
    {
        match self {
            RenderBackendMode::Mock => "Mock",
            RenderBackendMode::WgpuPlanned => "WgpuPlanned",
        }
    }
}

pub open spec fn backend_mode_name(mode: RenderBackendMode) -> Seq<char> {
    match mode {
        RenderBackendMode::Mock => "Mock"@,
        RenderBackendMode::WgpuPlanned => "WgpuPlanned"@,
    }
}

/// Window and backend settings the renderer boots with.
#[derive(Debug, Clone)]
pub struct RenderBootstrapConfig {
    pub app_name: String,
    pub viewport_width: u32,
    pub viewport_height: u32,
    pub backend_mode: RenderBackendMode,
}

impl RenderBootstrapConfig {
    /// The same configuration with another backend mode.
    pub fn with_backend_mode(self, mode: RenderBackendMode) -> (r: Self)
        ensures
            r.backend_mode == mode,
            r.app_name@ == self.app_name@,
            r.viewport_width == self.viewport_width,
            r.viewport_height == self.viewport_height,
    {
        let mut this = self;
        this.backend_mode = mode;
        this
    }
}

impl Default for RenderBootstrapConfig {
    /// "Aurex-X" at 1280x720 on the mock backend.
    fn default() -> (r: Self)
        ensures
            r.app_name@ == "Aurex-X"@,
            r.viewport_width == 1280,
            r.viewport_height == 720,
            r.backend_mode == RenderBackendMode::Mock,
    {
        RenderBootstrapConfig {
            app_name: String::from_str("Aurex-X"),
            viewport_width: 1280,
            viewport_height: 720,
            backend_mode: RenderBackendMode::Mock,
        }
    }
}

/// What a backend mode can do.
#[derive(Debug, Clone, PartialEq, Eq, Structural)]
pub struct RenderBackendReadiness {
    pub has_windowing: bool,
    pub has_gpu_backend: bool,
    pub can_present: bool,
}

impl RenderBackendReadiness {
    /// The mock backend can do nothing; the planned wgpu backend can do all three.
    pub fn for_mode(mode: RenderBackendMode) -> (r: Self)
        ensures
            r.has_windowing == (mode == RenderBackendMode::WgpuPlanned),
            r.has_gpu_backend == (mode == RenderBackendMode::WgpuPlanned),
            r.can_present == (mode == RenderBackendMode::WgpuPlanned),
    {
        match mode {
            RenderBackendMode::Mock => RenderBackendReadiness {
                has_windowing: false,
                has_gpu_backend: false,
                can_present: false,
            },
            RenderBackendMode::WgpuPlanned => RenderBackendReadiness {
                has_windowing: true,
                has_gpu_backend: true,
                can_present: true,
            },
        }
    }
}

/// One step of bringing up the real renderer.
#[derive(Debug, Clone, Copy, PartialEq, Eq, Structural)]
pub enum RenderBootstrapStep {
    InitWindow,
    InitWgpuInstance,
    InitSurface,
    RequestDevice,
    ConfigureSwapchain,
    UploadBootScreenQuad,
    DrawBootScreen,
}

pub open spec fn step_name(step: RenderBootstrapStep) -> Seq<char> {
    match step {
        RenderBootstrapStep::InitWindow => "InitWindow"@,
        RenderBootstrapStep::InitWgpuInstance => "InitWgpuInstance"@,
        RenderBootstrapStep::InitSurface => "InitSurface"@,
        RenderBootstrapStep::RequestDevice => "RequestDevice"@,
        RenderBootstrapStep::ConfigureSwapchain => "ConfigureSwapchain"@,
        RenderBootstrapStep::UploadBootScreenQuad => "UploadBootScreenQuad"@,
        RenderBootstrapStep::DrawBootScreen => "DrawBootScreen"@,
    }
}

impl RenderBootstrapStep {
    /// The step's name.
    pub fn as_str(&self) -> (s: &'static str)
        ensures
            s@ == step_name(*self),
    {
        match self {
            RenderBootstrapStep::InitWindow => "InitWindow",
            RenderBootstrapStep::InitWgpuInstance => "InitWgpuInstance",
            RenderBootstrapStep::InitSurface => "InitSurface",
            RenderBootstrapStep::RequestDevice => "RequestDevice",
            RenderBootstrapStep::ConfigureSwapchain => "ConfigureSwapchain",
            RenderBootstrapStep::UploadBootScreenQuad => "UploadBootScreenQuad",
            RenderBootstrapStep::DrawBootScreen => "DrawBootScreen",
        }
    }
}

/// The bootstrap steps in the order they run.
pub open spec fn bootstrap_steps() -> Seq<RenderBootstrapStep> {
    seq![
        RenderBootstrapStep::InitWindow,
        RenderBootstrapStep::InitWgpuInstance,
        RenderBootstrapStep::InitSurface,
        RenderBootstrapStep::RequestDevice,
        RenderBootstrapStep::ConfigureSwapchain,
        RenderBootstrapStep::UploadBootScreenQuad,
        RenderBootstrapStep::DrawBootScreen,
    ]
}


/// One step of a bootstrap plan and whether the backend can run it.
#[derive(Debug, Clone, PartialEq, Eq, Structural)]
pub struct RenderBootstrapTaskStatus {
    pub step: RenderBootstrapStep,
    pub ready: bool,
}

/// The ordered bootstrap steps of a backend mode.
#[derive(Debug, Clone, PartialEq, Eq)]
pub struct RenderBootstrapPlan {
    pub tasks: Vec<RenderBootstrapTaskStatus>,
}

/// Number of ready tasks in `tasks`.
pub open spec fn count_ready(tasks: Seq<RenderBootstrapTaskStatus>) -> nat
    decreases tasks.len(),
{
    if tasks.len() == 0 {
        0
    } else {
        count_ready(tasks.drop_last()) + if tasks.last().ready { 1nat } else { 0nat }
    }
}

/// `name:ready` of one task, as the summary writes it.
pub open spec fn task_text(task: RenderBootstrapTaskStatus) -> Seq<char> {
    step_name(task.step) + ":"@ + if task.ready { "true"@ } else { "false"@ }
}

/// The summary of `tasks`: their texts joined by commas.
pub open spec fn summary_text(tasks: Seq<RenderBootstrapTaskStatus>) -> Seq<char>
    decreases tasks.len(),
{
    if tasks.len() == 0 {
        Seq::empty()
    } else if tasks.len() == 1 {
        task_text(tasks[0])
    } else {
        summary_text(tasks.drop_last()) + ","@ + task_text(tasks.last())
    }
}

/// The tasks of the plan for `mode`: every bootstrap step, in order, ready
/// exactly when the mode is the planned wgpu backend.
pub open spec fn plan_tasks(mode: RenderBackendMode) -> Seq<RenderBootstrapTaskStatus> {
    bootstrap_steps().map_values(
        |step: RenderBootstrapStep|
            RenderBootstrapTaskStatus { step, ready: mode == RenderBackendMode::WgpuPlanned },
    )
}

impl RenderBootstrapPlan {
    pub fn for_mode(mode: RenderBackendMode) -> (r: Self)
        ensures
            r.tasks@ == plan_tasks(mode),
    {
        let ready = match mode {
            RenderBackendMode::WgpuPlanned => true,
            RenderBackendMode::Mock => false,
        };
        let mut tasks: Vec<RenderBootstrapTaskStatus> = Vec::new();
        tasks.push(RenderBootstrapTaskStatus { step: RenderBootstrapStep::InitWindow, ready });
        tasks.push(RenderBootstrapTaskStatus { step: RenderBootstrapStep::InitWgpuInstance, ready });
        tasks.push(RenderBootstrapTaskStatus { step: RenderBootstrapStep::InitSurface, ready });
        tasks.push(RenderBootstrapTaskStatus { step: RenderBootstrapStep::RequestDevice, ready });
        tasks.push(RenderBootstrapTaskStatus { step: RenderBootstrapStep::ConfigureSwapchain, ready });
        tasks.push(RenderBootstrapTaskStatus { step: RenderBootstrapStep::UploadBootScreenQuad, ready });
        tasks.push(RenderBootstrapTaskStatus { step: RenderBootstrapStep::DrawBootScreen, ready });
        assert(tasks@ =~= plan_tasks(mode));
        RenderBootstrapPlan { tasks }
    }

    /// Number of tasks the backend can run.
    pub fn ready_count(&self) -> (n: usize)
        ensures
            n == count_ready(self.tasks@),
    {
        let mut n: usize = 0;
        let mut i: usize = 0;
        while i < self.tasks.len()
            invariant
                i <= self.tasks.len(),
                n == count_ready(self.tasks@.subrange(0, i as int)),
                n <= i,
            decreases self.tasks.len() - i,
        {
            assert(self.tasks@.subrange(0, i + 1).drop_last() =~= self.tasks@.subrange(0, i as int));
            if self.tasks[i].ready {
                n = n + 1;
            }
            i = i + 1;
        }
        assert(self.tasks@.subrange(0, i as int) =~= self.tasks@);
        n
    }

    pub fn total_count(&self) -> (n: usize)
        ensures
            n == self.tasks@.len(),
    {
        self.tasks.len()
    }

    /// `step:ready` for every task, joined by commas.
    pub fn summary(&self) -> (s: String)
        ensures
            s@ == summary_text(self.tasks@),
    {
        let mut s = String::new();
        let mut i: usize = 0;
        while i < self.tasks.len()
            invariant
                i <= self.tasks.len(),
                s@ == summary_text(self.tasks@.subrange(0, i as int)),
            decreases self.tasks.len() - i,
        {
            let ghost prefix = self.tasks@.subrange(0, i + 1);
            assert(prefix.drop_last() =~= self.tasks@.subrange(0, i as int));
            if i > 0 {
                s.append(",");
            }
            s.append(self.tasks[i].step.as_str());
            s.append(":");
            if self.tasks[i].ready {
                s.append("true");
            } else {
                s.append("false");
            }
            proof {
                reveal_strlit(",");
                reveal_strlit(":");
                reveal_strlit("true");
                reveal_strlit("false");
                if i == 0 {
                    assert(prefix.len() == 1);
                }
            }
            assert(s@ =~= summary_text(prefix));
            i = i + 1;
        }
        assert(self.tasks@.subrange(0, i as int) =~= self.tasks@);
        s
    }
}

/// Runs the bootstrap plan of a backend mode one step at a time.
#[derive(Debug, PartialEq, Eq)]
pub struct RenderBootstrapExecutor {
    plan: RenderBootstrapPlan,
    next_step_index: usize,
}

impl RenderBootstrapExecutor {
    #[verifier::type_invariant]
    spec fn next_within_plan(self) -> bool {
        self.next_step_index <= self.plan.tasks@.len()
    }

    /// The steps of the executor's plan, in order.
    pub closed spec fn steps(self) -> Seq<RenderBootstrapStep> {
        self.plan.tasks@.map_values(|t: RenderBootstrapTaskStatus| t.step)
    }

    /// The tasks of the executor's plan.
    pub closed spec fn tasks(self) -> Seq<RenderBootstrapTaskStatus> {
        self.plan.tasks@
    }

    /// How many steps have run.
    pub closed spec fn executed(self) -> nat {
        self.next_step_index as nat
    }

    pub fn new(mode: RenderBackendMode) -> (r: Self)
        ensures
            r.tasks() == plan_tasks(mode),
            r.steps() == bootstrap_steps(),
            r.executed() == 0,
            r.executed() <= r.steps().len(),
    {
        let plan = RenderBootstrapPlan::for_mode(mode);
        let r = RenderBootstrapExecutor { plan, next_step_index: 0 };
        assert(r.steps() =~= bootstrap_steps());
        r
    }

    /// Runs the next step of the plan and returns it; `None` once every step has run.
    pub fn execute_next(&mut self) -> (r: Option<RenderBootstrapStep>)
        ensures
            executes_next(*old(self), *final(self), r),
    {
        proof { use_type_invariant(&*self); }
        assert(self.steps().len() == self.plan.tasks@.len());
        if self.next_step_index < self.plan.tasks.len() {
            let step = self.plan.tasks[self.next_step_index].step;
            self.next_step_index = self.next_step_index + 1;
            Some(step)
        } else {
            None
        }
    }

    /// Number of steps that have run.
    pub fn completed_count(&self) -> (n: usize)
        ensures
            n == self.executed(),
            n <= self.steps().len(),
    {
        proof { use_type_invariant(self); }
        if self.next_step_index < self.plan.tasks.len() {
            self.next_step_index
        } else {
            self.plan.tasks.len()
        }
    }

    /// Number of steps in the plan.
    pub fn total_count(&self) -> (n: usize)
        ensures
            n == self.steps().len(),
    {
        self.plan.tasks.len()
    }

    /// The step that ran last, if any has.
    pub fn last_completed_step(&self) -> (r: Option<RenderBootstrapStep>)
        ensures
            self.executed() == 0 ==> r.is_none(),
            self.executed() > 0 ==> r == Some(self.steps()[self.executed() - 1]),
    {
        proof { use_type_invariant(self); }
        if self.next_step_index == 0 {
            None
        } else {
            Some(self.plan.tasks[self.next_step_index - 1].step)
        }
    }
}

/// `after` and `r` are what one call of `execute_next` on `before` gives.
pub open spec fn executes_next(
    before: RenderBootstrapExecutor,
    after: RenderBootstrapExecutor,
    r: Option<RenderBootstrapStep>,
) -> bool {
    &&& after.tasks() == before.tasks()
    &&& after.steps() == before.steps()
    &&& after.executed() <= after.steps().len()
    &&& before.executed() < before.steps().len() ==> {
        &&& r == Some(before.steps()[before.executed() as int])
        &&& after.executed() == before.executed() + 1
    }
    &&& before.executed() >= before.steps().len() ==> {
        &&& r.is_none()
        &&& after.executed() == before.executed()
    }
}

/// Run from a new executor, call `k` (counting from zero) returns the `k`-th
/// bootstrap step and leaves `k + 1` steps done while steps remain; every
/// later call returns nothing and leaves all seven done.
pub proof fn lemma_executor_runs_plan_in_order(
    es: Seq<RenderBootstrapExecutor>,
    rs: Seq<Option<RenderBootstrapStep>>,
)
    requires
        es.len() == rs.len() + 1,
        es[0].executed() == 0,
        es[0].steps() == bootstrap_steps(),
        forall|k: int| 0 <= k < rs.len() ==> executes_next(es[k], #[trigger] es[k + 1], rs[k]),
    ensures
        forall|k: int|
            0 <= k < rs.len() ==> if k < 7 {
                &&& #[trigger] rs[k] == Some(bootstrap_steps()[k])
                &&& es[k + 1].executed() == k + 1
            } else {
                &&& rs[k].is_none()
                &&& es[k + 1].executed() == 7
            },
    decreases rs.len(),
{
    if rs.len() > 0 {
        let n = rs.len() - 1;
        let es0 = es.drop_last();
        let rs0 = rs.drop_last();
        assert forall|k: int| 0 <= k < rs0.len() implies executes_next(es0[k], #[trigger] es0[k + 1], rs0[k]) by {
            assert(executes_next(es[k], es[k + 1], rs[k]));
        }
        lemma_executor_runs_plan_in_order(es0, rs0);
        assert forall|k: int| 0 <= k <= n implies #[trigger] es[k].steps() == bootstrap_steps() by {
            lemma_executor_steps_stay(es, rs, k);
        }
        assert(executes_next(es[n], es[n + 1], rs[n]));
        if n > 0 {
            assert(rs0[n - 1] == rs[n - 1]);
            assert(es0[n] == es[n]);
        }
        assert forall|k: int| 0 <= k < n implies rs0[k] == rs[k] && es0[k + 1] == es[k + 1] by {}
    }
}

proof fn lemma_executor_steps_stay(
    es: Seq<RenderBootstrapExecutor>,
    rs: Seq<Option<RenderBootstrapStep>>,
    k: int,
)
    requires
        es.len() == rs.len() + 1,
        es[0].steps() == bootstrap_steps(),
        forall|j: int| 0 <= j < rs.len() ==> executes_next(es[j], #[trigger] es[j + 1], rs[j]),
        0 <= k < es.len(),
    ensures
        es[k].steps() == bootstrap_steps(),
    decreases k,
{
    if k > 0 {
        let j = k - 1;
        lemma_executor_steps_stay(es, rs, j);
        assert(executes_next(es[j], es[j + 1], rs[j]));
    }
}

impl RenderBootstrapPlan {
    /// A copy of the plan, task for task.
    fn copy_tasks(&self) -> (r: Self)
        ensures
            r.tasks@ == self.tasks@,
    {
        let mut tasks: Vec<RenderBootstrapTaskStatus> = Vec::new();
        let mut i: usize = 0;
        while i < self.tasks.len()
            invariant
                i <= self.tasks.len(),
                tasks@ == self.tasks@.subrange(0, i as int),
            decreases self.tasks.len() - i,
        {
            let t = &self.tasks[i];
            tasks.push(RenderBootstrapTaskStatus { step: t.step, ready: t.ready });
            assert(tasks@ =~= self.tasks@.subrange(0, i + 1));
            i = i + 1;
        }
        assert(self.tasks@.subrange(0, i as int) =~= self.tasks@);
        RenderBootstrapPlan { tasks }
    }
}

impl Clone for RenderBootstrapExecutor {
    fn clone(&self) -> (r: Self)
        ensures
            r.tasks() == self.tasks(),
            r.steps() == self.steps(),
            r.executed() == self.executed(),
    {
        proof { use_type_invariant(self); }
        RenderBootstrapExecutor { plan: self.plan.copy_tasks(), next_step_index: self.next_step_index }
    }
}


/// How bringing up the real renderer went.
#[derive(Debug, Clone, PartialEq, Eq, Structural)]
pub enum RealRendererBootstrapResult {
    FeatureDisabled,
    AdapterUnavailable,
    DeviceRequestFailed,
    Ready,
}

/// The outcome of bringing up the real renderer, with a readable detail.
#[derive(Debug, Clone, PartialEq, Eq)]
pub struct RealRendererBootstrapStatus {
    pub result: RealRendererBootstrapResult,
    pub detail: String,
}

/// The status of a build without the real graphics backend.
pub fn attempt_real_renderer_bootstrap() -> (r: RealRendererBootstrapStatus)
    ensures
        r.result == RealRendererBootstrapResult::FeatureDisabled,
        r.detail@ == "build without real_graphics feature"@,
{
    RealRendererBootstrapStatus {
        result: RealRendererBootstrapResult::FeatureDisabled,
        detail: String::from_str("build without real_graphics feature"),
    }
}

/// The real event loop of a build without the real graphics backend: it
/// refuses to start.
pub fn run_real_renderer_event_loop() -> (r: Result<(), String>)
    ensures
        r matches Err(e) && e@ == "real_graphics feature is disabled"@,
{
    Err(String::from_str("real_graphics feature is disabled"))
}

/// The status after asking the GPU for an adapter and then a device: the
/// adapter's error if it failed, else the device's error if that failed,
/// else ready.
pub fn real_bootstrap_status(adapter_error: Option<String>, device_error: Option<String>) -> (r:
    RealRendererBootstrapStatus)
    ensures
        adapter_error matches Some(e) ==> r.result == RealRendererBootstrapResult::AdapterUnavailable
            && r.detail@ == "request_adapter failed: "@ + e@,
        adapter_error is None ==> (device_error matches Some(e) ==> r.result
            == RealRendererBootstrapResult::DeviceRequestFailed && r.detail@
            == "request_device failed: "@ + e@),
        adapter_error is None && device_error is None ==> r.result
            == RealRendererBootstrapResult::Ready && r.detail@
            == "adapter acquired; device initialized; surface configuration deferred to runtime loop"@,
{
    match adapter_error {
        Some(e) => {
            let mut detail = String::from_str("request_adapter failed: ");
            detail.append(e.as_str());
            RealRendererBootstrapStatus { result: RealRendererBootstrapResult::AdapterUnavailable, detail }
        },
        None => match device_error {
            Some(e) => {
                let mut detail = String::from_str("request_device failed: ");
                detail.append(e.as_str());
                RealRendererBootstrapStatus {
                    result: RealRendererBootstrapResult::DeviceRequestFailed,
                    detail,
                }
            },
            None => RealRendererBootstrapStatus {
                result: RealRendererBootstrapResult::Ready,
                detail: String::from_str(
                    "adapter acquired; device initialized; surface configuration deferred to runtime loop",
                ),
            },
        },
    }
}

/// Whether the procedural renderer's setup is skipped: only while it is
/// active, and only when a diagnostic triangle or a bypass is asked for.
pub fn should_short_circuit_procedural_setup(
    procedural_renderer_active: bool,
    diagnostic_gpu_triangle: bool,
    bypass_procedural_setup: bool,
) -> (r: bool)
    ensures
        r == (procedural_renderer_active && (diagnostic_gpu_triangle || bypass_procedural_setup)),
{
    procedural_renderer_active && (diagnostic_gpu_triangle || bypass_procedural_setup)
}

/// The words that switch a flag on, in lower case.
pub open spec fn is_flag_word(s: Seq<char>) -> bool {
    s == "1"@ || s == "true"@ || s == "yes"@ || s == "on"@
}

/// Whether an environment flag's value switches it on: "1", "true", "yes" or
/// "on" in any ASCII case; an unset flag is off.
pub fn flag_enabled(value: Option<&str>) -> (r: bool)
    ensures
        r == (value matches Some(v) && is_flag_word(lowered(v@))),
{
    match value {
        None => false,
        Some(v) => {
            let l = lower_chars(v);
            chars_eq_str(&l, "1") || chars_eq_str(&l, "true") || chars_eq_str(&l, "yes")
                || chars_eq_str(&l, "on")
        },
    }
}

/// Frames the procedural renderer warms up for: a positive count given in
/// decimal, else 120.
pub fn warmup_frames_from_value(value: Option<&str>) -> (r: usize)
    ensures
        r == match value {
            Some(v) => match parsed_usize(v@) {
                Some(n) => if n > 0 { n } else { 120 },
                None => 120,
            },
            None => 120,
        },
{
    match value {
        Some(v) => match parse_usize(v) {
            Some(n) => {
                if n > 0 {
                    n
                } else {
                    120
                }
            },
            None => 120,
        },
        None => 120,
    }
}

/// The scene a value asks to show first: the value without surrounding
/// whitespace, unless nothing is left.
pub fn scene_override_from_value(value: Option<&str>) -> (r: Option<String>)
    ensures
        match value {
            Some(v) => if trimmed(v@).len() > 0 {
                r matches Some(s) && s@ == trimmed(v@)
            } else {
                r is None
            },
            None => r is None,
        },
{
    match value {
        Some(v) => {
            let t = trim_str(v);
            if t.unicode_len() > 0 {
                Some(String::from_str(t))
            } else {
                None
            }
        },
        None => None,
    }
}

} // verus!
