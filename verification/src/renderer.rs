use vstd::prelude::*;
use vstd::string::StringExecFns;
use crate::bootstrap::{backend_mode_name, RenderBackendMode, RenderBootstrapConfig, RenderStage};
use crate::text::{append_decimal, decimal_text};

verus! {

/// What one call of `run_frame` did.
#[derive(Debug, Clone, PartialEq, Structural)]
pub struct RenderFrameStats {
    pub frame_id: u64,
    pub stages_executed: usize,
}

/// The renderer's backend mode and whether it is usable.
#[derive(Debug, Clone, PartialEq, Structural)]
pub struct RenderBackendStatus {
    pub mode: RenderBackendMode,
    pub ready: bool,
}

/// Whether a backend switch changed anything.
#[derive(Debug, Clone, Copy, PartialEq, Eq, Structural)]
pub enum BackendTransition {
    Noop,
    Transitioned,
}

/// A renderer that draws nothing and counts frames. `S` is the rhythm-field
/// snapshot type it carries for the debug overlay.
#[derive(Debug)]
pub struct MockRenderer<S> {
    config: RenderBootstrapConfig,
    frames_rendered: u64,
    backend_ready: bool,
    current_rhythm_snapshot: Option<S>,
}

/// `backend_ready=...`, as the summary writes the flag.
pub open spec fn bool_text(b: bool) -> Seq<char> {
    if b { "true"@ } else { "false"@ }
}

impl<S: Copy> MockRenderer<S> {
    /// The configuration the renderer runs with.
    pub closed spec fn config_view(&self) -> RenderBootstrapConfig {
        self.config
    }

    /// Frames rendered so far.
    pub closed spec fn frame_count(&self) -> u64 {
        self.frames_rendered
    }

    /// Whether the current backend is usable.
    pub closed spec fn is_ready(&self) -> bool {
        self.backend_ready
    }

    /// The rhythm snapshot shown by the debug overlay, if any.
    pub closed spec fn snapshot(&self) -> Option<S> {
        self.current_rhythm_snapshot
    }

    /// A renderer that has drawn nothing; only the mock backend is ready.
    pub fn new(config: RenderBootstrapConfig) -> (r: Self)
        ensures
            r.config_view() == config,
            r.frame_count() == 0,
            r.is_ready() == (config.backend_mode == RenderBackendMode::Mock),
            r.snapshot().is_none(),
    {
        let backend_ready = config.backend_mode == RenderBackendMode::Mock;
        MockRenderer { config, frames_rendered: 0, backend_ready, current_rhythm_snapshot: None }
    }

    pub fn config(&self) -> (r: &RenderBootstrapConfig)
        ensures
            *r == self.config_view(),
    {
        &self.config
    }

    pub fn backend_status(&self) -> (r: RenderBackendStatus)
        ensures
            r.mode == self.config_view().backend_mode,
            r.ready == self.is_ready(),
    {
        RenderBackendStatus { mode: self.config.backend_mode, ready: self.backend_ready }
    }

    /// Switches the backend mode; the renderer is ready again only on the mock backend.
    pub fn transition_backend_mode(&mut self, mode: RenderBackendMode) -> (r: BackendTransition)
        ensures
            final(self).frame_count() == old(self).frame_count(),
            final(self).snapshot() == old(self).snapshot(),
            final(self).config_view().app_name == old(self).config_view().app_name,
            final(self).config_view().viewport_width == old(self).config_view().viewport_width,
            final(self).config_view().viewport_height == old(self).config_view().viewport_height,
            final(self).config_view().backend_mode == mode,
            old(self).config_view().backend_mode == mode ==> {
                &&& r == BackendTransition::Noop
                &&& final(self).is_ready() == old(self).is_ready()
            },
            old(self).config_view().backend_mode != mode ==> {
                &&& r == BackendTransition::Transitioned
                &&& final(self).is_ready() == (mode == RenderBackendMode::Mock)
            },
    {
        if self.config.backend_mode == mode {
            return BackendTransition::Noop;
        }
        self.config.backend_mode = mode;
        self.backend_ready = mode == RenderBackendMode::Mock;
        BackendTransition::Transitioned
    }

    pub fn set_rhythm_snapshot(&mut self, snapshot: S)
        ensures
            final(self).snapshot() == Some(snapshot),
            final(self).frame_count() == old(self).frame_count(),
            final(self).is_ready() == old(self).is_ready(),
            final(self).config_view() == old(self).config_view(),
    {
        self.current_rhythm_snapshot = Some(snapshot);
    }

    pub fn clear_rhythm_snapshot(&mut self)
        ensures
            final(self).snapshot().is_none(),
            final(self).frame_count() == old(self).frame_count(),
            final(self).is_ready() == old(self).is_ready(),
            final(self).config_view() == old(self).config_view(),
    {
        self.current_rhythm_snapshot = None;
    }

    pub fn rhythm_snapshot(&self) -> (r: Option<S>)
        ensures
            r == self.snapshot(),
    {
        self.current_rhythm_snapshot
    }

    /// The overlay header: frame count, backend mode and readiness on lines of
    /// their own, then a `Rhythm:` line when a snapshot is held.
    pub open spec fn summary_header(&self) -> Seq<char> {
        "frames_rendered="@ + decimal_text(self.frame_count() as nat) + "\nbackend_mode="@
            + backend_mode_name(self.config_view().backend_mode) + "\nbackend_ready="@
            + bool_text(self.is_ready()) + if self.snapshot().is_some() {
            "\nRhythm:"@
        } else {
            Seq::empty()
        }
    }

    /// The debug overlay text, up to the snapshot's values.
    pub fn world_debug_summary(&self) -> (s: String)
        ensures
            s@ == self.summary_header(),
    {
        let mut s = String::from_str("frames_rendered=");
        append_decimal(&mut s, self.frames_rendered);
        s.append("\nbackend_mode=");
        s.append(self.config.backend_mode.as_str());
        s.append("\nbackend_ready=");
        if self.backend_ready {
            s.append("true");
        } else {
            s.append("false");
        }
        if self.current_rhythm_snapshot.is_some() {
            s.append("\nRhythm:");
        }
        assert(s@ =~= self.summary_header());
        s
    }

    /// Counts one frame through `stages`.
    pub fn run_frame(&mut self, stages: &[RenderStage]) -> (r: RenderFrameStats)
        requires
            old(self).frame_count() < u64::MAX,
        ensures
            final(self).frame_count() == old(self).frame_count() + 1,
            r.frame_id == final(self).frame_count(),
            r.stages_executed == stages@.len(),
            final(self).is_ready() == old(self).is_ready(),
            final(self).snapshot() == old(self).snapshot(),
            final(self).config_view() == old(self).config_view(),
    {
        self.frames_rendered = self.frames_rendered + 1;
        RenderFrameStats { frame_id: self.frames_rendered, stages_executed: stages.len() }
    }
}

} // verus!
