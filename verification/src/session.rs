//! The frame session: one object owning the presentation context, the
//! pipeline, the GUI overlay and the last known window size, constructed
//! once at startup and driven by the event loop — dispatch on every event,
//! one render per displayed frame.

use vstd::prelude::*;
use vstd::pervasive::unreached;

use crate::driver::Action;
use crate::driver::LoopEvent;
use crate::driver::decide;
use crate::geom::Extent;
use crate::geom::Pos;
use crate::gui::GuiOverlay;
use crate::gui::Phase;
use crate::gui_desc::InputState;
use crate::gui_desc::UiDescription;
use crate::gui_desc::ui_describes;
use crate::gui::translated;
use crate::pipeline::Pipeline;
use crate::pipeline::built_pipeline;
use crate::present::Frame;
use crate::present::PresentError;
use crate::present::PresentationContext;
use crate::present::can_acquire;
use crate::present::initial_config;
use crate::present::rebuilt_config;

verus! {

/// A color with each channel in tenths of full intensity, the granularity
/// the fixed palette needs.
#[derive(Clone, Copy, Debug, PartialEq, Eq, Structural)]
pub struct Color {
    pub r_tenths: u8,
    pub g_tenths: u8,
    pub b_tenths: u8,
    pub a_tenths: u8,
}

/// The fixed background color every frame clears to: one tenth red, two
/// tenths green, three tenths blue, fully opaque.
pub open spec fn fixed_clear_color() -> Color {
    Color { r_tenths: 1u8, g_tenths: 2u8, b_tenths: 3u8, a_tenths: 10u8 }
}

/// Produce the fixed background color.
pub fn clear_color() -> (c: Color)
    ensures
        c == fixed_clear_color(),
{
    Color { r_tenths: 1, g_tenths: 2, b_tenths: 3, a_tenths: 10 }
}

/// One non-indexed draw call.
#[derive(Clone, Copy, Debug, PartialEq, Eq, Structural)]
pub struct DrawCall {
    pub vertex_count: u32,
    pub instance_count: u32,
    pub uses_index_buffer: bool,
}

/// The one fixed draw of the scene: three vertices, one instance, no index
/// buffer and no per-vertex data — the triangle's device-space coordinates
/// are baked into the vertex stage.
pub open spec fn triangle_draw() -> DrawCall {
    DrawCall { vertex_count: 3u32, instance_count: 1u32, uses_index_buffer: false }
}

/// Everything one render pass records, in order: the acquired frame, the
/// clear to the fixed background color, the fixed triangle draw, and the
/// GUI declared on top. Submitting this to the queue presents the frame.
#[derive(Debug, PartialEq, Eq)]
pub struct FrameRender {
    pub frame: Frame,
    pub clear: Color,
    pub triangle: DrawCall,
    pub gui: UiDescription,
}

/// The session: every handle the frame lifecycle needs, owned in one
/// place. The pipeline is immutable after construction; the context and
/// the overlay are mutated only through the event and render paths.
#[derive(Clone, Copy, Debug, PartialEq, Eq, Structural)]
pub struct Session {
    pub ctx: PresentationContext,
    pub pipeline: Pipeline,
    pub gui: GuiOverlay,
    pub window: Extent,
}

impl Session {
    /// The session's well-formedness: the presentation queue matches the
    /// last known window size (so it is not stale), and the pipeline was
    /// built for the queue's output format. Construction establishes it
    /// and every event preserves it.
    pub open spec fn wf(self) -> bool {
        &&& can_acquire(self.ctx.config, self.window)
        &&& self.pipeline == built_pipeline(self.ctx.config.format)
    }

    /// Build the session for a window whose client area has the given
    /// extent: the initial presentation queue sized to it, the pipeline
    /// built for the queue's format, and a fresh overlay.
    pub fn new(window: Extent) -> (s: Session)
        ensures
            s.ctx.config == initial_config(window),
            s.pipeline == built_pipeline(initial_config(window).format),
            s.window == window,
            s.gui.phase == Phase::Idle,
            s.gui.input == (InputState { pointer: Pos { x: 0u32, y: 0u32 } }),
            s.gui.delta_ms == 0,
            s.wf(),
    {
        let ctx = PresentationContext::initialize(window);
        let pipeline = Pipeline::build(ctx.config.format);
        Session { ctx, pipeline, gui: GuiOverlay::new(), window }
    }

    /// The application-level input handler the driver consults first. It
    /// never consumes an event in this design: every event falls through
    /// to the driver's own handling.
    pub fn input(&mut self, e: &LoopEvent) -> (consumed: bool)
        ensures
            !consumed,
            *final(self) == *old(self),
    {
        let _ = e;
        false
    }

    /// The per-frame update hook: a no-op in this design.
    pub fn update(&mut self)
        ensures
            *final(self) == *old(self),
    {
    }

    /// Handle one delivered event: consult the input handler, decide the
    /// loop's next action, record a size change by rebuilding the modelled
    /// presentation queue, and feed the event — recognised or not — to the
    /// GUI input accumulator. Preserves well-formedness: a recorded resize
    /// updates queue and window size together.
    pub fn handle_event(&mut self, e: &LoopEvent) -> (a: Action)
        ensures
            a == decide(*e),
            match decide(*e) {
                Action::Rebuild(size) => final(self).window == size && final(self).ctx.config
                    == rebuilt_config(old(self).ctx.config, size),
                _ => final(self).window == old(self).window && final(self).ctx == old(self).ctx,
            },
            final(self).pipeline == old(self).pipeline,
            final(self).gui == (GuiOverlay {
                input: translated(old(self).gui.input, *e),
                ..old(self).gui
            }),
            old(self).wf() ==> final(self).wf(),
    {
        let consumed = self.input(e);
        let a = if consumed {
            Action::Ignore
        } else {
            crate::driver::dispatch(e)
        };
        match a {
            Action::Rebuild(size) => {
                self.window = size;
                self.ctx.resize(size);
            },
            _ => {},
        }
        self.gui.translate_event(e);
        a
    }

    /// Render one frame: acquire the next presentable image, record the
    /// clear to the fixed color and the fixed triangle draw, then run the
    /// overlay's begin/declare/render sequence into the same pass and hand
    /// the whole recording back for submission. Fails exactly when the
    /// queue is stale — its dimensions no longer match the window — in
    /// which case nothing is touched; the driver treats that as fatal.
    pub fn render_frame(&mut self, delta_ms: u64) -> (r: Result<FrameRender, PresentError>)
        ensures
            can_acquire(old(self).ctx.config, old(self).window) ==> (r matches Ok(fr) && {
                &&& fr.frame.width == old(self).ctx.config.width
                &&& fr.frame.height == old(self).ctx.config.height
                &&& fr.clear == fixed_clear_color()
                &&& fr.triangle == triangle_draw()
                &&& ui_describes(fr.gui, old(self).window, old(self).gui.input)
                &&& final(self).gui == (GuiOverlay {
                    phase: Phase::Idle,
                    input: old(self).gui.input,
                    frame_size: old(self).window,
                    delta_ms: delta_ms,
                })
            }),
            !can_acquire(old(self).ctx.config, old(self).window) ==> (r
                matches Err(e) && e == PresentError::AcquireTimeout && *final(self) == *old(self)),
            final(self).ctx == old(self).ctx,
            final(self).window == old(self).window,
            final(self).pipeline == old(self).pipeline,
    {
        let frame = match self.ctx.acquire_frame(self.window) {
            Ok(f) => f,
            Err(e) => {
                return Err(e);
            },
        };
        self.gui.begin_frame(self.window, delta_ms);
        let gui_desc: UiDescription = match self.gui.declare_ui() {
            Ok(d) => d,
            Err(_) => unreached(),
        };
        match self.gui.render_into() {
            Ok(()) => {},
            Err(_) => unreached(),
        }
        Ok(FrameRender {
            frame,
            clear: clear_color(),
            triangle: DrawCall { vertex_count: 3, instance_count: 1, uses_index_buffer: false },
            gui: gui_desc,
        })
    }
}

} // verus!
