//! The frame renderer: the state machine that orchestrates one tick.
//!
//! Each tick the drive loop acquires a frame target and reports the
//! outcome here.  On success the renderer hands back a draw plan: the
//! clear color derived from the pointer, the pipeline to bind, the
//! geometry and instance ranges to draw.  A lost surface sends the
//! machine through a reconfigure-and-retry; running out of memory is
//! fatal; any other acquire failure costs exactly one skipped frame and
//! changes nothing.

use vstd::prelude::*;

use crate::color::{Channel, ClearColor, clear_color, spec_clear_color, normalize, spec_normalize};
use crate::error::{AcquireError, RenderError};
use crate::geometry::{GeometrySet, GeometryStore, Vertex, spec_toggle_target, spec_is_first_named, spec_has_named};
use crate::instance::InstanceStore;
use crate::layout::spec_is_vertex_layout;
use crate::pipeline::{PipelineRegistry, spec_is_first_variant, spec_has_variant};
use crate::surface::{SurfaceConfig, spec_reconfigured};

verus! {

/// Which aspect of rendering the designated key toggles.  A configuration
/// choice made at startup, not a property of the build.
#[derive(Clone, Copy, Debug, PartialEq, Eq, Structural)]
pub enum ToggleTarget {
    Pipeline,
    Geometry,
}

/// The toggle configuration: the aspect the key cycles and the two
/// identifiers it cycles between.
pub struct ToggleConfig {
    pub target: ToggleTarget,
    pub primary: String,
    pub alternate: String,
}

/// Phase of the frame renderer state machine.
#[derive(Clone, Copy, Debug, PartialEq, Eq, Structural)]
pub enum FramePhase {
    /// Between ticks; ready to render.
    Idle,
    /// Inside a tick, between acquiring the target and resolving the
    /// outcome.  Never observed across tick boundaries.
    Rendering,
    /// The surface was lost; a reconfigure must run before the next draw.
    Resizing,
    /// Out of device memory; the process must exit.
    Fatal,
}

/// A window event, decoded to plain values by the windowing layer.
pub enum InputEvent {
    /// The pointer moved to window-relative pixel position (x, y).
    PointerMoved { x: i64, y: i64 },
    /// The designated toggle key went down.
    TogglePressed,
    /// Any event the renderer does not react to.
    Ignored,
}

/// Everything one frame's command encoding needs, in the order the pass
/// records it: clear, bind pipeline, bind buffers, draw.
#[derive(Clone, Copy, Debug, PartialEq)]
pub struct DrawPlan {
    /// Clear color of the render pass.
    pub clear: ClearColor,
    /// Handle of the pipeline variant to bind.
    pub pipeline: usize,
    /// Position of the geometry set whose buffers are bound.
    pub geometry: usize,
    /// Whether the draw is indexed (the set has indices) or plain.
    pub indexed: bool,
    /// Full index range of the indexed draw.
    pub index_count: u32,
    /// Full vertex range of the non-indexed draw.
    pub vertex_count: u32,
    /// Whether the instance buffer is bound.
    pub bind_instances: bool,
    /// Number of instances the draw covers.
    pub instance_count: u32,
}

/// What the drive loop must do after a tick.
#[derive(Clone, Copy, Debug, PartialEq)]
pub enum FrameAction {
    /// Encode, submit and present this plan.
    Draw(DrawPlan),
    /// Reconfigure the surface with the current size, then retry next tick.
    Reconfigure,
    /// Exit the process.
    Terminate,
    /// Skip this frame; nothing changed.
    Skip,
}

/// The frame renderer: owns the CPU-side model of every resource a tick
/// reads, and the machine phase.
pub struct FrameRenderer {
    pub surface: SurfaceConfig,
    pub pointer: Option<(Channel, Channel)>,
    pub geometry: GeometryStore,
    pub pipelines: PipelineRegistry,
    pub instances: InstanceStore,
    pub toggle: ToggleConfig,
    pub instancing: bool,
    pub phase: FramePhase,
}

impl FrameRenderer {
    pub open spec fn wf(self) -> bool {
        &&& self.surface.wf()
        &&& self.geometry.wf()
        &&& self.pipelines.wf()
        &&& self.instances.wf()
        &&& (self.pointer matches Some(p) ==> p.0.wf() && p.1.wf())
        &&& forall|i: int|
            0 <= i < self.pipelines.variants@.len() ==> {
                &&& (#[trigger] self.pipelines.variants@[i]).layouts@.len() >= 1
                &&& spec_is_vertex_layout(self.pipelines.variants@[i].layouts@[0])
            }
    }

    /// Assemble a renderer in the idle phase, before the first tick.
    ///
    /// Every registered pipeline variant must declare the canonical
    /// per-vertex layout first, so that any geometry set may be drawn
    /// with any selected variant.
    pub fn new(
        surface: SurfaceConfig,
        geometry: GeometryStore,
        pipelines: PipelineRegistry,
        instances: InstanceStore,
        toggle: ToggleConfig,
        instancing: bool,
    ) -> (r: FrameRenderer)
        requires
            surface.wf(),
            geometry.wf(),
            pipelines.wf(),
            instances.wf(),
            forall|i: int|
                0 <= i < pipelines.variants@.len() ==> {
                    &&& (#[trigger] pipelines.variants@[i]).layouts@.len() >= 1
                    &&& spec_is_vertex_layout(pipelines.variants@[i].layouts@[0])
                },
        ensures
            r.wf(),
            r.surface == surface,
            r.pointer is None,
            r.geometry == geometry,
            r.pipelines == pipelines,
            r.instances == instances,
            r.toggle == toggle,
            r.instancing == instancing,
            r.phase == FramePhase::Idle,
    {
        FrameRenderer {
            surface,
            pointer: None,
            geometry,
            pipelines,
            instances,
            toggle,
            instancing,
            phase: FramePhase::Idle,
        }
    }

    /// Apply a window resize.  A degenerate size changes nothing.  A real
    /// one updates the surface configuration, and — when the machine was
    /// waiting out a lost surface — completes the reconfigure, returning
    /// the machine to idle.
    pub fn resize(&mut self, new_width: u32, new_height: u32) -> (changed: bool)
        requires
            old(self).wf(),
        ensures
            final(self).wf(),
            changed == (new_width > 0 && new_height > 0),
            final(self).surface == spec_reconfigured(old(self).surface, new_width, new_height),
            final(self).phase == if changed && old(self).phase == FramePhase::Resizing {
                FramePhase::Idle
            } else {
                old(self).phase
            },
            final(self).pointer == old(self).pointer,
            final(self).geometry == old(self).geometry,
            final(self).pipelines == old(self).pipelines,
            final(self).instances == old(self).instances,
            final(self).toggle == old(self).toggle,
            final(self).instancing == old(self).instancing,
    {
        let changed = self.surface.reconfigure(new_width, new_height);
        if changed && self.phase == FramePhase::Resizing {
            self.phase = FramePhase::Idle;
        }
        changed
    }

    /// React to a window event.
    ///
    /// A pointer move stores the position normalized against the current
    /// surface size, clamped into [0, 1] per axis.  The toggle key cycles
    /// the configured aspect — the active pipeline variant or the active
    /// geometry set — between the two configured identifiers; an unknown
    /// identifier is a programming error, signalled and otherwise
    /// harmless.  Everything else is ignored.
    pub fn input(&mut self, event: &InputEvent) -> (r: Result<(), RenderError>)
        requires
            old(self).wf(),
        ensures
            final(self).wf(),
            final(self).surface == old(self).surface,
            final(self).instances == old(self).instances,
            final(self).toggle == old(self).toggle,
            final(self).instancing == old(self).instancing,
            final(self).phase == old(self).phase,
            match *event {
                InputEvent::PointerMoved { x, y } => {
                    &&& r is Ok
                    &&& final(self).pointer == Some(
                        (
                            spec_normalize(x as int, old(self).surface.width),
                            spec_normalize(y as int, old(self).surface.height),
                        ),
                    )
                    &&& final(self).geometry == old(self).geometry
                    &&& final(self).pipelines == old(self).pipelines
                },
                InputEvent::TogglePressed => {
                    &&& final(self).pointer == old(self).pointer
                    &&& (old(self).toggle.target == ToggleTarget::Pipeline ==> {
                        let target = spec_toggle_target(
                            old(self).pipelines.spec_active_id(),
                            old(self).toggle.primary@,
                            old(self).toggle.alternate@,
                        );
                        &&& final(self).geometry == old(self).geometry
                        &&& final(self).pipelines.variants@ == old(self).pipelines.variants@
                        &&& match r {
                            Ok(()) => spec_is_first_variant(
                                old(self).pipelines.variants@,
                                target,
                                final(self).pipelines.active as int,
                            ),
                            Err(e) => {
                                &&& e == RenderError::UnknownPipeline
                                &&& !spec_has_variant(old(self).pipelines.variants@, target)
                                &&& final(self).pipelines == old(self).pipelines
                            },
                        }
                    })
                    &&& (old(self).toggle.target == ToggleTarget::Geometry ==> {
                        let target = spec_toggle_target(
                            old(self).geometry.spec_active_name(),
                            old(self).toggle.primary@,
                            old(self).toggle.alternate@,
                        );
                        &&& final(self).pipelines == old(self).pipelines
                        &&& final(self).geometry.sets@ == old(self).geometry.sets@
                        &&& match r {
                            Ok(()) => spec_is_first_named(
                                old(self).geometry.sets@,
                                target,
                                final(self).geometry.active as int,
                            ),
                            Err(e) => {
                                &&& e == RenderError::UnknownGeometry
                                &&& !spec_has_named(old(self).geometry.sets@, target)
                                &&& final(self).geometry == old(self).geometry
                            },
                        }
                    })
                },
                InputEvent::Ignored => {
                    &&& r is Ok
                    &&& final(self).pointer == old(self).pointer
                    &&& final(self).geometry == old(self).geometry
                    &&& final(self).pipelines == old(self).pipelines
                },
            },
    {
        match event {
            InputEvent::PointerMoved { x, y } => {
                let nx = normalize(*x, self.surface.width);
                let ny = normalize(*y, self.surface.height);
                self.pointer = Some((nx, ny));
                Ok(())
            },
            InputEvent::TogglePressed => {
                match self.toggle.target {
                    ToggleTarget::Pipeline => {
                        match self.pipelines.toggle(&self.toggle.primary, &self.toggle.alternate) {
                            Ok(_) => Ok(()),
                            Err(e) => Err(e),
                        }
                    },
                    ToggleTarget::Geometry => {
                        self.geometry.toggle(&self.toggle.primary, &self.toggle.alternate)
                    },
                }
            },
            InputEvent::Ignored => Ok(()),
        }
    }
}

impl FrameRenderer {
    /// Replace the geometry buffers under `name` wholesale, or register
    /// them if the name is new.  Rebuilds happen only between frames,
    /// driven by input events — never while a tick is in flight, so no
    /// in-flight render pass can observe a dangling buffer.
    pub fn replace_geometry(
        &mut self,
        name: String,
        vertices: Vec<Vertex>,
        indices: Vec<u16>,
    ) -> (r: Result<(), RenderError>)
        requires
            old(self).wf(),
            old(self).phase != FramePhase::Rendering,
            forall|i: int| 0 <= i < indices@.len() ==> #[trigger] indices@[i] < vertices@.len(),
            indices@.len() <= u32::MAX,
            vertices@.len() <= u32::MAX,
        ensures
            final(self).wf(),
            r is Ok,
            final(self).surface == old(self).surface,
            final(self).pointer == old(self).pointer,
            final(self).pipelines == old(self).pipelines,
            final(self).instances == old(self).instances,
            final(self).toggle == old(self).toggle,
            final(self).instancing == old(self).instancing,
            final(self).phase == old(self).phase,
            final(self).geometry.active == old(self).geometry.active,
            ({
                let fresh = GeometrySet { name, vertices, indices };
                if spec_has_named(old(self).geometry.sets@, name@) {
                    exists|i: int|
                        {
                            &&& #[trigger] spec_is_first_named(old(self).geometry.sets@, name@, i)
                            &&& final(self).geometry.sets@ == old(self).geometry.sets@.update(
                                i,
                                fresh,
                            )
                        }
                } else {
                    final(self).geometry.sets@ == old(self).geometry.sets@.push(fresh)
                }
            }),
    {
        self.geometry.replace(name, vertices, indices)
    }
}

/// The draw plan one tick of `r` encodes: the clear color from the last
/// pointer position, the active pipeline and geometry, the full index or
/// vertex range, and the instance range when instancing is enabled.
pub open spec fn spec_draw_plan(r: FrameRenderer) -> DrawPlan {
    let set = r.geometry.sets@[r.geometry.active as int];
    DrawPlan {
        clear: spec_clear_color(r.pointer),
        pipeline: r.pipelines.active,
        geometry: r.geometry.active,
        indexed: set.indices@.len() > 0,
        index_count: set.indices@.len() as u32,
        vertex_count: set.vertices@.len() as u32,
        bind_instances: r.instancing,
        instance_count: if r.instancing {
            r.instances.instances@.len() as u32
        } else {
            1
        },
    }
}

impl FrameRenderer {
    /// Build this tick's draw plan from the current state.
    pub fn plan(&self) -> (p: DrawPlan)
        requires
            self.wf(),
        ensures
            p == spec_draw_plan(*self),
    {
        let set = self.geometry.current();
        let index_count = set.index_count();
        let vertex_count = set.vertex_count();
        DrawPlan {
            clear: clear_color(self.pointer),
            pipeline: self.pipelines.active,
            geometry: self.geometry.active,
            indexed: index_count > 0,
            index_count,
            vertex_count,
            bind_instances: self.instancing,
            instance_count: if self.instancing {
                self.instances.len() as u32
            } else {
                1
            },
        }
    }

    /// Drive one tick, given the outcome of acquiring the frame target.
    /// The machine passes through the rendering phase while the tick is
    /// resolved; no tick may start while another is in flight.
    ///
    /// A successful acquire yields the draw plan and ends the tick idle.
    /// A lost surface demands a reconfigure and parks the machine in the
    /// resizing phase.  Out of memory is fatal: the machine locks and the
    /// process must exit.  Any other failure skips exactly this frame and
    /// leaves every piece of state unchanged.
    pub fn tick(&mut self, acquired: Result<(), AcquireError>) -> (a: FrameAction)
        requires
            old(self).wf(),
            old(self).phase != FramePhase::Fatal,
            old(self).phase != FramePhase::Rendering,
        ensures
            final(self).wf(),
            final(self).surface == old(self).surface,
            final(self).pointer == old(self).pointer,
            final(self).geometry == old(self).geometry,
            final(self).pipelines == old(self).pipelines,
            final(self).instances == old(self).instances,
            final(self).toggle == old(self).toggle,
            final(self).instancing == old(self).instancing,
            match acquired {
                Ok(()) => {
                    &&& a == FrameAction::Draw(spec_draw_plan(*old(self)))
                    &&& final(self).phase == FramePhase::Idle
                },
                Err(AcquireError::Lost) => {
                    &&& a == FrameAction::Reconfigure
                    &&& final(self).phase == FramePhase::Resizing
                },
                Err(AcquireError::OutOfMemory) => {
                    &&& a == FrameAction::Terminate
                    &&& final(self).phase == FramePhase::Fatal
                },
                Err(AcquireError::Other) => {
                    &&& a == FrameAction::Skip
                    &&& final(self).phase == old(self).phase
                },
            },
    {
        let resumed = self.phase;
        self.phase = FramePhase::Rendering;
        match acquired {
            Ok(()) => {
                let p = self.plan();
                self.phase = FramePhase::Idle;
                FrameAction::Draw(p)
            },
            Err(AcquireError::Lost) => {
                self.phase = FramePhase::Resizing;
                FrameAction::Reconfigure
            },
            Err(AcquireError::OutOfMemory) => {
                self.phase = FramePhase::Fatal;
                FrameAction::Terminate
            },
            Err(AcquireError::Other) => {
                self.phase = resumed;
                FrameAction::Skip
            },
        }
    }
}

} // verus!
