//! The render state: surface configuration, depth buffer, pipeline, camera
//! and input state, with the per-frame and reload transitions.
//!
//! The GPU objects themselves (device, queue, buffers, surface) live with
//! the caller; this state tracks exactly the facts the demo's decisions
//! depend on, and its invariant ties them together: the depth buffer always
//! matches the surface size, the bind-group layout always matches the
//! uniform block sizes, and the camera is always well formed.

use vstd::prelude::*;
use crate::camera::{Camera, Vec3Milli, DEFAULT_DISTANCE_MILLI};
use crate::geometry::CUBE_INDEX_COUNT;
use crate::layout::{uniform_layout, uniform_layout_spec, LayoutEntry};
use crate::pipeline::{reload_result, source_view, ShaderError, ShaderPipeline};

verus! {

/// Outcome of acquiring the next presentable frame from the surface.
#[derive(Clone, Copy, Debug, PartialEq, Eq, Structural)]
pub enum SurfaceStatus {
    /// A frame was acquired and can be drawn.
    Acquired,
    /// Acquisition timed out; transient, the frame is skipped.
    Timeout,
    /// The surface no longer matches the window and must be reconfigured.
    Outdated,
    /// The surface was lost and must be reconfigured.
    Lost,
    /// The device is out of memory; rendering cannot continue.
    OutOfMemory,
}

/// An RGBA color with 8-bit channels.
#[derive(Clone, Copy, Debug, PartialEq, Eq, Structural)]
pub struct ClearColor {
    pub r: u8,
    pub g: u8,
    pub b: u8,
    pub a: u8,
}

/// Everything one frame needs: what to clear to, what to draw, and the
/// state the uniform buffers are updated from before submission.
#[derive(Clone, Copy, Debug, PartialEq, Eq, Structural)]
pub struct FramePlan {
    /// The color the render pass clears to.
    pub clear: ClearColor,
    /// Whether the depth attachment is cleared to the far plane first.
    pub clear_depth: bool,
    /// Number of indices the one draw call covers: the full mesh.
    pub index_count: u32,
    /// Camera state the view-projection uniform is derived from.
    pub camera: Camera,
    /// Surface width in pixels; with the height it gives the aspect ratio.
    pub width: u32,
    /// Surface height in pixels.
    pub height: u32,
    /// Milliseconds since startup, giving the model rotation angle.
    pub elapsed_ms: u64,
}

/// What to do after an attempt to acquire a frame.
#[derive(Clone, Copy, Debug, PartialEq, Eq, Structural)]
pub enum FrameAction {
    /// Draw the frame: clear, bind, draw, update uniforms, submit, present,
    /// and request the next redraw.
    Draw(FramePlan),
    /// Skip this frame; try again on the next redraw.
    SkipFrame,
    /// Reconfigure the surface and depth buffer to the current size, then
    /// try again on the next redraw.
    Reconfigure,
    /// Rendering cannot continue.
    Fatal,
}

/// The render-state model: sizes, pipeline identity, camera and input state.
pub struct RenderState {
    /// Width the surface is configured to, in pixels.
    pub surface_width: u32,
    /// Height the surface is configured to, in pixels.
    pub surface_height: u32,
    /// Width of the depth buffer, in pixels.
    pub depth_width: u32,
    /// Height of the depth buffer, in pixels.
    pub depth_height: u32,
    /// The active pipeline, identified by its shader sources.
    pub pipeline: ShaderPipeline,
    /// The bind-group layout of the pipeline.
    pub layout: Vec<LayoutEntry>,
    /// Number of indices of the mesh drawn each frame.
    pub num_indices: u32,
    /// The orbit camera.
    pub camera: Camera,
    /// Whether the left mouse button is held down.
    pub dragging: bool,
    /// Last seen cursor x position, in milli-pixels.
    pub last_mouse_x: i64,
    /// Last seen cursor y position, in milli-pixels.
    pub last_mouse_y: i64,
}

impl RenderState {
    /// The state invariant: a non-degenerate surface, a depth buffer of the
    /// same size, the bind-group layout matching the uniform blocks, the
    /// full mesh, and a well-formed camera.
    pub open spec fn well_formed(self) -> bool {
        &&& self.surface_width > 0
        &&& self.surface_height > 0
        &&& self.depth_width == self.surface_width
        &&& self.depth_height == self.surface_height
        &&& self.layout@ == uniform_layout_spec()
        &&& self.num_indices == CUBE_INDEX_COUNT
        &&& self.camera.well_formed()
    }

    /// The plan of one drawn frame: clear to red, draw the whole mesh, and
    /// update the uniforms from the current camera and elapsed time.
    pub open spec fn frame_plan(self, elapsed_ms: u64) -> FramePlan {
        FramePlan {
            clear: ClearColor { r: 255, g: 0, b: 0, a: 255 },
            clear_depth: true,
            index_count: self.num_indices,
            camera: self.camera,
            width: self.surface_width,
            height: self.surface_height,
            elapsed_ms,
        }
    }

    /// A fresh render state for a surface of the given size, with the
    /// initial pipeline compiled from the given shader sources.
    pub fn new(width: u32, height: u32, vertex_source: String, fragment_source: String) -> (s:
        RenderState)
        requires
            width > 0,
            height > 0,
        ensures
            s.well_formed(),
            s.surface_width == width,
            s.surface_height == height,
            s.pipeline.sources() == (vertex_source@, fragment_source@),
            s.camera == (Camera {
                yaw: 0,
                pitch: 0,
                distance: DEFAULT_DISTANCE_MILLI,
                target: Vec3Milli { x: 0, y: 0, z: 0 },
                up: Vec3Milli { x: 0, y: 1000, z: 0 },
            }),
            !s.dragging,
            s.last_mouse_x == 0,
            s.last_mouse_y == 0,
    {
        RenderState {
            surface_width: width,
            surface_height: height,
            depth_width: width,
            depth_height: height,
            pipeline: ShaderPipeline { vertex_source, fragment_source },
            layout: uniform_layout(),
            num_indices: CUBE_INDEX_COUNT,
            camera: Camera::new(),
            dragging: false,
            last_mouse_x: 0,
            last_mouse_y: 0,
        }
    }

    /// Reconfigure for a new window size: the surface and the depth buffer
    /// both take the new size; nothing else changes.
    pub fn resize(&mut self, width: u32, height: u32)
        requires
            width > 0,
            height > 0,
        ensures
            final(self).surface_width == width,
            final(self).surface_height == height,
            final(self).depth_width == width,
            final(self).depth_height == height,
            final(self).pipeline == old(self).pipeline,
            final(self).layout == old(self).layout,
            final(self).num_indices == old(self).num_indices,
            final(self).camera == old(self).camera,
            final(self).dragging == old(self).dragging,
            final(self).last_mouse_x == old(self).last_mouse_x,
            final(self).last_mouse_y == old(self).last_mouse_y,
            old(self).well_formed() ==> final(self).well_formed(),
    {
        self.surface_width = width;
        self.surface_height = height;
        self.depth_width = width;
        self.depth_height = height;
    }

    /// The configured surface size in pixels.
    pub fn resolution(&self) -> (r: (u32, u32))
        ensures
            r.0 == self.surface_width,
            r.1 == self.surface_height,
    {
        (self.surface_width, self.surface_height)
    }

    /// Decide what one redraw does, from the outcome of acquiring a frame:
    /// draw on success, skip on a timeout, reconfigure when the surface is
    /// outdated or lost, and give up when the device is out of memory.
    pub fn render(&self, status: SurfaceStatus, elapsed_ms: u64) -> (a: FrameAction)
        requires
            self.well_formed(),
        ensures
            status is Acquired ==> a == FrameAction::Draw(self.frame_plan(elapsed_ms)),
            status is Timeout ==> a == FrameAction::SkipFrame,
            status is Outdated || status is Lost ==> a == FrameAction::Reconfigure,
            status is OutOfMemory ==> a == FrameAction::Fatal,
    {
        match status {
            SurfaceStatus::Acquired => FrameAction::Draw(
                FramePlan {
                    clear: ClearColor { r: 255, g: 0, b: 0, a: 255 },
                    clear_depth: true,
                    index_count: self.num_indices,
                    camera: self.camera,
                    width: self.surface_width,
                    height: self.surface_height,
                    elapsed_ms,
                },
            ),
            SurfaceStatus::Timeout => FrameAction::SkipFrame,
            SurfaceStatus::Outdated => FrameAction::Reconfigure,
            SurfaceStatus::Lost => FrameAction::Reconfigure,
            SurfaceStatus::OutOfMemory => FrameAction::Fatal,
        }
    }

    /// Swap in a pipeline rebuilt from freshly read shader sources. A
    /// missing or unreadable source fails without touching the active
    /// pipeline; otherwise the new pipeline replaces the old one, under the
    /// same bind-group layout.
    pub fn reload_shader_pipeline(
        &mut self,
        vertex_source: Option<String>,
        fragment_source: Option<String>,
    ) -> (r: Result<(), ShaderError>)
        ensures
            ({
                let (next, res) = reload_result(
                    old(self).pipeline.sources(),
                    source_view(vertex_source),
                    source_view(fragment_source),
                );
                final(self).pipeline.sources() == next && r == res
            }),
            r is Ok <==> vertex_source is Some && fragment_source is Some,
            final(self).surface_width == old(self).surface_width,
            final(self).surface_height == old(self).surface_height,
            final(self).depth_width == old(self).depth_width,
            final(self).depth_height == old(self).depth_height,
            final(self).layout == old(self).layout,
            final(self).num_indices == old(self).num_indices,
            final(self).camera == old(self).camera,
            final(self).dragging == old(self).dragging,
            final(self).last_mouse_x == old(self).last_mouse_x,
            final(self).last_mouse_y == old(self).last_mouse_y,
            old(self).well_formed() ==> final(self).well_formed(),
    {
        match vertex_source {
            None => Err(ShaderError::MissingVertexSource),
            Some(vs) => match fragment_source {
                None => Err(ShaderError::MissingFragmentSource),
                Some(fs) => {
                    self.pipeline = ShaderPipeline { vertex_source: vs, fragment_source: fs };
                    Ok(())
                },
            },
        }
    }
}

} // verus!
