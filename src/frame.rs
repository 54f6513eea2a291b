//! The decisions of one rendered frame.
//!
//! A frame acquires a surface image and opens a render pass, records the
//! draw commands, then tears the pass down in a fixed order and presents the
//! image. The GPU work itself is done by the caller; the sequencer decides
//! what is done and in which order, and what follows a failed acquisition.
use vstd::prelude::*;

verus! {

/// Bind-group slot of the state bound once per frame (camera and palette).
pub const PER_RENDER_GROUP: u32 = 1;

/// Bind-group slot of the state bound once per instance (transform and
/// voxel buffer).
pub const PER_INSTANCE_GROUP: u32 = 0;

/// Vertices drawn per instance: the cube's 12 triangles.
pub const CUBE_VERTEX_COUNT: u32 = 36;

/// Why the surface did not hand out an image.
#[derive(Clone, Copy, Debug, PartialEq, Eq, Structural)]
pub enum SurfaceFault {
    Timeout,
    Outdated,
    Lost,
    OutOfMemory,
}

/// What to do about a failed acquisition.
#[derive(Clone, Copy, Debug, PartialEq, Eq, Structural)]
pub enum FaultAction {
    /// Nothing failed.
    Nothing,
    /// Reconfigure the surface to this size and try again next frame.
    Resize { width: u32, height: u32 },
    /// Report the fault and go on with the next frame.
    Report(SurfaceFault),
    /// Shut the application down.
    Exit,
}

/// Where a frame stands.
#[derive(Clone, Copy, Debug, PartialEq, Eq, Structural)]
pub enum FrameState {
    /// No pass is open.
    Idle,
    /// A pass is open and nothing is drawn yet.
    PassOpen,
    /// A pass is open and its draw commands were recorded.
    Drawing,
    /// The pass was closed, its commands submitted and the image presented.
    Submitted,
}

/// The bind group that a command binds.
#[derive(Clone, Copy, Debug, PartialEq, Eq, Structural)]
pub enum BindGroupRef {
    /// The per-frame group.
    PerRender,
    /// The group of the instance at this position in the draw order.
    Instance(usize),
}

/// A command recorded into the open render pass.
#[derive(Clone, Copy, Debug, PartialEq, Eq, Structural)]
pub enum RenderCommand {
    SetPipeline,
    SetBindGroup { slot: u32, group: BindGroupRef },
    Draw { vertices: u32, instances: u32 },
}

/// One step of closing a frame.
#[derive(Clone, Copy, Debug, PartialEq, Eq, Structural)]
pub enum TeardownStep {
    /// Release the render pass.
    EndPass,
    /// Finish the command encoder into a command buffer.
    FinishEncoder,
    /// Submit the command buffer to the queue.
    Submit,
    /// Present the acquired image.
    Present,
    /// Release the image's view.
    ReleaseView,
}

/// Whether a pass is open in state `s`.
pub open spec fn is_open(s: FrameState) -> bool {
    s == FrameState::PassOpen || s == FrameState::Drawing
}

/// The commands of a frame that draws `n` instances: the pipeline and the
/// per-frame group once, then for each instance its group and one draw.
pub open spec fn draw_commands(n: nat) -> Seq<RenderCommand> {
    Seq::new(
        2 * n + 2,
        |j: int|
            if j == 0 {
                RenderCommand::SetPipeline
            } else if j == 1 {
                RenderCommand::SetBindGroup { slot: PER_RENDER_GROUP, group: BindGroupRef::PerRender }
            } else if j % 2 == 0 {
                RenderCommand::SetBindGroup {
                    slot: PER_INSTANCE_GROUP,
                    group: BindGroupRef::Instance(((j - 2) / 2) as usize),
                }
            } else {
                RenderCommand::Draw { vertices: CUBE_VERTEX_COUNT, instances: 1 }
            },
    )
}

/// The order in which a frame is closed: the pass goes before its command
/// buffer is finished, and the image is presented after submission.
pub open spec fn teardown_order() -> Seq<TeardownStep> {
    seq![
        TeardownStep::EndPass,
        TeardownStep::FinishEncoder,
        TeardownStep::Submit,
        TeardownStep::Present,
        TeardownStep::ReleaseView,
    ]
}

/// The action for a fault, given the window's current physical size.
pub open spec fn fault_action(fault: Option<SurfaceFault>, width: u32, height: u32) -> FaultAction {
    match fault {
        None => FaultAction::Nothing,
        Some(SurfaceFault::Outdated) | Some(SurfaceFault::Lost) => FaultAction::Resize { width, height },
        Some(SurfaceFault::OutOfMemory) => FaultAction::Exit,
        Some(SurfaceFault::Timeout) => FaultAction::Report(SurfaceFault::Timeout),
    }
}

/// The per-frame state machine of the renderer.
pub struct RenderSequencer {
    state: FrameState,
    pending: Option<SurfaceFault>,
}

impl RenderSequencer {
    /// Where the current frame stands.
    pub closed spec fn frame_state(&self) -> FrameState {
        self.state
    }

    /// The fault of the last failed acquisition, not yet handled.
    pub closed spec fn pending_fault(&self) -> Option<SurfaceFault> {
        self.pending
    }

    /// A sequencer with no frame under way.
    pub fn new() -> (r: RenderSequencer)
        ensures
            r.frame_state() == FrameState::Idle,
            r.pending_fault() == None::<SurfaceFault>,
    {
        RenderSequencer { state: FrameState::Idle, pending: None }
    }

    /// Where the current frame stands.
    pub fn state(&self) -> (r: FrameState)
        ensures
            r == self.frame_state(),
    {
        self.state
    }

    /// Whether a render pass is open.
    pub fn pass_open(&self) -> (r: bool)
        ensures
            r == is_open(self.frame_state()),
    {
        match self.state {
            FrameState::PassOpen | FrameState::Drawing => true,
            _ => false,
        }
    }

    /// Starts a frame with the outcome of acquiring the surface image.
    /// Returns whether a render pass is to be opened: on success the pass
    /// opens; on failure the fault is kept for handling and the frame is
    /// skipped.
    pub fn begin(&mut self, acquired: Result<(), SurfaceFault>) -> (open: bool)
        requires
            !is_open(old(self).frame_state()),
        ensures
            open == acquired.is_ok(),
            open ==> final(self).frame_state() == FrameState::PassOpen
                && final(self).pending_fault() == old(self).pending_fault(),
            acquired matches Err(f) ==> final(self).frame_state() == FrameState::Idle
                && final(self).pending_fault() == Some(f),
    {
        match acquired {
            Ok(()) => {
                self.state = FrameState::PassOpen;
                true
            },
            Err(f) => {
                self.state = FrameState::Idle;
                self.pending = Some(f);
                false
            },
        }
    }

    /// The commands that draw `instances` voxel volumes into the open pass.
    /// Without an open pass nothing is drawn.
    pub fn draw(&mut self, instances: usize) -> (r: Vec<RenderCommand>)
        requires
            2 * instances + 2 <= usize::MAX,
        ensures
            is_open(old(self).frame_state()) ==> r@ == draw_commands(instances as nat)
                && final(self).frame_state() == FrameState::Drawing,
            !is_open(old(self).frame_state()) ==> r@.len() == 0
                && final(self).frame_state() == old(self).frame_state(),
            final(self).pending_fault() == old(self).pending_fault(),
    {
        let mut out: Vec<RenderCommand> = Vec::new();
        if !self.pass_open() {
            return out;
        }
        out.push(RenderCommand::SetPipeline);
        out.push(RenderCommand::SetBindGroup { slot: PER_RENDER_GROUP, group: BindGroupRef::PerRender });
        let mut k: usize = 0;
        while k < instances
            invariant
                k <= instances,
                2 * instances + 2 <= usize::MAX,
                out@ =~= draw_commands(k as nat),
            decreases instances - k,
        {
            out.push(RenderCommand::SetBindGroup {
                slot: PER_INSTANCE_GROUP,
                group: BindGroupRef::Instance(k),
            });
            out.push(RenderCommand::Draw { vertices: CUBE_VERTEX_COUNT, instances: 1 });
            proof {
                let next = draw_commands((k + 1) as nat);
                assert forall|j: int| 0 <= j < next.len() implies #[trigger] out@[j] == next[j] by {
                    if j < 2 * k + 2 {
                        assert(out@[j] == draw_commands(k as nat)[j]);
                    }
                }
            }
            k = k + 1;
        }
        self.state = FrameState::Drawing;
        out
    }

    /// Closes the frame: the steps to take, in order, when a pass is open;
    /// none otherwise.
    pub fn end(&mut self) -> (r: Vec<TeardownStep>)
        ensures
            is_open(old(self).frame_state()) ==> r@ == teardown_order()
                && final(self).frame_state() == FrameState::Submitted,
            !is_open(old(self).frame_state()) ==> r@.len() == 0
                && final(self).frame_state() == old(self).frame_state(),
            final(self).pending_fault() == old(self).pending_fault(),
    {
        let mut out: Vec<TeardownStep> = Vec::new();
        if !self.pass_open() {
            return out;
        }
        out.push(TeardownStep::EndPass);
        out.push(TeardownStep::FinishEncoder);
        out.push(TeardownStep::Submit);
        out.push(TeardownStep::Present);
        out.push(TeardownStep::ReleaseView);
        assert(out@ =~= teardown_order());
        self.state = FrameState::Submitted;
        out
    }

    /// Handles the pending fault, given the window's current physical size:
    /// an outdated or lost surface is resized to the window, running out of
    /// memory ends the application, a timeout is reported. The fault is
    /// cleared and the next frame may begin.
    pub fn handle_surface_fault(&mut self, window_width: u32, window_height: u32) -> (r: FaultAction)
        ensures
            r == fault_action(old(self).pending_fault(), window_width, window_height),
            final(self).pending_fault() == None::<SurfaceFault>,
            final(self).frame_state() == old(self).frame_state(),
    {
        let fault = self.pending;
        self.pending = None;
        match fault {
            None => FaultAction::Nothing,
            Some(SurfaceFault::Outdated) | Some(SurfaceFault::Lost) => FaultAction::Resize {
                width: window_width,
                height: window_height,
            },
            Some(SurfaceFault::OutOfMemory) => FaultAction::Exit,
            Some(SurfaceFault::Timeout) => FaultAction::Report(SurfaceFault::Timeout),
        }
    }
}

/// The size the surface is configured with.
#[derive(Clone, Copy, Debug, PartialEq, Eq, Structural)]
pub struct SurfaceSize {
    pub width: u32,
    pub height: u32,
}

impl SurfaceSize {
    /// Takes the new size, unless both extents are zero (a minimised
    /// window), in which case the size is kept. Returns whether the surface
    /// is to be reconfigured.
    pub fn resize(&mut self, width: u32, height: u32) -> (changed: bool)
        ensures
            changed == !(width == 0 && height == 0),
            changed ==> *final(self) == (SurfaceSize { width, height }),
            !changed ==> *final(self) == *old(self),
    {
        if width == 0 && height == 0 {
            return false;
        }
        self.width = width;
        self.height = height;
        true
    }

    /// Follows the window: resizes when the window's physical size differs
    /// from the configured one. Returns whether the surface is to be
    /// reconfigured.
    pub fn on_window_size(&mut self, width: u32, height: u32) -> (changed: bool)
        ensures
            changed == (*old(self) != (SurfaceSize { width, height }) && !(width == 0 && height == 0)),
            changed ==> *final(self) == (SurfaceSize { width, height }),
            !changed ==> *final(self) == *old(self),
    {
        if width == self.width && height == self.height {
            return false;
        }
        self.resize(width, height)
    }
}

} // verus!
