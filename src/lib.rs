//! Core of a voxel renderer: a dense voxel grid of palette indices, the
//! palette, the byte layouts of the GPU buffers that mirror them, and the
//! per-frame decisions of the render loop.
pub mod buffer;
pub mod frame;
pub mod grid;
pub mod palette;

pub use buffer::{BufferError, VoxelBuffer, HEADER_SIZE, PALETTE_BUFFER_SIZE};
pub use frame::{
    BindGroupRef, FaultAction, FrameState, RenderCommand, RenderSequencer, SurfaceFault,
    SurfaceSize, TeardownStep, CUBE_VERTEX_COUNT, PER_INSTANCE_GROUP, PER_RENDER_GROUP,
};
pub use grid::{uvec3, UVec3, Voxel};
pub use palette::VoxelColors;
