//! The parameters of surfaces, shaders and meshes. The command pipeline hands
//! them on to the backend as they are.

use vstd::prelude::*;
use crate::handle::{RenderTextureHandle, TextureHandle};
use crate::state::{Primitive, RenderState};

verus! {

/// An axis-aligned rectangle of texels, given by its two corners.
#[derive(Debug, Clone, Copy, PartialEq, Eq)]
pub struct Region {
    pub min: (u32, u32),
    pub max: (u32, u32),
}

/// The scissor box of a surface.
#[derive(Debug, Clone, Copy, PartialEq, Eq)]
pub enum SurfaceScissor {
    Enable { position: (i32, i32), size: (u32, u32) },
    Disable,
}

/// The viewport of a surface.
#[derive(Debug, Clone, Copy, PartialEq, Eq)]
pub struct SurfaceViewport {
    pub position: (i32, i32),
    pub size: (u32, u32),
}

/// The parameters a surface is created with. The clear colour is packed as
/// four bytes, the clear depth is the bit pattern of a single-precision
/// number.
#[derive(Debug, Clone, Copy, PartialEq, Eq)]
pub struct SurfaceParams {
    pub color: Option<RenderTextureHandle>,
    pub depth_stencil: Option<RenderTextureHandle>,
    pub clear_color: Option<u32>,
    pub clear_depth: Option<u32>,
    pub clear_stencil: Option<i32>,
    pub order: u64,
}

/// The parameters a shader is created with.
#[derive(Debug, Clone, Copy, PartialEq, Eq)]
pub struct ShaderParams {
    pub state: RenderState,
}

/// Hint about the intended update strategy of a mesh.
#[derive(Debug, Clone, Copy, PartialEq, Eq, Structural)]
pub enum MeshHint {
    Immutable,
    Stream,
    Dynamic,
}

/// The parameters a mesh is created with.
#[derive(Debug, Clone, Copy, PartialEq, Eq, Structural)]
pub struct MeshParams {
    pub hint: MeshHint,
    pub primitive: Primitive,
    pub num_verts: usize,
    pub num_idxes: usize,
}

/// Selects the part of a mesh to draw.
#[derive(Debug, Clone, Copy, PartialEq, Eq, Structural)]
pub enum MeshIndex {
    /// The sub-mesh whose name has this hash.
    Name(u64),
    /// The sub-mesh at this position.
    SubMesh(usize),
    /// The whole mesh.
    All,
}

/// The vertices and indices a mesh is created with.
#[derive(Debug, Clone, PartialEq, Eq)]
pub struct MeshData {
    pub vptr: Vec<u8>,
    pub iptr: Vec<u8>,
}

/// The value of a uniform variable of a shader. Numbers with a fraction are
/// kept as the bit patterns of single-precision numbers; a matrix comes with
/// the flag that asks for its transpose.
#[derive(Debug, Clone, Copy, PartialEq, Eq)]
pub enum UniformVariable {
    Texture(TextureHandle),
    RenderTexture(RenderTextureHandle),
    I32(i32),
    F32(u32),
    Vector2f([u32; 2]),
    Vector3f([u32; 3]),
    Vector4f([u32; 4]),
    Matrix2f([[u32; 2]; 2], bool),
    Matrix3f([[u32; 3]; 3], bool),
    Matrix4f([[u32; 4]; 4], bool),
}

/// A uniform variable together with the hash of its name.
pub type UniformEntry = (u64, UniformVariable);

} // verus!
