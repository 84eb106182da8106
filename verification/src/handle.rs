//! Generation-checked resource identifiers.

use vstd::prelude::*;

verus! {

/// An opaque identifier of a resource slot. The `index` selects the slot and
/// the `version` tells one occupant of that slot from the next.
#[derive(Debug, Clone, Copy, PartialEq, Eq, Hash, Structural)]
pub struct Handle {
    index: u32,
    version: u32,
}

impl Handle {
    /// The slot this handle selects.
    pub closed spec fn spec_index(self) -> u32 {
        self.index
    }

    /// The generation of the slot this handle was issued for.
    pub closed spec fn spec_version(self) -> u32 {
        self.version
    }

    /// The handle of slot `index` at generation `version`.
    pub closed spec fn spec_new(index: u32, version: u32) -> Handle {
        Handle { index, version }
    }

    /// A handle is its slot and its generation, nothing more.
    pub broadcast proof fn lemma_parts(index: u32, version: u32)
        ensures
            (#[trigger] Handle::spec_new(index, version)).spec_index() == index,
            Handle::spec_new(index, version).spec_version() == version,
    {
    }

    /// Two handles with the same slot and generation are the same handle.
    pub broadcast proof fn lemma_identity(a: Handle, b: Handle)
        ensures
            (#[trigger] a.spec_index() == #[trigger] b.spec_index() && a.spec_version()
                == b.spec_version()) ==> a == b,
    {
    }

    /// Builds the handle of slot `index` at generation `version`.
    #[verifier::when_used_as_spec(spec_new)]
    pub fn new(index: u32, version: u32) -> (h: Handle)
        ensures
            h == Handle::spec_new(index, version),
            h.spec_index() == index,
            h.spec_version() == version,
    {
        Handle { index, version }
    }

    /// Returns the slot this handle selects.
    #[verifier::when_used_as_spec(spec_index)]
    pub fn index(self) -> (i: u32)
        ensures
            i == self.spec_index(),
    {
        self.index
    }

    /// Returns the generation of this handle.
    #[verifier::when_used_as_spec(spec_version)]
    pub fn version(self) -> (v: u32)
        ensures
            v == self.spec_version(),
    {
        self.version
    }
}

/// Identifies a render surface.
#[derive(Debug, Clone, Copy, PartialEq, Eq, Hash, Structural)]
pub struct SurfaceHandle(pub Handle);

/// Identifies a shader program.
#[derive(Debug, Clone, Copy, PartialEq, Eq, Hash, Structural)]
pub struct ShaderHandle(pub Handle);

/// Identifies a texture.
#[derive(Debug, Clone, Copy, PartialEq, Eq, Hash, Structural)]
pub struct TextureHandle(pub Handle);

/// Identifies a texture that can be rendered into.
#[derive(Debug, Clone, Copy, PartialEq, Eq, Hash, Structural)]
pub struct RenderTextureHandle(pub Handle);

/// Identifies a mesh.
#[derive(Debug, Clone, Copy, PartialEq, Eq, Hash, Structural)]
pub struct MeshHandle(pub Handle);

/// Identifies a render pipeline of a scene.
#[derive(Debug, Clone, Copy, PartialEq, Eq, Hash, Structural)]
pub struct PipelineHandle(pub Handle);

/// Identifies a material of a scene.
#[derive(Debug, Clone, Copy, PartialEq, Eq, Hash, Structural)]
pub struct MaterialHandle(pub Handle);

} // verus!
