//! A backend without a device. Every verb succeeds and touches nothing, so a
//! frame can be replayed where no graphics hardware is at hand.

use vstd::prelude::*;
use crate::assets::{
    MeshData,
    MeshIndex,
    MeshParams,
    Region,
    ShaderParams,
    SurfaceParams,
    SurfaceScissor,
    SurfaceViewport,
    UniformEntry,
};
use crate::frame::{Call, Event, Visitor};
use crate::handle::{MeshHandle, RenderTextureHandle, ShaderHandle, SurfaceHandle, TextureHandle};
use crate::texture::{RenderTextureParams, TextureData, TextureParams};

verus! {

/// The backend without a device. It keeps count of the verbs invoked on it.
pub struct HeadlessVisitor {
    calls: usize,
    history: Ghost<Seq<Event<()>>>,
}

impl HeadlessVisitor {
    /// Creates a backend on which no verb has been invoked yet.
    pub fn new() -> (v: Self)
        ensures
            v.trace() == Seq::<Event<()>>::empty(),
            v.spec_calls() == 0,
    {
        HeadlessVisitor { calls: 0, history: Ghost(Seq::empty()) }
    }

    /// The number of verbs invoked so far; it stops counting at the largest
    /// number the machine can hold.
    pub closed spec fn spec_calls(&self) -> usize {
        self.calls
    }

    /// Returns the number of verbs invoked so far.
    #[verifier::when_used_as_spec(spec_calls)]
    pub fn calls(&self) -> (n: usize)
        ensures
            n == self.spec_calls(),
    {
        self.calls
    }

    /// Writes down one invocation that succeeded with `n`.
    fn note(&mut self, Ghost(call): Ghost<Call>, n: u32)
        ensures
            final(self).trace() == old(self).trace().push(Event { call, result: Ok(n) }),
            final(self).spec_calls() == if old(self).spec_calls() < usize::MAX {
                (old(self).spec_calls() + 1) as usize
            } else {
                old(self).spec_calls()
            },
    {
        if self.calls < usize::MAX {
            self.calls = self.calls + 1;
        }
        self.history = Ghost(self.history@.push(Event { call, result: Ok(n) }));
    }
}

impl Visitor for HeadlessVisitor {
    type Error = ();

    closed spec fn trace(&self) -> Seq<Event<()>> {
        self.history@
    }

    fn advance(&mut self) -> (r: Result<(), ()>) {
        self.note(Ghost(Call::Advance), 0);
        Ok(())
    }

    fn bind(&mut self, surface: SurfaceHandle, dimensions: (u32, u32)) -> (r: Result<(), ()>) {
        self.note(Ghost(Call::Bind(surface, dimensions)), 0);
        Ok(())
    }

    fn draw(
        &mut self,
        shader: ShaderHandle,
        mesh: MeshHandle,
        mesh_index: MeshIndex,
        vars: &[UniformEntry],
    ) -> (r: Result<u32, ()>) {
        self.note(Ghost(Call::Draw(shader, mesh, mesh_index, vars@)), 0);
        Ok(0)
    }

    fn update_surface_scissor(&mut self, scissor: SurfaceScissor) -> (r: Result<(), ()>) {
        self.note(Ghost(Call::UpdateScissor(scissor)), 0);
        Ok(())
    }

    fn update_surface_viewport(&mut self, view: SurfaceViewport) -> (r: Result<(), ()>) {
        self.note(Ghost(Call::UpdateViewport(view)), 0);
        Ok(())
    }

    fn create_surface(&mut self, handle: SurfaceHandle, params: SurfaceParams) -> (r: Result<
        (),
        (),
    >) {
        self.note(Ghost(Call::CreateSurface(handle, params)), 0);
        Ok(())
    }

    fn delete_surface(&mut self, handle: SurfaceHandle) -> (r: Result<(), ()>) {
        self.note(Ghost(Call::DeleteSurface(handle)), 0);
        Ok(())
    }

    fn create_shader(&mut self, handle: ShaderHandle, params: ShaderParams, vs: &str, fs: &str) -> (r:
        Result<(), ()>) {
        self.note(Ghost(Call::CreateShader(handle, params, vs@, fs@)), 0);
        Ok(())
    }

    fn delete_shader(&mut self, handle: ShaderHandle) -> (r: Result<(), ()>) {
        self.note(Ghost(Call::DeleteShader(handle)), 0);
        Ok(())
    }

    fn create_texture(
        &mut self,
        handle: TextureHandle,
        params: TextureParams,
        data: &Option<TextureData>,
    ) -> (r: Result<(), ()>) {
        self.note(Ghost(Call::CreateTexture(handle, params, *data)), 0);
        Ok(())
    }

    fn update_texture(&mut self, handle: TextureHandle, area: Region, data: &[u8]) -> (r: Result<
        (),
        (),
    >) {
        self.note(Ghost(Call::UpdateTexture(handle, area, data@)), 0);
        Ok(())
    }

    fn delete_texture(&mut self, handle: TextureHandle) -> (r: Result<(), ()>) {
        self.note(Ghost(Call::DeleteTexture(handle)), 0);
        Ok(())
    }

    fn create_render_texture(
        &mut self,
        handle: RenderTextureHandle,
        params: RenderTextureParams,
    ) -> (r: Result<(), ()>) {
        self.note(Ghost(Call::CreateRenderTexture(handle, params)), 0);
        Ok(())
    }

    fn delete_render_texture(&mut self, handle: RenderTextureHandle) -> (r: Result<(), ()>) {
        self.note(Ghost(Call::DeleteRenderTexture(handle)), 0);
        Ok(())
    }

    fn create_mesh(&mut self, handle: MeshHandle, params: MeshParams, data: &Option<MeshData>) -> (r:
        Result<(), ()>) {
        self.note(Ghost(Call::CreateMesh(handle, params, *data)), 0);
        Ok(())
    }

    fn update_vertex_buffer(&mut self, handle: MeshHandle, offset: usize, data: &[u8]) -> (r:
        Result<(), ()>) {
        self.note(Ghost(Call::UpdateVertexBuffer(handle, offset, data@)), 0);
        Ok(())
    }

    fn update_index_buffer(&mut self, handle: MeshHandle, offset: usize, data: &[u8]) -> (r: Result<
        (),
        (),
    >) {
        self.note(Ghost(Call::UpdateIndexBuffer(handle, offset, data@)), 0);
        Ok(())
    }

    fn delete_mesh(&mut self, handle: MeshHandle) -> (r: Result<(), ()>) {
        self.note(Ghost(Call::DeleteMesh(handle)), 0);
        Ok(())
    }

    fn flush(&mut self) -> (r: Result<(), ()>) {
        self.note(Ghost(Call::Flush), 0);
        Ok(())
    }
}

} // verus!
