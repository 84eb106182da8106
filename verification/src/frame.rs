//! The command buffer of one frame and the contract of the backend that
//! replays it.
//!
//! Producers append [`Command`]s to a [`Frame`] and write the payloads of
//! those commands into its scratch arena. At the end of the frame
//! [`Frame::dispatch`] replays the commands, in the order they were appended,
//! against a [`Visitor`].

use vstd::prelude::*;
use crate::assets::{
    MeshData,
    MeshIndex,
    MeshParams,
    Region,
    ShaderParams,
    SurfaceParams,
    SurfaceScissor,
    SurfaceViewport,
    UniformEntry,
};
use crate::data_buffer::{BytesPtr, DataBuffer, VarsPtr};
use crate::handle::{MeshHandle, RenderTextureHandle, ShaderHandle, SurfaceHandle, TextureHandle};
use crate::texture::{RenderTextureParams, TextureData, TextureParams};

verus! {

/// One recorded operation. A command carries handles, plain parameters and
/// pointers into the scratch arena of its frame, never borrowed data.
#[derive(Debug, Clone)]
pub enum Command {
    Bind(SurfaceHandle),
    Draw(ShaderHandle, MeshHandle, MeshIndex, VarsPtr),
    UpdateScissor(SurfaceScissor),
    UpdateViewport(SurfaceViewport),
    CreateSurface(SurfaceHandle, SurfaceParams),
    DeleteSurface(SurfaceHandle),
    CreateShader(ShaderHandle, ShaderParams, String, String),
    DeleteShader(ShaderHandle),
    CreateTexture(TextureHandle, TextureParams, Option<TextureData>),
    UpdateTexture(TextureHandle, Region, BytesPtr),
    DeleteTexture(TextureHandle),
    CreateRenderTexture(RenderTextureHandle, RenderTextureParams),
    DeleteRenderTexture(RenderTextureHandle),
    CreateMesh(MeshHandle, MeshParams, Option<MeshData>),
    UpdateVertexBuffer(MeshHandle, usize, BytesPtr),
    UpdateIndexBuffer(MeshHandle, usize, BytesPtr),
    DeleteMesh(MeshHandle),
}

/// One invocation of a verb of the backend, with the arguments as the backend
/// sees them: a pointer into the scratch arena has become the data it points
/// at.
pub enum Call {
    Advance,
    Bind(SurfaceHandle, (u32, u32)),
    Draw(ShaderHandle, MeshHandle, MeshIndex, Seq<UniformEntry>),
    UpdateScissor(SurfaceScissor),
    UpdateViewport(SurfaceViewport),
    CreateSurface(SurfaceHandle, SurfaceParams),
    DeleteSurface(SurfaceHandle),
    CreateShader(ShaderHandle, ShaderParams, Seq<char>, Seq<char>),
    DeleteShader(ShaderHandle),
    CreateTexture(TextureHandle, TextureParams, Option<TextureData>),
    UpdateTexture(TextureHandle, Region, Seq<u8>),
    DeleteTexture(TextureHandle),
    CreateRenderTexture(RenderTextureHandle, RenderTextureParams),
    DeleteRenderTexture(RenderTextureHandle),
    CreateMesh(MeshHandle, MeshParams, Option<MeshData>),
    UpdateVertexBuffer(MeshHandle, usize, Seq<u8>),
    UpdateIndexBuffer(MeshHandle, usize, Seq<u8>),
    DeleteMesh(MeshHandle),
    Flush,
}

/// An invocation together with what the backend answered. A verb that
/// returns nothing on success counts as `Ok(0)`.
pub struct Event<E> {
    pub call: Call,
    pub result: Result<u32, E>,
}

/// The answer of a verb that returns nothing on success, as an event records
/// it.
pub open spec fn plain<E>(r: Result<(), E>) -> Result<u32, E> {
    match r {
        Ok(_) => Ok(0u32),
        Err(e) => Err(e),
    }
}

/// Whether `after` is `before` with the one event of `call` and `result`
/// added at its end.
pub open spec fn logged<E>(
    before: Seq<Event<E>>,
    after: Seq<Event<E>>,
    call: Call,
    result: Result<u32, E>,
) -> bool {
    after == before.push(Event { call, result })
}

/// What a graphics backend offers to the command pipeline: one verb per
/// command, and the three verbs that frame a batch.
///
/// The `trace` of a backend is the history of the verbs that were invoked on
/// it, each with its arguments and its answer. The contract of a verb says
/// that the invocation is added to the history and nothing else: whether a
/// verb succeeds, and what it does to the device, is the backend's business.
/// The pipeline performs no deduplication on behalf of the backend and
/// expects none from it.
pub trait Visitor {
    /// What the backend reports when a verb fails.
    type Error;

    /// The history of the verbs invoked on this backend.
    spec fn trace(&self) -> Seq<Event<Self::Error>>;

    /// Begins a batch.
    fn advance(&mut self) -> (r: Result<(), Self::Error>)
        ensures
            logged(old(self).trace(), final(self).trace(), Call::Advance, plain(r)),
    ;

    /// Selects the render target of the draws and state updates that follow.
    fn bind(&mut self, surface: SurfaceHandle, dimensions: (u32, u32)) -> (r: Result<
        (),
        Self::Error,
    >)
        ensures
            logged(
                old(self).trace(),
                final(self).trace(),
                Call::Bind(surface, dimensions),
                plain(r),
            ),
    ;

    /// Submits a draw and returns the number of primitives submitted.
    fn draw(
        &mut self,
        shader: ShaderHandle,
        mesh: MeshHandle,
        mesh_index: MeshIndex,
        vars: &[UniformEntry],
    ) -> (r: Result<u32, Self::Error>)
        ensures
            logged(
                old(self).trace(),
                final(self).trace(),
                Call::Draw(shader, mesh, mesh_index, vars@),
                r,
            ),
    ;

    /// Sets the scissor box of the bound surface.
    fn update_surface_scissor(&mut self, scissor: SurfaceScissor) -> (r: Result<(), Self::Error>)
        ensures
            logged(old(self).trace(), final(self).trace(), Call::UpdateScissor(scissor), plain(r)),
    ;

    /// Sets the viewport of the bound surface.
    fn update_surface_viewport(&mut self, view: SurfaceViewport) -> (r: Result<(), Self::Error>)
        ensures
            logged(old(self).trace(), final(self).trace(), Call::UpdateViewport(view), plain(r)),
    ;

    /// Creates the surface that `handle` names.
    fn create_surface(&mut self, handle: SurfaceHandle, params: SurfaceParams) -> (r: Result<
        (),
        Self::Error,
    >)
        ensures
            logged(
                old(self).trace(),
                final(self).trace(),
                Call::CreateSurface(handle, params),
                plain(r),
            ),
    ;

    /// Deletes the surface that `handle` names.
    fn delete_surface(&mut self, handle: SurfaceHandle) -> (r: Result<(), Self::Error>)
        ensures
            logged(old(self).trace(), final(self).trace(), Call::DeleteSurface(handle), plain(r)),
    ;

    /// Creates the shader that `handle` names from its two sources.
    fn create_shader(
        &mut self,
        handle: ShaderHandle,
        params: ShaderParams,
        vs: &str,
        fs: &str,
    ) -> (r: Result<(), Self::Error>)
        ensures
            logged(
                old(self).trace(),
                final(self).trace(),
                Call::CreateShader(handle, params, vs@, fs@),
                plain(r),
            ),
    ;

    /// Deletes the shader that `handle` names.
    fn delete_shader(&mut self, handle: ShaderHandle) -> (r: Result<(), Self::Error>)
        ensures
            logged(old(self).trace(), final(self).trace(), Call::DeleteShader(handle), plain(r)),
    ;

    /// Creates the texture that `handle` names, with its first pixels if there are any.
    fn create_texture(
        &mut self,
        handle: TextureHandle,
        params: TextureParams,
        data: &Option<TextureData>,
    ) -> (r: Result<(), Self::Error>)
        ensures
            logged(
                old(self).trace(),
                final(self).trace(),
                Call::CreateTexture(handle, params, *data),
                plain(r),
            ),
    ;

    /// Writes `data` into the rectangle `area` of a texture.
    fn update_texture(&mut self, handle: TextureHandle, area: Region, data: &[u8]) -> (r: Result<
        (),
        Self::Error,
    >)
        ensures
            logged(
                old(self).trace(),
                final(self).trace(),
                Call::UpdateTexture(handle, area, data@),
                plain(r),
            ),
    ;

    /// Deletes the texture that `handle` names.
    fn delete_texture(&mut self, handle: TextureHandle) -> (r: Result<(), Self::Error>)
        ensures
            logged(old(self).trace(), final(self).trace(), Call::DeleteTexture(handle), plain(r)),
    ;

    /// Creates the render texture that `handle` names.
    fn create_render_texture(
        &mut self,
        handle: RenderTextureHandle,
        params: RenderTextureParams,
    ) -> (r: Result<(), Self::Error>)
        ensures
            logged(
                old(self).trace(),
                final(self).trace(),
                Call::CreateRenderTexture(handle, params),
                plain(r),
            ),
    ;

    /// Deletes the render texture that `handle` names.
    fn delete_render_texture(&mut self, handle: RenderTextureHandle) -> (r: Result<
        (),
        Self::Error,
    >)
        ensures
            logged(
                old(self).trace(),
                final(self).trace(),
                Call::DeleteRenderTexture(handle),
                plain(r),
            ),
    ;

    /// Creates the mesh that `handle` names, with its first vertices and indices if there are any.
    fn create_mesh(&mut self, handle: MeshHandle, params: MeshParams, data: &Option<MeshData>) -> (r:
        Result<(), Self::Error>)
        ensures
            logged(
                old(self).trace(),
                final(self).trace(),
                Call::CreateMesh(handle, params, *data),
                plain(r),
            ),
    ;

    /// Writes `data` into the vertex buffer of a mesh, `offset` bytes from its start.
    fn update_vertex_buffer(&mut self, handle: MeshHandle, offset: usize, data: &[u8]) -> (r:
        Result<(), Self::Error>)
        ensures
            logged(
                old(self).trace(),
                final(self).trace(),
                Call::UpdateVertexBuffer(handle, offset, data@),
                plain(r),
            ),
    ;

    /// Writes `data` into the index buffer of a mesh, `offset` bytes from its start.
    fn update_index_buffer(&mut self, handle: MeshHandle, offset: usize, data: &[u8]) -> (r:
        Result<(), Self::Error>)
        ensures
            logged(
                old(self).trace(),
                final(self).trace(),
                Call::UpdateIndexBuffer(handle, offset, data@),
                plain(r),
            ),
    ;

    /// Deletes the mesh that `handle` names.
    fn delete_mesh(&mut self, handle: MeshHandle) -> (r: Result<(), Self::Error>)
        ensures
            logged(old(self).trace(), final(self).trace(), Call::DeleteMesh(handle), plain(r)),
    ;

    /// Ends a batch and presents it.
    fn flush(&mut self) -> (r: Result<(), Self::Error>)
        ensures
            logged(old(self).trace(), final(self).trace(), Call::Flush, plain(r)),
    ;
}

/// Turns the answer of a verb that returns nothing on success into the form
/// that an event records.
fn settle<E>(r: Result<(), E>) -> (out: Result<u32, E>)
    ensures
        out == plain(r),
{
    match r {
        Ok(_) => Ok(0),
        Err(e) => Err(e),
    }
}

impl Command {
    /// Whether every pointer of this command points into `bufs`.
    pub open spec fn fits(&self, bufs: &DataBuffer) -> bool {
        match *self {
            Command::Draw(_, _, _, ptr) => bufs.holds_vars(ptr),
            Command::UpdateTexture(_, _, ptr) => bufs.holds(ptr),
            Command::UpdateVertexBuffer(_, _, ptr) => bufs.holds(ptr),
            Command::UpdateIndexBuffer(_, _, ptr) => bufs.holds(ptr),
            _ => true,
        }
    }

    /// The invocation that replays this command: its verb, with every
    /// pointer resolved against `bufs`.
    pub open spec fn resolved(&self, bufs: &DataBuffer, dimensions: (u32, u32)) -> Call {
        match *self {
            Command::Bind(surface) => Call::Bind(surface, dimensions),
            Command::Draw(shader, mesh, mesh_index, ptr) => Call::Draw(
                shader,
                mesh,
                mesh_index,
                bufs.resolve_vars(ptr),
            ),
            Command::UpdateScissor(scissor) => Call::UpdateScissor(scissor),
            Command::UpdateViewport(view) => Call::UpdateViewport(view),
            Command::CreateSurface(handle, params) => Call::CreateSurface(handle, params),
            Command::DeleteSurface(handle) => Call::DeleteSurface(handle),
            Command::CreateShader(handle, params, vs, fs) => Call::CreateShader(
                handle,
                params,
                vs@,
                fs@,
            ),
            Command::DeleteShader(handle) => Call::DeleteShader(handle),
            Command::CreateTexture(handle, params, data) => Call::CreateTexture(
                handle,
                params,
                data,
            ),
            Command::UpdateTexture(handle, area, ptr) => Call::UpdateTexture(
                handle,
                area,
                bufs.resolve(ptr),
            ),
            Command::DeleteTexture(handle) => Call::DeleteTexture(handle),
            Command::CreateRenderTexture(handle, params) => Call::CreateRenderTexture(
                handle,
                params,
            ),
            Command::DeleteRenderTexture(handle) => Call::DeleteRenderTexture(handle),
            Command::CreateMesh(handle, params, data) => Call::CreateMesh(handle, params, data),
            Command::UpdateVertexBuffer(handle, offset, ptr) => Call::UpdateVertexBuffer(
                handle,
                offset,
                bufs.resolve(ptr),
            ),
            Command::UpdateIndexBuffer(handle, offset, ptr) => Call::UpdateIndexBuffer(
                handle,
                offset,
                bufs.resolve(ptr),
            ),
            Command::DeleteMesh(handle) => Call::DeleteMesh(handle),
        }
    }

    /// Tells whether this command is a draw.
    pub fn is_draw(&self) -> (r: bool)
        ensures
            r == (*self is Draw),
    {
        match self {
            Command::Draw(_, _, _, _) => true,
            _ => false,
        }
    }

    /// Tells whether every pointer of this command points into `bufs`.
    pub fn fits_in(&self, bufs: &DataBuffer) -> (r: bool)
        ensures
            r == self.fits(bufs),
    {
        match self {
            Command::Draw(_, _, _, ptr) => bufs.contains_vars(*ptr),
            Command::UpdateTexture(_, _, ptr) => bufs.contains(*ptr),
            Command::UpdateVertexBuffer(_, _, ptr) => bufs.contains(*ptr),
            Command::UpdateIndexBuffer(_, _, ptr) => bufs.contains(*ptr),
            _ => true,
        }
    }

    /// Replays this command against `visitor` and returns the backend's
    /// answer: exactly one verb is invoked, the one of this command.
    pub fn replay<V: Visitor>(&self, bufs: &DataBuffer, visitor: &mut V, dimensions: (u32, u32)) -> (r:
        Result<u32, V::Error>)
        requires
            self.fits(bufs),
        ensures
            logged(
                old(visitor).trace(),
                final(visitor).trace(),
                self.resolved(bufs, dimensions),
                r,
            ),
    {
        match self {
            Command::Bind(surface) => settle(visitor.bind(*surface, dimensions)),
            Command::Draw(shader, mesh, mesh_index, ptr) => {
                let vars = bufs.vars_as_slice(*ptr);
                visitor.draw(*shader, *mesh, *mesh_index, vars)
            },
            Command::UpdateScissor(scissor) => settle(visitor.update_surface_scissor(*scissor)),
            Command::UpdateViewport(view) => settle(visitor.update_surface_viewport(*view)),
            Command::CreateSurface(handle, params) => settle(
                visitor.create_surface(*handle, *params),
            ),
            Command::DeleteSurface(handle) => settle(visitor.delete_surface(*handle)),
            Command::CreateShader(handle, params, vs, fs) => settle(
                visitor.create_shader(*handle, *params, vs.as_str(), fs.as_str()),
            ),
            Command::DeleteShader(handle) => settle(visitor.delete_shader(*handle)),
            Command::CreateTexture(handle, params, data) => settle(
                visitor.create_texture(*handle, *params, data),
            ),
            Command::UpdateTexture(handle, area, ptr) => {
                let data = bufs.as_slice(*ptr);
                settle(visitor.update_texture(*handle, *area, data))
            },
            Command::DeleteTexture(handle) => settle(visitor.delete_texture(*handle)),
            Command::CreateRenderTexture(handle, params) => settle(
                visitor.create_render_texture(*handle, *params),
            ),
            Command::DeleteRenderTexture(handle) => settle(visitor.delete_render_texture(*handle)),
            Command::CreateMesh(handle, params, data) => settle(
                visitor.create_mesh(*handle, *params, data),
            ),
            Command::UpdateVertexBuffer(handle, offset, ptr) => {
                let data = bufs.as_slice(*ptr);
                settle(visitor.update_vertex_buffer(*handle, *offset, data))
            },
            Command::UpdateIndexBuffer(handle, offset, ptr) => {
                let data = bufs.as_slice(*ptr);
                settle(visitor.update_index_buffer(*handle, *offset, data))
            },
            Command::DeleteMesh(handle) => settle(visitor.delete_mesh(*handle)),
        }
    }
}

/// The number of draws among `events` and the number of primitives that
/// those draws submitted. Both counts wrap around at two to the thirty-second
/// power.
pub open spec fn tally<E>(events: Seq<Event<E>>) -> (u32, u32)
    decreases events.len(),
{
    if events.len() == 0 {
        (0u32, 0u32)
    } else {
        let before = tally(events.drop_last());
        match events.last().result {
            Ok(n) if events.last().call is Draw => (
                before.0.wrapping_add(1u32),
                before.1.wrapping_add(n),
            ),
            _ => before,
        }
    }
}

/// What a replay of `script` does to the history of a backend that answered
/// `r` in the end.
///
/// The history grows by a beginning of the script, at least its first
/// invocation, in the order of the script. Every invocation but the last one
/// made has succeeded. On `Ok` the whole script was invoked, its last
/// invocation succeeded too, and the counts are those of the events added. On
/// `Err` the last invocation made is the one that failed, and the error is
/// the one it reported.
pub open spec fn replayed<E>(
    before: Seq<Event<E>>,
    after: Seq<Event<E>>,
    script: Seq<Call>,
    r: Result<(u32, u32), E>,
) -> bool {
    let added = after.skip(before.len() as int);
    &&& before.len() < after.len()
    &&& after.take(before.len() as int) == before
    &&& added.len() <= script.len()
    &&& forall|i: int| 0 <= i < added.len() ==> (#[trigger] added[i]).call == script[i]
    &&& forall|i: int| 0 <= i < added.len() - 1 ==> (#[trigger] added[i]).result is Ok
    &&& match r {
        Ok(counts) => {
            &&& added.len() == script.len()
            &&& added.last().result is Ok
            &&& counts == tally(added)
        },
        Err(e) => added.last().result == Err::<u32, E>(e),
    }
}

/// One cycle's ordered command buffer plus its scratch arena.
#[derive(Debug, Clone)]
pub struct Frame {
    cmds: Vec<Command>,
    bufs: DataBuffer,
}

impl Frame {
    /// The commands appended since the last dispatch or clear, oldest first.
    pub closed spec fn commands(&self) -> Seq<Command> {
        self.cmds@
    }

    /// The scratch arena of this frame.
    pub closed spec fn buffer(&self) -> DataBuffer {
        self.bufs
    }

    /// Every pointer of every command points into the scratch arena.
    pub open spec fn wf(&self) -> bool {
        forall|i: int|
            0 <= i < self.commands().len() ==> (#[trigger] self.commands()[i]).fits(&self.buffer())
    }

    /// The invocations that a dispatch makes if none of them fails: the
    /// beginning of the batch, the commands in the order they were appended,
    /// and the end of the batch.
    pub open spec fn script(&self, dimensions: (u32, u32)) -> Seq<Call> {
        seq![Call::Advance] + Seq::new(
            self.commands().len(),
            |i: int| self.commands()[i].resolved(&self.buffer(), dimensions),
        ) + seq![Call::Flush]
    }

    /// Whether the frame holds no command and its scratch arena is empty.
    pub open spec fn is_clear(&self) -> bool {
        &&& self.commands() == Seq::<Command>::empty()
        &&& self.buffer().bytes() == Seq::<u8>::empty()
        &&& self.buffer().vars() == Seq::<UniformEntry>::empty()
    }

    /// Creates a new frame whose scratch arena has room for `capacity` bytes.
    /// The number sizes the first allocation and nothing else: the frame is
    /// clear whatever room was asked for.
    pub fn with_capacity(capacity: usize) -> (f: Self)
        ensures
            f.wf(),
            f.is_clear(),
    {
        Frame { cmds: Vec::with_capacity(16), bufs: DataBuffer::with_capacity(capacity) }
    }

    /// Drops every command and empties the scratch arena. The storage of
    /// both is kept for the next frame.
    #[inline]
    pub fn clear(&mut self)
        ensures
            final(self).wf(),
            final(self).is_clear(),
    {
        self.cmds.clear();
        self.bufs.clear();
    }

    /// Returns how many commands wait for the next dispatch.
    pub fn len(&self) -> (n: usize)
        ensures
            n == self.commands().len(),
    {
        self.cmds.len()
    }

    /// Borrows the scratch arena.
    pub fn bufs(&self) -> (b: &DataBuffer)
        ensures
            *b == self.buffer(),
    {
        &self.bufs
    }

    /// Writes `bytes` into the scratch arena and returns a pointer to embed
    /// in a command of this frame.
    pub fn write(&mut self, bytes: &[u8]) -> (ptr: BytesPtr)
        requires
            old(self).wf(),
        ensures
            final(self).wf(),
            final(self).commands() == old(self).commands(),
            final(self).buffer().bytes() == old(self).buffer().bytes() + bytes@,
            final(self).buffer().vars() == old(self).buffer().vars(),
            ptr.offset == old(self).buffer().bytes().len(),
            ptr.len == bytes@.len(),
            final(self).buffer().holds(ptr),
            final(self).buffer().resolve(ptr) == bytes@,
            forall|i: int, d: (u32, u32)|
                0 <= i < old(self).commands().len() ==> (#[trigger] final(self).commands()[i].resolved(
                    &final(self).buffer(),
                    d,
                )) == old(self).commands()[i].resolved(&old(self).buffer(), d),
    {
        let ptr = self.bufs.write(bytes);
        proof {
            assert forall|i: int| 0 <= i < self.commands().len() implies (
            #[trigger] self.commands()[i]).fits(&self.buffer()) && forall|d: (u32, u32)|
                self.commands()[i].resolved(&self.buffer(), d) == old(self).commands()[i].resolved(
                    &old(self).buffer(),
                    d,
                ) by {
                let c = old(self).commands()[i];
                assert(c.fits(&old(self).buffer()));
                match c {
                    Command::UpdateTexture(_, _, p) => {
                        crate::data_buffer::lemma_write_keeps_runs(
                            old(self).buffer().bytes(),
                            bytes@,
                            p.offset,
                            p.len,
                        );
                    },
                    Command::UpdateVertexBuffer(_, _, p) => {
                        crate::data_buffer::lemma_write_keeps_runs(
                            old(self).buffer().bytes(),
                            bytes@,
                            p.offset,
                            p.len,
                        );
                    },
                    Command::UpdateIndexBuffer(_, _, p) => {
                        crate::data_buffer::lemma_write_keeps_runs(
                            old(self).buffer().bytes(),
                            bytes@,
                            p.offset,
                            p.len,
                        );
                    },
                    _ => {},
                }
            }
        }
        ptr
    }

    /// Writes `vars` into the scratch arena and returns a pointer to embed in
    /// a draw of this frame.
    pub fn write_vars(&mut self, vars: &[UniformEntry]) -> (ptr: VarsPtr)
        requires
            old(self).wf(),
        ensures
            final(self).wf(),
            final(self).commands() == old(self).commands(),
            final(self).buffer().vars() == old(self).buffer().vars() + vars@,
            final(self).buffer().bytes() == old(self).buffer().bytes(),
            ptr.offset == old(self).buffer().vars().len(),
            ptr.len == vars@.len(),
            final(self).buffer().holds_vars(ptr),
            final(self).buffer().resolve_vars(ptr) == vars@,
            forall|i: int, d: (u32, u32)|
                0 <= i < old(self).commands().len() ==> (#[trigger] final(self).commands()[i].resolved(
                    &final(self).buffer(),
                    d,
                )) == old(self).commands()[i].resolved(&old(self).buffer(), d),
    {
        let ptr = self.bufs.write_vars(vars);
        proof {
            assert forall|i: int| 0 <= i < self.commands().len() implies (
            #[trigger] self.commands()[i]).fits(&self.buffer()) && forall|d: (u32, u32)|
                self.commands()[i].resolved(&self.buffer(), d) == old(self).commands()[i].resolved(
                    &old(self).buffer(),
                    d,
                ) by {
                let c = old(self).commands()[i];
                assert(c.fits(&old(self).buffer()));
                match c {
                    Command::Draw(_, _, _, p) => {
                        crate::data_buffer::lemma_write_keeps_runs(
                            old(self).buffer().vars(),
                            vars@,
                            p.offset,
                            p.len,
                        );
                    },
                    _ => {},
                }
            }
        }
        ptr
    }

    /// Tells whether `cmd` can be appended: whether its pointers point into
    /// the scratch arena of this frame.
    pub fn accepts(&self, cmd: &Command) -> (r: bool)
        ensures
            r == cmd.fits(&self.buffer()),
    {
        cmd.fits_in(&self.bufs)
    }

    /// Appends `cmd` behind the commands already recorded.
    pub fn push(&mut self, cmd: Command)
        requires
            old(self).wf(),
            cmd.fits(&old(self).buffer()),
        ensures
            final(self).wf(),
            final(self).commands() == old(self).commands().push(cmd),
            final(self).buffer() == old(self).buffer(),
    {
        self.cmds.push(cmd);
        proof {
            assert forall|i: int| 0 <= i < self.commands().len() implies (
            #[trigger] self.commands()[i]).fits(&self.buffer()) by {
                if i < old(self).commands().len() {
                    assert(old(self).commands()[i].fits(&old(self).buffer()));
                }
            }
        }
    }

    /// Dispatches the recorded commands to the backend.
    ///
    /// Invokes `advance`, then the verb of every command in the order the
    /// commands were appended, then `flush`, and stops at the first verb that
    /// fails, whose error it returns. What was invoked before the failure is
    /// not undone. On success it returns the number of draws and the number
    /// of primitives the backend reported for them.
    ///
    /// If `advance` itself fails, the batch has not begun and the commands
    /// stay recorded. In every other outcome the command list is empty
    /// afterwards. The scratch arena is left as it is.
    pub fn dispatch<V: Visitor>(&mut self, visitor: &mut V, dimensions: (u32, u32)) -> (r: Result<
        (u32, u32),
        V::Error,
    >)
        requires
            old(self).wf(),
        ensures
            final(self).wf(),
            final(self).commands() == (if r is Err && final(visitor).trace().len() == old(
                visitor,
            ).trace().len() + 1 {
                old(self).commands()
            } else {
                Seq::<Command>::empty()
            }),
            final(self).buffer() == old(self).buffer(),
            replayed(
                old(visitor).trace(),
                final(visitor).trace(),
                old(self).script(dimensions),
                r,
            ),
    {
        let ghost base = visitor.trace();
        let ghost script = self.script(dimensions);
        match visitor.advance() {
            Err(e) => {
                proof {
                    assert(visitor.trace().take(base.len() as int) =~= base);
                }
                return Err(e);
            },
            Ok(_) => {},
        }
        let mut dc: u32 = 0;
        let mut tris: u32 = 0;
        let mut i: usize = 0;
        proof {
            assert(visitor.trace().take(base.len() as int) =~= base);
            let added = visitor.trace().skip(base.len() as int);
            assert(added.drop_last() =~= Seq::<Event<V::Error>>::empty());
            assert(tally(added.drop_last()) == (0u32, 0u32));
        }
        while i < self.cmds.len()
            invariant
                *self == *old(self),
                self.wf(),
                base == old(visitor).trace(),
                script == self.script(dimensions),
                script.len() == self.cmds@.len() + 2,
                i <= self.cmds@.len(),
                visitor.trace().len() == base.len() + i + 1,
                visitor.trace().take(base.len() as int) == base,
                forall|k: int|
                    0 <= k < i + 1 ==> (#[trigger] visitor.trace().skip(base.len() as int)[k]).call
                        == script[k],
                forall|k: int|
                    0 <= k < i + 1 ==> (#[trigger] visitor.trace().skip(
                        base.len() as int,
                    )[k]).result is Ok,
                (dc, tris) == tally(visitor.trace().skip(base.len() as int)),
            decreases self.cmds@.len() - i,
        {
            let ghost done = visitor.trace().skip(base.len() as int);
            assert(self.commands()[i as int].fits(&self.buffer()));
            let r = self.cmds[i].replay(&self.bufs, visitor, dimensions);
            proof {
                let added = visitor.trace().skip(base.len() as int);
                assert(visitor.trace().take(base.len() as int) =~= base);
                assert(added.drop_last() =~= done);
                assert(added.last().result == r);
                assert(script[i + 1] == self.commands()[i as int].resolved(
                    &self.buffer(),
                    dimensions,
                ));
                assert forall|k: int| 0 <= k < i + 2 implies (#[trigger] added[k]).call
                    == script[k] by {
                    if k < i + 1 {
                        assert(added[k] == done[k]);
                    }
                }
                assert forall|k: int| 0 <= k < i + 1 implies (#[trigger] added[k]).result is Ok by {
                    assert(added[k] == done[k]);
                }
            }
            match r {
                Err(e) => {
                    self.cmds.clear();
                    return Err(e);
                },
                Ok(n) => {
                    if self.cmds[i].is_draw() {
                        dc = dc.wrapping_add(1);
                        tris = tris.wrapping_add(n);
                    }
                },
            }
            i += 1;
        }
        let ghost done = visitor.trace().skip(base.len() as int);
        let end = visitor.flush();
        proof {
            let added = visitor.trace().skip(base.len() as int);
            assert(visitor.trace().take(base.len() as int) =~= base);
            assert(added.drop_last() =~= done);
            assert(script[i + 1] == Call::Flush);
            assert forall|k: int| 0 <= k < i + 2 implies (#[trigger] added[k]).call
                == script[k] by {
                if k < i + 1 {
                    assert(added[k] == done[k]);
                }
            }
            assert forall|k: int| 0 <= k < i + 1 implies (#[trigger] added[k]).result is Ok by {
                assert(added[k] == done[k]);
            }
        }
        self.cmds.clear();
        match end {
            Err(e) => Err(e),
            Ok(_) => Ok((dc, tris)),
        }
    }
}

impl Default for Frame {
    /// The default frame holds no command and no payload.
    fn default() -> (f: Self)
        ensures
            f.wf(),
            f.is_clear(),
    {
        Frame { cmds: Vec::new(), bufs: DataBuffer::default() }
    }
}

/// Clearing twice in a row leaves what clearing once leaves: whatever the
/// frame held before, a cleared frame holds no command and no payload, and
/// so does the frame cleared again.
pub proof fn lemma_clear_idempotent(once: Frame, twice: Frame)
    requires
        once.is_clear(),
        twice.is_clear(),
    ensures
        once.wf(),
        twice.wf(),
        twice.commands() == once.commands(),
        twice.buffer().bytes() == once.buffer().bytes(),
        twice.buffer().vars() == once.buffer().vars(),
        twice.commands().len() == 0,
        twice.buffer().bytes().len() == 0,
{
}

} // verus!
