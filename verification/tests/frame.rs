use crayon::assets::{
    MeshData, MeshHint, MeshIndex, MeshParams, Region, ShaderParams, SurfaceParams,
    SurfaceScissor, SurfaceViewport, UniformEntry, UniformVariable,
};
use crayon::data_buffer::{BytesPtr, DataBuffer, VarsPtr};
use crayon::frame::{Command, Event, Frame, Visitor};
use crayon::headless::HeadlessVisitor;
use crayon::handle::{
    Handle, MeshHandle, RenderTextureHandle, ShaderHandle, SurfaceHandle, TextureHandle,
};
use crayon::state::{Primitive, RenderState};
use crayon::texture::{RenderTextureParams, TextureData, TextureParams};

/// A backend that writes down what is asked of it, and fails the verb at
/// position `fail_at`, counted from zero over all verbs invoked.
struct Recorder {
    log: Vec<String>,
    fail_at: Option<usize>,
    tris: u32,
}

impl Recorder {
    fn new() -> Self {
        Recorder { log: Vec::new(), fail_at: None, tris: 3 }
    }

    fn failing_at(n: usize) -> Self {
        Recorder { log: Vec::new(), fail_at: Some(n), tris: 3 }
    }

    fn note(&mut self, what: String) -> Result<(), String> {
        let at = self.log.len();
        self.log.push(what);
        if self.fail_at == Some(at) {
            Err(format!("failed at {}", at))
        } else {
            Ok(())
        }
    }
}

impl Visitor for Recorder {
    type Error = String;

    fn trace(&self) -> vstd::seq::Seq<Event<String>> {
        unreachable!()
    }

    fn advance(&mut self) -> Result<(), String> {
        self.note(format!("advance"))
    }

    fn bind(&mut self, surface: SurfaceHandle, dimensions: (u32, u32)) -> Result<(), String> {
        self.note(format!("bind {} {:?}", surface.0.index(), dimensions))
    }

    fn draw(
        &mut self,
        shader: ShaderHandle,
        mesh: MeshHandle,
        mesh_index: MeshIndex,
        vars: &[UniformEntry],
    ) -> Result<u32, String> {
        self.note(format!(
            "draw {} {} {:?} {:?}",
            shader.0.index(),
            mesh.0.index(),
            mesh_index,
            vars
        ))?;
        Ok(self.tris)
    }

    fn update_surface_scissor(&mut self, scissor: SurfaceScissor) -> Result<(), String> {
        self.note(format!("scissor {:?}", scissor))
    }

    fn update_surface_viewport(&mut self, view: SurfaceViewport) -> Result<(), String> {
        self.note(format!("viewport {:?} {:?}", view.position, view.size))
    }

    fn create_surface(&mut self, handle: SurfaceHandle, _params: SurfaceParams) -> Result<(), String> {
        self.note(format!("create_surface {}", handle.0.index()))
    }

    fn delete_surface(&mut self, handle: SurfaceHandle) -> Result<(), String> {
        self.note(format!("delete_surface {}", handle.0.index()))
    }

    fn create_shader(
        &mut self,
        handle: ShaderHandle,
        _params: ShaderParams,
        vs: &str,
        fs: &str,
    ) -> Result<(), String> {
        self.note(format!("create_shader {} {} {}", handle.0.index(), vs, fs))
    }

    fn delete_shader(&mut self, handle: ShaderHandle) -> Result<(), String> {
        self.note(format!("delete_shader {}", handle.0.index()))
    }

    fn create_texture(
        &mut self,
        handle: TextureHandle,
        _params: TextureParams,
        data: &Option<TextureData>,
    ) -> Result<(), String> {
        self.note(format!("create_texture {} {:?}", handle.0.index(), data))
    }

    fn update_texture(&mut self, handle: TextureHandle, area: Region, data: &[u8]) -> Result<(), String> {
        self.note(format!(
            "update_texture {} {:?} {:?} {:?}",
            handle.0.index(),
            area.min,
            area.max,
            data
        ))
    }

    fn delete_texture(&mut self, handle: TextureHandle) -> Result<(), String> {
        self.note(format!("delete_texture {}", handle.0.index()))
    }

    fn create_render_texture(
        &mut self,
        handle: RenderTextureHandle,
        _params: RenderTextureParams,
    ) -> Result<(), String> {
        self.note(format!("create_render_texture {}", handle.0.index()))
    }

    fn delete_render_texture(&mut self, handle: RenderTextureHandle) -> Result<(), String> {
        self.note(format!("delete_render_texture {}", handle.0.index()))
    }

    fn create_mesh(
        &mut self,
        handle: MeshHandle,
        _params: MeshParams,
        data: &Option<MeshData>,
    ) -> Result<(), String> {
        self.note(format!("create_mesh {} {:?}", handle.0.index(), data))
    }

    fn update_vertex_buffer(&mut self, handle: MeshHandle, offset: usize, data: &[u8]) -> Result<(), String> {
        self.note(format!("update_vertex_buffer {} {} {:?}", handle.0.index(), offset, data))
    }

    fn update_index_buffer(&mut self, handle: MeshHandle, offset: usize, data: &[u8]) -> Result<(), String> {
        self.note(format!("update_index_buffer {} {} {:?}", handle.0.index(), offset, data))
    }

    fn delete_mesh(&mut self, handle: MeshHandle) -> Result<(), String> {
        self.note(format!("delete_mesh {}", handle.0.index()))
    }

    fn flush(&mut self) -> Result<(), String> {
        self.note(format!("flush"))
    }
}

fn texture(i: u32) -> TextureHandle {
    TextureHandle(Handle::new(i, 0))
}

fn region() -> Region {
    Region { min: (0, 0), max: (2, 2) }
}

fn texture_cycle(frame: &mut Frame) {
    let h = texture(4);
    frame.push(Command::CreateTexture(h, TextureParams::default(), None));
    let ptr = frame.write(&[1, 2, 3, 4]);
    frame.push(Command::UpdateTexture(h, region(), ptr));
    frame.push(Command::DeleteTexture(h));
}

#[test]
fn scratch_writes_do_not_alias() {
    let mut buf = DataBuffer::with_capacity(8);
    let a = buf.write(&[1, 2, 3]);
    let b = buf.write(&[9, 8]);
    assert_eq!(a, BytesPtr { offset: 0, len: 3 });
    assert_eq!(b, BytesPtr { offset: 3, len: 2 });
    assert!(a.offset + a.len <= b.offset);
    assert_eq!(buf.as_slice(a), &[1, 2, 3]);
    assert_eq!(buf.as_slice(b), &[9, 8]);
    assert_eq!(buf.len(), 5);
    let e = buf.write(&[]);
    assert_eq!(e, BytesPtr { offset: 5, len: 0 });
    assert_eq!(buf.as_slice(e), &[] as &[u8]);
    assert_eq!(buf.as_slice(a), &[1, 2, 3]);
}

#[test]
fn scratch_vars_round_trip() {
    let mut buf = DataBuffer::with_capacity(0);
    let first = [(7u64, UniformVariable::I32(-1)), (8u64, UniformVariable::F32(0x3f800000))];
    let second = [(9u64, UniformVariable::Vector2f([1, 2]))];
    let a = buf.write_vars(&first);
    let b = buf.write_vars(&second);
    assert_eq!(a, VarsPtr { offset: 0, len: 2 });
    assert_eq!(b, VarsPtr { offset: 2, len: 1 });
    assert_eq!(buf.vars_as_slice(a), &first);
    assert_eq!(buf.vars_as_slice(b), &second);
    assert_eq!(buf.vars_len(), 3);
    assert_eq!(buf.len(), 0);
}

#[test]
fn scratch_pointer_checks() {
    let mut buf = DataBuffer::with_capacity(4);
    let a = buf.write(&[1, 2, 3]);
    assert!(buf.contains(a));
    assert!(buf.contains(BytesPtr { offset: 3, len: 0 }));
    assert!(!buf.contains(BytesPtr { offset: 2, len: 2 }));
    assert!(!buf.contains(BytesPtr { offset: 4, len: 0 }));
    assert!(!buf.contains(BytesPtr { offset: usize::MAX, len: 2 }));
    assert!(!buf.contains_vars(VarsPtr { offset: 0, len: 1 }));
    buf.clear();
    assert!(!buf.contains(a));
    assert_eq!(buf.len(), 0);
}

#[test]
fn clear_is_idempotent() {
    let mut frame = Frame::with_capacity(16);
    texture_cycle(&mut frame);
    assert_eq!(frame.len(), 3);
    assert_eq!(frame.bufs().len(), 4);
    frame.clear();
    assert_eq!(frame.len(), 0);
    assert_eq!(frame.bufs().len(), 0);
    assert_eq!(frame.bufs().vars_len(), 0);
    frame.clear();
    assert_eq!(frame.len(), 0);
    assert_eq!(frame.bufs().len(), 0);
    assert_eq!(frame.bufs().vars_len(), 0);
}

#[test]
fn dispatch_keeps_submission_order() {
    let mut frame = Frame::with_capacity(16);
    texture_cycle(&mut frame);
    let mut backend = Recorder::new();
    let r = frame.dispatch(&mut backend, (640, 480));
    assert_eq!(r, Ok((0, 0)));
    assert_eq!(
        backend.log,
        vec![
            "advance".to_string(),
            "create_texture 4 None".to_string(),
            "update_texture 4 (0, 0) (2, 2) [1, 2, 3, 4]".to_string(),
            "delete_texture 4".to_string(),
            "flush".to_string(),
        ]
    );
    assert_eq!(frame.len(), 0);
    assert_eq!(frame.bufs().len(), 4);
}

#[test]
fn dispatch_stops_at_first_failure() {
    let mut frame = Frame::with_capacity(16);
    texture_cycle(&mut frame);
    let mut backend = Recorder::failing_at(2);
    let r = frame.dispatch(&mut backend, (640, 480));
    assert_eq!(r, Err("failed at 2".to_string()));
    assert_eq!(
        backend.log,
        vec![
            "advance".to_string(),
            "create_texture 4 None".to_string(),
            "update_texture 4 (0, 0) (2, 2) [1, 2, 3, 4]".to_string(),
        ]
    );
    assert_eq!(frame.len(), 0);
}

#[test]
fn dispatch_fails_at_the_edges() {
    let mut frame = Frame::with_capacity(16);
    texture_cycle(&mut frame);
    let mut backend = Recorder::failing_at(0);
    assert_eq!(frame.dispatch(&mut backend, (1, 1)), Err("failed at 0".to_string()));
    assert_eq!(backend.log, vec!["advance".to_string()]);
    assert_eq!(frame.len(), 3);

    let mut backend = Recorder::failing_at(4);
    assert_eq!(frame.dispatch(&mut backend, (1, 1)), Err("failed at 4".to_string()));
    assert_eq!(backend.log.len(), 5);
    assert_eq!(backend.log[4], "flush");
    assert_eq!(frame.len(), 0);
}

#[test]
fn dispatch_of_nothing_frames_the_batch() {
    let mut frame = Frame::with_capacity(0);
    let mut backend = Recorder::new();
    assert_eq!(frame.dispatch(&mut backend, (1, 1)), Ok((0, 0)));
    assert_eq!(backend.log, vec!["advance".to_string(), "flush".to_string()]);
}

#[test]
fn dispatch_counts_draws_and_primitives() {
    let mut frame = Frame::with_capacity(16);
    let shader = ShaderHandle(Handle::new(1, 0));
    let mesh = MeshHandle(Handle::new(2, 0));
    let surface = SurfaceHandle(Handle::new(3, 0));
    frame.push(Command::Bind(surface));
    let vars = frame.write_vars(&[(11, UniformVariable::I32(5))]);
    frame.push(Command::Draw(shader, mesh, MeshIndex::All, vars));
    let none = frame.write_vars(&[]);
    frame.push(Command::Draw(shader, mesh, MeshIndex::SubMesh(1), none));
    frame.push(Command::UpdateViewport(SurfaceViewport { position: (0, 0), size: (8, 8) }));
    let mut backend = Recorder::new();
    assert_eq!(frame.dispatch(&mut backend, (640, 480)), Ok((2, 6)));
    assert_eq!(
        backend.log,
        vec![
            "advance".to_string(),
            "bind 3 (640, 480)".to_string(),
            "draw 1 2 All [(11, I32(5))]".to_string(),
            "draw 1 2 SubMesh(1) []".to_string(),
            "viewport (0, 0) (8, 8)".to_string(),
            "flush".to_string(),
        ]
    );
}

#[test]
fn dispatch_counts_wrap_around() {
    let mut frame = Frame::with_capacity(0);
    let shader = ShaderHandle(Handle::new(1, 0));
    let mesh = MeshHandle(Handle::new(2, 0));
    let vars = frame.write_vars(&[]);
    frame.push(Command::Draw(shader, mesh, MeshIndex::All, vars));
    frame.push(Command::Draw(shader, mesh, MeshIndex::All, vars));
    let mut backend = Recorder::new();
    backend.tris = u32::MAX;
    assert_eq!(frame.dispatch(&mut backend, (1, 1)), Ok((2, u32::MAX - 1)));
}

#[test]
fn dispatch_replays_every_verb() {
    let mut frame = Frame::with_capacity(16);
    let surface = SurfaceHandle(Handle::new(1, 0));
    let shader = ShaderHandle(Handle::new(2, 0));
    let rt = RenderTextureHandle(Handle::new(3, 0));
    let mesh = MeshHandle(Handle::new(5, 0));
    let surface_params = SurfaceParams {
        color: Some(rt),
        depth_stencil: None,
        clear_color: Some(0xff),
        clear_depth: None,
        clear_stencil: None,
        order: 0,
    };
    let mesh_params = MeshParams {
        hint: MeshHint::Immutable,
        primitive: Primitive::Triangles,
        num_verts: 3,
        num_idxes: 3,
    };
    frame.push(Command::CreateRenderTexture(rt, RenderTextureParams::default()));
    frame.push(Command::CreateSurface(surface, surface_params));
    frame.push(Command::CreateShader(
        shader,
        ShaderParams { state: RenderState::default() },
        "vs".to_string(),
        "fs".to_string(),
    ));
    frame.push(Command::CreateMesh(
        mesh,
        mesh_params,
        Some(MeshData { vptr: vec![1], iptr: vec![2] }),
    ));
    let v = frame.write(&[7, 7]);
    let i = frame.write(&[8]);
    frame.push(Command::UpdateVertexBuffer(mesh, 4, v));
    frame.push(Command::UpdateIndexBuffer(mesh, 6, i));
    frame.push(Command::UpdateScissor(SurfaceScissor::Disable));
    frame.push(Command::DeleteMesh(mesh));
    frame.push(Command::DeleteShader(shader));
    frame.push(Command::DeleteSurface(surface));
    frame.push(Command::DeleteRenderTexture(rt));
    let mut backend = Recorder::new();
    assert_eq!(frame.dispatch(&mut backend, (1, 1)), Ok((0, 0)));
    assert_eq!(
        backend.log,
        vec![
            "advance".to_string(),
            "create_render_texture 3".to_string(),
            "create_surface 1".to_string(),
            "create_shader 2 vs fs".to_string(),
            "create_mesh 5 Some(MeshData { vptr: [1], iptr: [2] })".to_string(),
            "update_vertex_buffer 5 4 [7, 7]".to_string(),
            "update_index_buffer 5 6 [8]".to_string(),
            "scissor Disable".to_string(),
            "delete_mesh 5".to_string(),
            "delete_shader 2".to_string(),
            "delete_surface 1".to_string(),
            "delete_render_texture 3".to_string(),
            "flush".to_string(),
        ]
    );
}

#[test]
fn frame_accepts_only_pointers_into_its_arena() {
    let mut frame = Frame::with_capacity(4);
    let ptr = frame.write(&[1, 2]);
    let good = Command::UpdateTexture(texture(0), region(), ptr);
    let bad = Command::UpdateTexture(texture(0), region(), BytesPtr { offset: 1, len: 2 });
    let draw = Command::Draw(
        ShaderHandle(Handle::new(0, 0)),
        MeshHandle(Handle::new(0, 0)),
        MeshIndex::Name(1),
        VarsPtr { offset: 0, len: 1 },
    );
    assert!(frame.accepts(&good));
    assert!(!frame.accepts(&bad));
    assert!(!frame.accepts(&draw));
    assert!(frame.accepts(&Command::DeleteTexture(texture(0))));
    assert!(draw.is_draw());
    assert!(!good.is_draw());
}

#[test]
fn headless_backend_takes_every_frame() {
    let mut frame = Frame::with_capacity(16);
    texture_cycle(&mut frame);
    let shader = ShaderHandle(Handle::new(1, 0));
    let mesh = MeshHandle(Handle::new(2, 0));
    let vars = frame.write_vars(&[(1, UniformVariable::I32(1))]);
    frame.push(Command::Draw(shader, mesh, MeshIndex::All, vars));
    frame.push(Command::Draw(shader, mesh, MeshIndex::All, vars));
    let mut backend = HeadlessVisitor::new();
    assert_eq!(backend.calls(), 0);
    assert_eq!(frame.dispatch(&mut backend, (4, 4)), Ok((2, 0)));
    assert_eq!(backend.calls(), 7);
    assert_eq!(frame.len(), 0);
    assert_eq!(frame.dispatch(&mut backend, (4, 4)), Ok((0, 0)));
    assert_eq!(backend.calls(), 9);
}

#[test]
fn default_frame_is_clear() {
    let mut frame = Frame::default();
    assert_eq!(frame.len(), 0);
    assert_eq!(frame.bufs().len(), 0);
    let ptr = frame.write(&[5]);
    assert_eq!(ptr, BytesPtr { offset: 0, len: 1 });
    let buf = DataBuffer::default();
    assert_eq!(buf.len(), 0);
    assert_eq!(buf.vars_len(), 0);
}
