use crayon::assets::{ShaderParams, UniformVariable};
use crayon::errors::Error;
use crayon::handle::{Handle, MaterialHandle, PipelineHandle, ShaderHandle};
use crayon::location::Location;
use crayon::scene::{MaterialParams, MaterialSetup, PipelineParams, Scene};
use crayon::state::RenderState;

fn params() -> ShaderParams {
    ShaderParams { state: RenderState::default() }
}

fn shader(i: u32) -> ShaderHandle {
    ShaderHandle(Handle::new(i, 0))
}

#[test]
fn pipelines_are_shared_by_location() {
    let mut scene = Scene::new();
    assert_eq!(scene.lookup_pipeline(Location::shared("phong")), None);
    assert_eq!(scene.reuse_pipeline(Location::shared("phong")), None);
    let a = scene.create_pipeline(Location::shared("phong"), shader(1), params());
    assert_eq!(scene.lookup_pipeline(Location::shared("phong")), Some(a));
    assert_eq!(scene.reuse_pipeline(Location::shared("phong")), Some(a));
    let b = scene.create_pipeline(Location::shared("phong"), shader(2), params());
    assert_eq!(a, b);
    assert_eq!(scene.pipeline_registry().rc(a.0), Some(3));
    assert_eq!(
        scene.pipeline_registry().get(a.0),
        Some(&PipelineParams::new(shader(1), params()))
    );
    scene.delete_pipeline(a);
    scene.delete_pipeline(a);
    assert_eq!(scene.lookup_pipeline(Location::shared("phong")), Some(a));
    scene.delete_pipeline(a);
    assert_eq!(scene.lookup_pipeline(Location::shared("phong")), None);
    assert_eq!(scene.pipeline_registry().get(a.0), None);
}

#[test]
fn materials_need_a_live_pipeline() {
    let mut scene = Scene::new();
    let stale = PipelineHandle(Handle::new(0, 0));
    let r = scene.create_material(MaterialSetup { pipeline: stale, variables: vec![] });
    assert_eq!(r, Err(Error::PipelineHandleInvalid(stale)));
    assert_eq!(
        Error::PipelineHandleInvalid(stale).message(),
        "pipeline handle is invalid"
    );

    let p = scene.create_pipeline(Location::shared("phong"), shader(1), params());
    let vars = vec![(1u64, UniformVariable::I32(4))];
    let m1 = scene
        .create_material(MaterialSetup { pipeline: p, variables: vars.clone() })
        .unwrap();
    let m2 = scene
        .create_material(MaterialSetup { pipeline: p, variables: vars.clone() })
        .unwrap();
    assert_ne!(m1, m2);
    assert_eq!(
        scene.material_registry().get(m1.0),
        Some(&MaterialParams::new(p, vars, params()))
    );
    assert_eq!(scene.material_registry().rc(m1.0), Some(1));
    scene.delete_material(m1);
    assert_eq!(scene.material_registry().get(m1.0), None);
    assert!(scene.material_registry().get(m2.0).is_some());
}

#[test]
fn update_material_binds_variables() {
    let mut scene = Scene::new();
    let p = scene.create_pipeline(Location::unique(""), shader(1), params());
    let m = scene
        .create_material(MaterialSetup {
            pipeline: p,
            variables: vec![(1, UniformVariable::I32(1)), (2, UniformVariable::I32(2))],
        })
        .unwrap();
    assert_eq!(scene.update_material(m, 2, UniformVariable::I32(20)), Ok(()));
    assert_eq!(scene.update_material(m, 3, UniformVariable::F32(7)), Ok(()));
    assert_eq!(
        scene.material_registry().get(m.0).unwrap().variables,
        vec![
            (1, UniformVariable::I32(1)),
            (2, UniformVariable::I32(20)),
            (3, UniformVariable::F32(7)),
        ]
    );
    let stale = MaterialHandle(Handle::new(9, 9));
    assert_eq!(
        scene.update_material(stale, 1, UniformVariable::I32(0)),
        Err(Error::MaterialHandleInvalid(stale))
    );
    assert_eq!(
        Error::MaterialHandleInvalid(stale).message(),
        "material handle is invalid"
    );
}

#[test]
fn bind_replaces_the_first_entry_only() {
    let p = PipelineHandle(Handle::new(0, 0));
    let mut m = MaterialParams::new(
        p,
        vec![(5, UniformVariable::I32(1)), (5, UniformVariable::I32(2))],
        params(),
    );
    m.bind(5, UniformVariable::I32(9));
    assert_eq!(
        m.variables,
        vec![(5, UniformVariable::I32(9)), (5, UniformVariable::I32(2))]
    );
}

#[test]
fn registry_room_checks() {
    let mut scene = Scene::new();
    assert!(scene.pipeline_registry().can_open());
    assert!(scene.pipeline_registry().can_create(Location::shared("x")));
    let p = scene.create_pipeline(Location::shared("x"), shader(0), params());
    assert!(scene.pipeline_registry().can_create(Location::shared("x")));
    assert!(scene.pipeline_registry().is_alive(p.0));
}
