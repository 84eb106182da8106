use crayon::errors::Error;
use crayon::location::Location;
use crayon::state::{
    BlendFactor, BlendValue, Comparison, CullFace, Equation, FrontFaceOrder, RenderState,
};
use crayon::texture::{
    RenderTextureFormat, RenderTextureSetup, TextureAddress, TextureFilter, TextureFormat,
    TextureHint, TextureParams, TextureSetup,
};

#[test]
fn format_components() {
    assert_eq!(TextureFormat::U8.components(), 1);
    assert_eq!(TextureFormat::F16.components(), 1);
    assert_eq!(TextureFormat::F32.components(), 1);
    assert_eq!(TextureFormat::U8U8.components(), 2);
    assert_eq!(TextureFormat::F16F16.components(), 2);
    assert_eq!(TextureFormat::F32F32.components(), 2);
    assert_eq!(TextureFormat::U5U6U5.components(), 3);
    assert_eq!(TextureFormat::U8U8U8.components(), 3);
    assert_eq!(TextureFormat::F16F16F16.components(), 3);
    assert_eq!(TextureFormat::F32F32F32.components(), 3);
    assert_eq!(TextureFormat::U8U8U8U8.components(), 4);
    assert_eq!(TextureFormat::U4U4U4U4.components(), 4);
    assert_eq!(TextureFormat::U5U5U5U1.components(), 4);
    assert_eq!(TextureFormat::U10U10U10U2.components(), 4);
    assert_eq!(TextureFormat::F16F16F16F16.components(), 4);
    assert_eq!(TextureFormat::F32F32F32F32.components(), 4);
}

#[test]
fn format_sizes() {
    assert_eq!(TextureFormat::U8.size(), 1);
    assert_eq!(TextureFormat::U8U8.size(), 2);
    assert_eq!(TextureFormat::U5U6U5.size(), 2);
    assert_eq!(TextureFormat::U4U4U4U4.size(), 2);
    assert_eq!(TextureFormat::U5U5U5U1.size(), 2);
    assert_eq!(TextureFormat::F16.size(), 2);
    assert_eq!(TextureFormat::U8U8U8.size(), 3);
    assert_eq!(TextureFormat::U8U8U8U8.size(), 4);
    assert_eq!(TextureFormat::U10U10U10U2.size(), 4);
    assert_eq!(TextureFormat::F16F16.size(), 4);
    assert_eq!(TextureFormat::F32.size(), 4);
    assert_eq!(TextureFormat::F16F16F16.size(), 6);
    assert_eq!(TextureFormat::F16F16F16F16.size(), 8);
    assert_eq!(TextureFormat::F32F32.size(), 8);
    assert_eq!(TextureFormat::F32F32F32.size(), 12);
    assert_eq!(TextureFormat::F32F32F32F32.size(), 16);
}

#[test]
fn texture_defaults() {
    let p = TextureParams::default();
    assert_eq!(p.format, TextureFormat::U8U8U8U8);
    assert_eq!(p.address, TextureAddress::Clamp);
    assert_eq!(p.filter, TextureFilter::Linear);
    assert_eq!(p.hint, TextureHint::Immutable);
    assert_eq!(p.mipmap, false);
    assert_eq!(p.dimensions, (0, 0));

    let r = RenderTextureSetup::default();
    assert_eq!(r.format, RenderTextureFormat::RGB8);
    assert_eq!(r.address, TextureAddress::Clamp);
    assert_eq!(r.filter, TextureFilter::Linear);
    assert_eq!(r.dimensions, (0, 0));
    assert_eq!(r.sampler, true);

    let s = TextureSetup::default();
    assert!(!s.location.is_shared());
    assert_eq!(s.params, p);
    assert!(s.data.is_none());
    assert_eq!(s.validate(), Ok(()));
}

#[test]
fn shared_textures_must_be_immutable() {
    let mut setup = TextureSetup::default();
    setup.location = Location::shared("atlas.png");
    assert_eq!(setup.validate(), Ok(()));
    setup.params.hint = TextureHint::Dynamic;
    assert_eq!(setup.validate(), Err(Error::CreateMutableSharedObject));
    setup.params.hint = TextureHint::Stream;
    assert_eq!(setup.validate(), Err(Error::CreateMutableSharedObject));
    setup.location = Location::token(3, "atlas.png");
    assert_eq!(setup.validate(), Err(Error::CreateMutableSharedObject));
    setup.location = Location::unique("atlas.png");
    assert_eq!(setup.validate(), Ok(()));
}

#[test]
fn error_messages() {
    assert_eq!(
        Error::CreateMutableSharedObject.message(),
        "can not create mutable shared object"
    );
}

#[test]
fn render_state_default_and_builders() {
    let mut s = RenderState::default();
    assert_eq!(s.cull_face, CullFace::Back);
    assert_eq!(s.front_face_order, FrontFaceOrder::CounterClockwise);
    assert_eq!(s.depth_test, Comparison::Always);
    assert_eq!(s.depth_write, false);
    assert_eq!(s.depth_write_offset, None);
    assert_eq!(s.color_blend, None);
    assert_eq!(s.color_write, (false, false, false, false));

    let blend = Some((
        Equation::Add,
        BlendFactor::Value(BlendValue::SourceAlpha),
        BlendFactor::OneMinusValue(BlendValue::SourceAlpha),
    ));
    s.with_cull_face(CullFace::Front)
        .with_front_face_order(FrontFaceOrder::Clockwise)
        .with_depth_write(true)
        .with_depth_test(Comparison::LessOrEqual)
        .with_color_blend(blend)
        .with_color_write(true, false, true, false);
    assert_eq!(s.cull_face, CullFace::Front);
    assert_eq!(s.front_face_order, FrontFaceOrder::Clockwise);
    assert_eq!(s.depth_write, true);
    assert_eq!(s.depth_test, Comparison::LessOrEqual);
    assert_eq!(s.color_blend, blend);
    assert_eq!(s.color_write, (true, false, true, false));
    assert_eq!(s.depth_write_offset, None);
}
