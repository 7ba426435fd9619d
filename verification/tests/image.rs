use ggez::conf::{Conf, FullscreenType, NumSamples, WindowMode, WindowSetup};
use ggez::context::Context;
use ggez::error::GameError;
use ggez::graphics;
use ggez::graphics::backend::GlBackendSpec;
use ggez::graphics::context::{GraphicsContext, QUAD_VERTEX_BUFFER};
use ggez::graphics::drawable::Drawable;
use ggez::graphics::factory::{Factory, ResourceRequest};
use ggez::graphics::image::Image;
use ggez::graphics::types::{
    BlendMode, BufferId, Command, DrawParam, FilterMode, InstanceProperties, RenderTarget,
    SamplerId, SamplerInfo, TextureId, WrapMode,
};
use glam::{Mat4, Vec3, Vec4};

fn window_mode() -> WindowMode {
    WindowMode {
        width: 64,
        height: 32,
        borderless: false,
        fullscreen_type: FullscreenType::Off,
        vsync: true,
        min_width: 0,
        max_width: 0,
        min_height: 0,
        max_height: 0,
    }
}

fn image_test_context() -> Context {
    let mut gfx = GraphicsContext::new(
        WindowSetup { resizable: false, allow_highdpi: false, samples: NumSamples::One },
        window_mode(),
        GlBackendSpec::default(),
        Vec4::new(0.1, 0.2, 0.3, 1.0),
        Vec4::new(0.0, 0.0, 64.0, 32.0),
        Mat4::identity(),
    )
    .unwrap();
    let _ = gfx.take_commands();
    let _ = gfx.take_requests();
    Context { conf: Conf::new("image"), window_mode: window_mode(), gfx_context: gfx }
}

fn param_at(x: f32, y: f32) -> DrawParam {
    DrawParam {
        src: Vec4::new(0.0, 0.0, 1.0, 1.0),
        color: Vec4::one(),
        trans: Mat4::from_translation(Vec3::new(x, y, 0.0)),
    }
}

fn resource_load_message<T: std::fmt::Debug>(r: Result<T, GameError>) -> String {
    match r {
        Err(GameError::ResourceLoadError(msg)) => msg,
        other => panic!("expected a resource-load error, got {:?}", other),
    }
}

#[test]
fn from_rgba8_keeps_the_size_asked_for() {
    let mut ctx = image_test_context();
    let data: Vec<u8> = (0..3 * 5 * 4).map(|i| i as u8).collect();
    let image = Image::from_rgba8(&mut ctx, 3, 5, &data).unwrap();
    assert_eq!(image.width(), 3);
    assert_eq!(image.height(), 5);
    assert_eq!(image.texture(), TextureId(1));
    assert_eq!(image.get_blend_mode(), None);
    assert_eq!(image.get_filter(), FilterMode::Linear);
    assert_eq!(image.get_wrap(), (WrapMode::Clamp, WrapMode::Clamp));
    let requests = ctx.gfx_context.take_requests();
    assert_eq!(requests.len(), 1);
    match &requests[0] {
        ResourceRequest::Texture { id, width, height, pixels } => {
            assert_eq!(*id, TextureId(1));
            assert_eq!((*width, *height), (3, 5));
            assert_eq!(pixels, &data);
        }
        _ => panic!("a texture is requested"),
    }
}

#[test]
fn from_rgba8_largest_size() {
    let mut ctx = image_test_context();
    let image = Image::from_rgba8(&mut ctx, 65535, 1, &vec![7u8; 65535 * 4]).unwrap();
    assert_eq!((image.width(), image.height()), (65535, 1));
}

#[test]
fn images_get_consecutive_textures() {
    let mut ctx = image_test_context();
    let a = Image::from_rgba8(&mut ctx, 1, 1, &[1, 2, 3, 4]).unwrap();
    let b = Image::from_rgba8(&mut ctx, 1, 1, &[1, 2, 3, 4]).unwrap();
    assert_eq!(a.texture(), TextureId(1));
    assert_eq!(b.texture(), TextureId(2));
}

#[test]
fn zero_width_is_a_resource_load_error() {
    let mut ctx = image_test_context();
    let msg = resource_load_message(Image::from_rgba8(&mut ctx, 0, 7, &[]));
    assert_eq!(msg, "Tried to create a texture of size 0x7, each dimension must be >0");
    assert!(ctx.gfx_context.take_requests().is_empty());
}

#[test]
fn zero_height_is_a_resource_load_error() {
    let mut ctx = image_test_context();
    let msg = resource_load_message(Image::from_rgba8(&mut ctx, 1200, 0, &[]));
    assert_eq!(msg, "Tried to create a texture of size 1200x0, each dimension must be >0");
    let msg = resource_load_message(Image::from_rgba8(&mut ctx, 0, 0, &[1, 2, 3, 4]));
    assert_eq!(msg, "Tried to create a texture of size 0x0, each dimension must be >0");
    assert!(ctx.gfx_context.take_requests().is_empty());
}

#[test]
fn zero_size_solid_is_a_resource_load_error() {
    let mut ctx = image_test_context();
    let msg = resource_load_message(Image::solid(&mut ctx, 0, (255, 0, 0, 255)));
    assert_eq!(msg, "Tried to create a texture of size 0x0, each dimension must be >0");
}

#[test]
fn make_raw_takes_the_sampler_it_is_given() {
    let mut factory = Factory::new();
    let info = SamplerInfo { filter: FilterMode::Nearest, wrap_x: WrapMode::Tile, wrap_y: WrapMode::Mirror };
    let image = Image::make_raw(&mut factory, &info, 2, 1, &[1, 2, 3, 4, 5, 6, 7, 8]).unwrap();
    assert_eq!(image.sampler_info(), info);
    assert_eq!(image.texture(), TextureId(0));
    assert!(matches!(
        Image::make_raw(&mut factory, &info, 0, 1, &[]),
        Err(GameError::ResourceLoadError(_))
    ));
    assert_eq!(factory.take_requests().len(), 1);
    assert!(factory.take_requests().is_empty());
}

#[test]
fn solid_fills_every_texel() {
    let mut ctx = image_test_context();
    let image = Image::solid(&mut ctx, 3, (10, 20, 30, 40)).unwrap();
    assert_eq!((image.width(), image.height()), (3, 3));
    let requests = ctx.gfx_context.take_requests();
    match &requests[0] {
        ResourceRequest::Texture { width, height, pixels, .. } => {
            assert_eq!((*width, *height), (3, 3));
            assert_eq!(pixels.len(), 3 * 3 * 4);
            for texel in pixels.chunks(4) {
                assert_eq!(texel, &[10, 20, 30, 40]);
            }
        }
        _ => panic!("a texture is requested"),
    }
}

#[test]
fn filter_and_wrap_can_be_changed() {
    let mut ctx = image_test_context();
    let mut image = Image::solid(&mut ctx, 1, (0, 0, 0, 255)).unwrap();
    image.set_filter(FilterMode::Nearest);
    assert_eq!(image.get_filter(), FilterMode::Nearest);
    assert_eq!(image.get_wrap(), (WrapMode::Clamp, WrapMode::Clamp));
    image.set_wrap(WrapMode::Tile, WrapMode::Border);
    assert_eq!(image.get_wrap(), (WrapMode::Tile, WrapMode::Border));
    assert_eq!(image.get_filter(), FilterMode::Nearest);
    assert_eq!((image.width(), image.height()), (1, 1));
    image.set_blend_mode(Some(BlendMode::Add));
    assert_eq!(image.get_blend_mode(), Some(BlendMode::Add));
    image.set_blend_mode(None);
    assert_eq!(image.get_blend_mode(), None);
}

#[test]
fn solid_red_image_drawn_at_10_10() {
    let mut ctx = image_test_context();
    let image = Image::solid(&mut ctx, 2, (255, 0, 0, 255)).unwrap();
    let requests = ctx.gfx_context.take_requests();
    match &requests[0] {
        ResourceRequest::Texture { pixels, .. } => {
            assert_eq!(
                pixels,
                &vec![255, 0, 0, 255, 255, 0, 0, 255, 255, 0, 0, 255, 255, 0, 0, 255]
            );
        }
        _ => panic!("a texture is requested"),
    }
    graphics::clear(&mut ctx);
    graphics::draw_ex(&mut ctx, &image, param_at(10.0, 10.0)).unwrap();
    graphics::present(&mut ctx);
    let commands = ctx.gfx_context.take_commands();
    assert_eq!(commands.len(), 4);
    match commands[0] {
        Command::Clear { target, color } => {
            assert_eq!(target, RenderTarget::Screen);
            assert_eq!(color, Vec4::new(0.1, 0.2, 0.3, 1.0));
        }
        _ => panic!("the frame starts with a clear"),
    }
    match commands[1] {
        Command::UpdateInstance { properties } => {
            assert_eq!(properties.transform, Mat4::from_translation(Vec3::new(10.0, 10.0, 0.0)));
            assert_eq!(properties.src, Vec4::new(0.0, 0.0, 1.0, 1.0));
            assert_eq!(properties.color, Vec4::one());
            // The unit quad is drawn at the image's size in texels.
            assert_eq!(properties.scale, (2, 2));
            assert!(!properties.flip_vertical);
        }
        _ => panic!("the record is uploaded before the draw call"),
    }
    match commands[2] {
        Command::Draw { slice, shader, blend_mode, data } => {
            assert_eq!(slice, ctx.gfx_context.quad_slice());
            assert_eq!(shader, 0);
            assert_eq!(blend_mode, BlendMode::Alpha);
            assert_eq!(data.vbuf, BufferId(QUAD_VERTEX_BUFFER));
            assert_eq!(data.texture, image.texture());
            assert_eq!(data.sampler, SamplerId(0));
            assert_eq!(data.out, RenderTarget::Screen);
        }
        _ => panic!("the draw call follows the upload"),
    }
    assert!(matches!(commands[3], Command::Present));
}

#[test]
fn drawing_with_an_override_restores_the_blend_mode() {
    let mut ctx = image_test_context();
    let mut image = Image::solid(&mut ctx, 1, (1, 2, 3, 4)).unwrap();
    image.set_blend_mode(Some(BlendMode::Add));
    graphics::set_blend_mode(&mut ctx, BlendMode::Multiply).unwrap();
    let before = graphics::get_blend_mode(&ctx);
    image.draw_ex(&mut ctx, param_at(0.0, 0.0)).unwrap();
    let after = graphics::get_blend_mode(&ctx);
    assert_eq!(before, BlendMode::Multiply);
    assert_eq!(after, before);
    let commands = ctx.gfx_context.take_commands();
    assert_eq!(commands.len(), 2);
    match commands[1] {
        Command::Draw { blend_mode, .. } => assert_eq!(blend_mode, BlendMode::Add),
        _ => panic!("the draw call is made under the image's mode"),
    }
}

#[test]
fn drawing_without_an_override_uses_the_ambient_mode() {
    let mut ctx = image_test_context();
    let mut image = Image::solid(&mut ctx, 1, (1, 2, 3, 4)).unwrap();
    graphics::set_blend_mode(&mut ctx, BlendMode::Lighten).unwrap();
    image.draw_ex(&mut ctx, param_at(0.0, 0.0)).unwrap();
    image.set_blend_mode(Some(BlendMode::Lighten));
    image.draw_ex(&mut ctx, param_at(0.0, 0.0)).unwrap();
    assert_eq!(graphics::get_blend_mode(&ctx), BlendMode::Lighten);
    let commands = ctx.gfx_context.take_commands();
    assert_eq!(commands.len(), 4);
    for i in [1, 3] {
        match commands[i] {
            Command::Draw { blend_mode, .. } => assert_eq!(blend_mode, BlendMode::Lighten),
            _ => panic!("a draw call is recorded"),
        }
    }
}

#[test]
fn drawing_with_an_unsupported_override_fails_before_the_draw_call() {
    let mut ctx = image_test_context();
    let mut image = Image::solid(&mut ctx, 1, (1, 2, 3, 4)).unwrap();
    image.set_blend_mode(Some(BlendMode::Darken));
    let narrow = ctx.gfx_context.create_shader(Some(&[BlendMode::Alpha, BlendMode::Add]));
    ctx.gfx_context.set_shader(narrow).unwrap();
    let err = image.draw_ex(&mut ctx, param_at(0.0, 0.0)).unwrap_err();
    assert!(matches!(err, GameError::RenderError(_)));
    assert_eq!(graphics::get_blend_mode(&ctx), BlendMode::Alpha);
    let commands = ctx.gfx_context.take_commands();
    assert_eq!(commands.len(), 1);
    assert!(matches!(commands[0], Command::UpdateInstance { .. }));
    assert_eq!(ctx.gfx_context.data().texture, image.texture());
}

#[test]
fn a_failed_restore_leaves_the_override_in_force() {
    let mut ctx = image_test_context();
    let mut image = Image::solid(&mut ctx, 1, (1, 2, 3, 4)).unwrap();
    image.set_blend_mode(Some(BlendMode::Add));
    // This shader starts out with Alpha, for which it has no pipeline.
    let odd = ctx.gfx_context.create_shader(Some(&[BlendMode::Add]));
    ctx.gfx_context.set_shader(odd).unwrap();
    let err = image.draw_ex(&mut ctx, param_at(0.0, 0.0)).unwrap_err();
    assert!(matches!(err, GameError::RenderError(_)));
    assert_eq!(graphics::get_blend_mode(&ctx), BlendMode::Add);
    assert_eq!(ctx.gfx_context.take_commands().len(), 2);
}

#[test]
fn drawing_creates_the_sampler_on_first_use() {
    let mut ctx = image_test_context();
    let mut image = Image::solid(&mut ctx, 1, (1, 2, 3, 4)).unwrap();
    let _ = ctx.gfx_context.take_requests();
    image.set_filter(FilterMode::Nearest);
    image.draw_ex(&mut ctx, param_at(1.0, 1.0)).unwrap();
    image.draw_ex(&mut ctx, param_at(2.0, 2.0)).unwrap();
    assert_eq!(ctx.gfx_context.samplers().len(), 2);
    assert_eq!(ctx.gfx_context.data().sampler, SamplerId(1));
    assert_eq!(
        ctx.gfx_context.samplers().get(SamplerId(1)),
        Some(SamplerInfo::new(FilterMode::Nearest, WrapMode::Clamp))
    );
    assert_eq!(ctx.gfx_context.samplers().get(SamplerId(2)), None);
    let requests = ctx.gfx_context.take_requests();
    assert_eq!(requests.len(), 1);
    assert!(matches!(requests[0], ResourceRequest::Sampler { sampler: SamplerId(1), .. }));
    image.set_filter(FilterMode::Linear);
    image.draw_ex(&mut ctx, param_at(3.0, 3.0)).unwrap();
    assert_eq!(ctx.gfx_context.data().sampler, SamplerId(0));
    assert!(ctx.gfx_context.take_requests().is_empty());
}

#[test]
fn instance_properties_of_a_plain_draw_param() {
    let p = param_at(4.0, 5.0);
    let properties = InstanceProperties::from(p);
    assert_eq!(properties.src, p.src);
    assert_eq!(properties.color, p.color);
    assert_eq!(properties.transform, p.trans);
    assert_eq!(properties.scale, (1, 1));
    assert!(!properties.flip_vertical);
}

#[test]
fn undecodable_bytes_are_a_resource_load_error() {
    let mut ctx = image_test_context();
    let r = Image::new(&mut ctx, &[1, 2, 3, 4, 5, 6, 7, 8, 9, 10]);
    assert!(matches!(r, Err(GameError::ResourceLoadError(_))));
    assert!(ctx.gfx_context.take_requests().is_empty());
    let r = Image::from_decoded(&mut ctx, Err("broken".to_string()));
    assert_eq!(resource_load_message(r), "broken");
}

#[test]
fn decoded_sizes_keep_their_low_16_bits() {
    let mut ctx = image_test_context();
    let image = Image::from_decoded(&mut ctx, Ok((65536 + 2, 1, vec![0u8; 8]))).unwrap();
    assert_eq!((image.width(), image.height()), (2, 1));
    let r = Image::from_decoded(&mut ctx, Ok((65536, 1, vec![])));
    assert_eq!(
        resource_load_message(r),
        "Tried to create a texture of size 0x1, each dimension must be >0"
    );
}
