use ggez::conf::{Conf, FullscreenType, NumSamples, WindowMode, WindowSetup};
use ggez::context::Context;
use ggez::error::GameError;
use ggez::graphics;
use ggez::graphics::backend::GlBackendSpec;
use ggez::graphics::canvas::{set_canvas, Canvas};
use ggez::graphics::context::GraphicsContext;
use ggez::graphics::drawable::Drawable;
use ggez::graphics::factory::ResourceRequest;
use ggez::graphics::image::Image;
use ggez::graphics::types::{
    AaMode, BlendMode, Command, DrawParam, FilterMode, ImageFormat, RenderTarget, TextureId,
};
use glam::{Mat4, Vec4};

fn canvas_window_mode() -> WindowMode {
    WindowMode {
        width: 8,
        height: 6,
        borderless: false,
        fullscreen_type: FullscreenType::Off,
        vsync: false,
        min_width: 0,
        max_width: 0,
        min_height: 0,
        max_height: 0,
    }
}

fn canvas_test_context() -> Context {
    let mut gfx = GraphicsContext::new(
        WindowSetup { resizable: false, allow_highdpi: false, samples: NumSamples::One },
        canvas_window_mode(),
        GlBackendSpec::default(),
        Vec4::new(0.1, 0.2, 0.3, 1.0),
        Vec4::new(0.0, 0.0, 8.0, 6.0),
        Mat4::identity(),
    )
    .unwrap();
    let _ = gfx.take_commands();
    let _ = gfx.take_requests();
    Context { conf: Conf::new("canvas"), window_mode: canvas_window_mode(), gfx_context: gfx }
}

fn color_format() -> gfx::format::Format {
    gfx::format::Format(gfx::format::SurfaceType::R8_G8_B8_A8, gfx::format::ChannelType::Srgb)
}

fn get_rgba_sample(rgba_buf: &[u8], width: usize, x: usize, y: usize) -> (u8, u8, u8, u8) {
    (
        rgba_buf[(width * y + x) * 4 + 0],
        rgba_buf[(width * y + x) * 4 + 1],
        rgba_buf[(width * y + x) * 4 + 2],
        rgba_buf[(width * y + x) * 4 + 3],
    )
}

/// What a render texture of the given size holds, bottom row first, once four
/// quadrants have been drawn into it: white top left, red top right, green
/// bottom left, blue bottom right.
fn rendered_quadrants(width: usize, height: usize) -> Vec<u8> {
    let mut raw = Vec::new();
    for stored_row in 0..height {
        let y = height - 1 - stored_row;
        for x in 0..width {
            let texel: [u8; 4] = match (x < width / 2, y < height / 2) {
                (true, true) => [255, 255, 255, 255],
                (false, true) => [255, 0, 0, 255],
                (true, false) => [0, 255, 0, 255],
                (false, false) => [0, 0, 255, 255],
            };
            raw.extend_from_slice(&texel);
        }
    }
    raw
}

#[test]
fn new_canvas_requests_a_render_texture() {
    let mut ctx = canvas_test_context();
    let canvas = Canvas::new(&mut ctx, 8, 6, NumSamples::One, color_format()).unwrap();
    assert_eq!((canvas.width(), canvas.height()), (8, 6));
    assert_eq!(canvas.target(), RenderTarget::Canvas(TextureId(1)));
    assert_eq!(canvas.raw_image().texture(), TextureId(1));
    assert_eq!((canvas.raw_image().width(), canvas.raw_image().height()), (8, 6));
    assert_eq!(canvas.get_blend_mode(), None);
    assert_eq!(canvas.filter(), FilterMode::Linear);
    let requests = ctx.gfx_context.take_requests();
    assert_eq!(requests.len(), 1);
    match &requests[0] {
        ResourceRequest::RenderTexture { id, width, height, aa, format } => {
            assert_eq!(*id, TextureId(1));
            assert_eq!((*width, *height), (8, 6));
            assert_eq!(*aa, AaMode::Single);
            assert_eq!(*format, color_format());
        }
        _ => panic!("a render texture is requested"),
    }
}

#[test]
fn multisampled_canvas_asks_for_its_samples() {
    let mut ctx = canvas_test_context();
    let _ = Canvas::new(&mut ctx, 4, 4, NumSamples::Eight, color_format()).unwrap();
    let requests = ctx.gfx_context.take_requests();
    assert!(matches!(requests[0], ResourceRequest::RenderTexture { aa: AaMode::Multi(8), .. }));
}

#[test]
fn canvas_without_area_is_a_resource_load_error() {
    let mut ctx = canvas_test_context();
    match Canvas::new(&mut ctx, 0, 6, NumSamples::One, color_format()) {
        Err(GameError::ResourceLoadError(msg)) => {
            assert_eq!(msg, "Tried to create a texture of size 0x6, each dimension must be >0")
        }
        _ => panic!("a canvas needs an area"),
    }
    assert!(matches!(
        Canvas::new(&mut ctx, 6, 0, NumSamples::One, color_format()),
        Err(GameError::ResourceLoadError(_))
    ));
    assert!(ctx.gfx_context.take_requests().is_empty());
}

#[test]
fn canvas_with_window_size() {
    let mut ctx = canvas_test_context();
    let canvas = Canvas::with_window_size(&mut ctx, (800, 600), color_format()).unwrap();
    assert_eq!((canvas.width(), canvas.height()), (800, 600));
    let wrapped = Canvas::with_window_size(&mut ctx, (65536 + 5, 7), color_format()).unwrap();
    assert_eq!((wrapped.width(), wrapped.height()), (5, 7));
}

#[test]
fn set_canvas_redirects_clears_and_draws() {
    let mut ctx = canvas_test_context();
    let canvas = Canvas::new(&mut ctx, 8, 6, NumSamples::One, color_format()).unwrap();
    let image = Image::solid(&mut ctx, 1, (9, 9, 9, 9)).unwrap();
    let param = DrawParam { src: Vec4::new(0.0, 0.0, 1.0, 1.0), color: Vec4::one(), trans: Mat4::identity() };
    set_canvas(&mut ctx, Some(&canvas));
    graphics::clear(&mut ctx);
    image.draw_ex(&mut ctx, param).unwrap();
    set_canvas(&mut ctx, None);
    graphics::clear(&mut ctx);
    image.draw_ex(&mut ctx, param).unwrap();
    let commands = ctx.gfx_context.take_commands();
    assert_eq!(commands.len(), 6);
    assert!(matches!(commands[0], Command::Clear { target: RenderTarget::Canvas(TextureId(1)), .. }));
    match commands[2] {
        Command::Draw { data, .. } => assert_eq!(data.out, RenderTarget::Canvas(TextureId(1))),
        _ => panic!("a draw call is recorded"),
    }
    assert!(matches!(commands[3], Command::Clear { target: RenderTarget::Screen, .. }));
    match commands[5] {
        Command::Draw { data, .. } => assert_eq!(data.out, RenderTarget::Screen),
        _ => panic!("a draw call is recorded"),
    }
}

#[test]
fn drawing_a_canvas_flips_it_once() {
    let mut ctx = canvas_test_context();
    let mut canvas = Canvas::new(&mut ctx, 8, 6, NumSamples::One, color_format()).unwrap();
    canvas.set_blend_mode(Some(BlendMode::Replace));
    canvas.set_filter(FilterMode::Nearest);
    assert_eq!(canvas.filter(), FilterMode::Nearest);
    let param = DrawParam { src: Vec4::new(0.0, 0.0, 1.0, 1.0), color: Vec4::one(), trans: Mat4::identity() };
    canvas.draw_ex(&mut ctx, param).unwrap();
    assert_eq!(graphics::get_blend_mode(&ctx), BlendMode::Alpha);
    let commands = ctx.gfx_context.take_commands();
    assert_eq!(commands.len(), 2);
    match commands[0] {
        Command::UpdateInstance { properties } => {
            assert!(properties.flip_vertical);
            assert_eq!(properties.scale, (8, 6));
            assert_eq!(properties.transform, Mat4::identity());
        }
        _ => panic!("the record is uploaded first"),
    }
    match commands[1] {
        Command::Draw { blend_mode, data, .. } => {
            assert_eq!(blend_mode, BlendMode::Replace);
            assert_eq!(data.texture, TextureId(1));
        }
        _ => panic!("the draw call follows"),
    }
    // The image made from a canvas is upright already: it is drawn unflipped.
    let upright = canvas.to_image(&mut ctx, rendered_quadrants(8, 6)).unwrap();
    upright.draw_ex(&mut ctx, param).unwrap();
    let commands = ctx.gfx_context.take_commands();
    match commands[0] {
        Command::UpdateInstance { properties } => assert!(!properties.flip_vertical),
        _ => panic!("the record is uploaded first"),
    }
}

#[test]
fn save_screenshot() {
    let mut ctx = canvas_test_context();
    let width = 8usize;
    let height = 6usize;
    let canvas = Canvas::new(&mut ctx, 8, 6, NumSamples::One, color_format()).unwrap();
    assert_eq!(width as u16, canvas.width());
    assert_eq!(height as u16, canvas.height());
    assert_eq!(None, canvas.get_blend_mode());

    let rgba_buf = canvas.to_rgba8(rendered_quadrants(width, height)).unwrap();
    let (half_w, half_h) = (width / 4, height / 4);
    assert_eq!((255, 255, 255, 255), get_rgba_sample(&rgba_buf, width, half_w, half_h));
    assert_eq!((255, 0, 0, 255), get_rgba_sample(&rgba_buf, width, width / 2 + half_w, half_h));
    assert_eq!((0, 255, 0, 255), get_rgba_sample(&rgba_buf, width, half_w, height / 2 + half_h));
    assert_eq!(
        (0, 0, 255, 255),
        get_rgba_sample(&rgba_buf, width, width / 2 + half_w, height / 2 + half_h)
    );

    let file = canvas.encode(rendered_quadrants(width, height), ImageFormat::Png).unwrap();
    assert_eq!(&file[..8], &[137, 80, 78, 71, 13, 10, 26, 10]);
}

#[test]
fn to_rgba8_refuses_a_readback_of_the_wrong_size() {
    let mut ctx = canvas_test_context();
    let canvas = Canvas::new(&mut ctx, 2, 2, NumSamples::One, color_format()).unwrap();
    match canvas.to_rgba8(vec![0u8; 15]) {
        Err(GameError::RenderError(msg)) => {
            assert_eq!(msg, "The pixel data read back does not have the size of the canvas")
        }
        _ => panic!("fifteen bytes are not four texels"),
    }
    assert!(matches!(canvas.to_rgba8(Vec::new()), Err(GameError::RenderError(_))));
    assert!(matches!(
        canvas.encode(vec![0u8; 17], ImageFormat::Png),
        Err(GameError::RenderError(_))
    ));
    assert!(matches!(
        canvas.to_image(&mut ctx, vec![0u8; 12]),
        Err(GameError::RenderError(_))
    ));
    assert_eq!(canvas.to_rgba8(vec![3u8; 16]).unwrap(), vec![3u8; 16]);
}

#[test]
fn to_image_uploads_the_upright_texels() {
    let mut ctx = canvas_test_context();
    let canvas = Canvas::new(&mut ctx, 1, 2, NumSamples::One, color_format()).unwrap();
    let _ = ctx.gfx_context.take_requests();
    let image = canvas.to_image(&mut ctx, vec![1, 1, 1, 1, 2, 2, 2, 2]).unwrap();
    assert_eq!((image.width(), image.height()), (1, 2));
    assert_eq!(image.texture(), TextureId(2));
    let requests = ctx.gfx_context.take_requests();
    match &requests[0] {
        ResourceRequest::Texture { pixels, .. } => {
            assert_eq!(pixels, &vec![2, 2, 2, 2, 1, 1, 1, 1])
        }
        _ => panic!("a texture is requested"),
    }
}

#[test]
fn image_encode() {
    let mut ctx = canvas_test_context();
    let canvas = Canvas::new(&mut ctx, 4, 2, NumSamples::One, color_format()).unwrap();
    let raw: Vec<u8> = (0..4 * 2 * 4).map(|i| (i * 5) as u8).collect();
    let file = canvas.encode(raw.clone(), ImageFormat::Png).unwrap();
    assert_eq!(&file[..8], &[137, 80, 78, 71, 13, 10, 26, 10]);
    assert_ne!(file, raw);
    assert_ne!(file, canvas.to_rgba8(raw).unwrap());
}

#[test]
fn load_images() {
    let mut ctx = canvas_test_context();
    let canvas = Canvas::new(&mut ctx, 4, 4, NumSamples::One, color_format()).unwrap();
    let raw = rendered_quadrants(4, 4);
    let upright = canvas.to_rgba8(raw.clone()).unwrap();
    let file = canvas.encode(raw, ImageFormat::Png).unwrap();
    let _ = ctx.gfx_context.take_requests();
    let image = Image::new(&mut ctx, &file).unwrap();
    assert_eq!((image.width(), image.height()), (4, 4));
    let requests = ctx.gfx_context.take_requests();
    assert_eq!(requests.len(), 1);
    match &requests[0] {
        ResourceRequest::Texture { id, width, height, pixels } => {
            assert_eq!(*id, image.texture());
            assert_eq!((*width, *height), (4, 4));
            assert_eq!(pixels, &upright);
        }
        _ => panic!("a texture is requested"),
    }
    // An encoder that succeeded hands its file on as it is.
    let handed_on = Canvas::encoded(Ok(file.clone())).unwrap();
    assert_eq!(handed_on, file);
    assert!(matches!(
        Canvas::encoded(Err("disk full".to_string())),
        Err(GameError::ResourceLoadError(_))
    ));
}
