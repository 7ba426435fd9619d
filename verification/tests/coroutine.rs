use ggez::conf::{Conf, FullscreenType, NumSamples, WindowMode, WindowSetup};
use ggez::context::Context;
use ggez::coroutine::{yield_now, Coroutine, Progress, Routine, YieldOp};
use ggez::graphics;
use ggez::graphics::backend::GlBackendSpec;
use ggez::graphics::context::GraphicsContext;
use glam::{Mat4, Vec4};

fn coroutine_window_mode() -> WindowMode {
    WindowMode {
        width: 4,
        height: 4,
        borderless: false,
        fullscreen_type: FullscreenType::Off,
        vsync: true,
        min_width: 0,
        max_width: 0,
        min_height: 0,
        max_height: 0,
    }
}

fn coroutine_test_context() -> Context {
    let mut gfx = GraphicsContext::new(
        WindowSetup { resizable: false, allow_highdpi: false, samples: NumSamples::One },
        coroutine_window_mode(),
        GlBackendSpec::default(),
        Vec4::zero(),
        Vec4::new(0.0, 0.0, 4.0, 4.0),
        Mat4::identity(),
    )
    .unwrap();
    let _ = gfx.take_commands();
    Context { conf: Conf::new("coroutine"), window_mode: coroutine_window_mode(), gfx_context: gfx }
}

/// Pushes one matrix with each resumption and is ready after `left` of them.
struct Loader {
    left: u32,
    done: u32,
}

impl Routine for Loader {
    type Output = u32;

    fn resume(&mut self, ctx: &mut Context) -> Progress<u32> {
        if self.left == 0 {
            return Progress::Ready(self.done);
        }
        graphics::push_transform(ctx, None);
        self.left -= 1;
        self.done += 1;
        Progress::Pending
    }
}

#[test]
fn yield_now_is_pending_once() {
    let mut ctx = coroutine_test_context();
    let mut op = yield_now();
    assert_eq!(op, YieldOp(false));
    assert_eq!(op.resume(&mut ctx), Progress::Pending);
    assert_eq!(op, YieldOp(true));
    assert_eq!(op.resume(&mut ctx), Progress::Ready(()));
    assert_eq!(op.resume(&mut ctx), Progress::Ready(()));
}

#[test]
fn coroutine_over_yield_finishes_with_the_second_poll() {
    let mut ctx = coroutine_test_context();
    let mut coroutine = Coroutine::new(yield_now());
    assert!(!coroutine.is_finished());
    assert_eq!(coroutine.poll(&mut ctx), None);
    assert!(!coroutine.is_finished());
    assert_eq!(coroutine.poll(&mut ctx), Some(()));
    assert!(coroutine.is_finished());
    assert_eq!(coroutine.poll(&mut ctx), None);
    assert_eq!(coroutine.poll(&mut ctx), None);
}

#[test]
fn settle_finishes_a_ready_routine() {
    let (coroutine, result) = Coroutine::settle(YieldOp(true), Progress::Ready(()));
    assert!(coroutine.is_finished());
    assert_eq!(result, Some(()));
    let (coroutine, result) = Coroutine::settle(YieldOp(true), Progress::Pending);
    assert!(!coroutine.is_finished());
    assert_eq!(result, None);
}

#[test]
fn coroutine_yields_its_value_once() {
    let mut ctx = coroutine_test_context();
    let mut coroutine = Coroutine::new(Loader { left: 3, done: 0 });
    assert_eq!(coroutine.poll(&mut ctx), None);
    assert_eq!(coroutine.poll(&mut ctx), None);
    assert_eq!(coroutine.poll(&mut ctx), None);
    assert_eq!(ctx.gfx_context.transform_stack_len(), 4);
    assert_eq!(coroutine.poll(&mut ctx), Some(3));
    assert_eq!(coroutine.poll(&mut ctx), None);
    // A finished coroutine is not resumed: the context stays as it is.
    assert_eq!(ctx.gfx_context.transform_stack_len(), 4);
}

#[test]
fn coroutine_that_is_ready_at_once() {
    let mut ctx = coroutine_test_context();
    let mut coroutine = Coroutine::new(Loader { left: 0, done: 42 });
    assert_eq!(coroutine.poll(&mut ctx), Some(42));
    assert_eq!(coroutine.poll(&mut ctx), None);
    assert_eq!(ctx.gfx_context.transform_stack_len(), 1);
}
