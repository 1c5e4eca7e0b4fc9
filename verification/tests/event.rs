use spe::context::PresentationContext;
use spe::device::{CommandQueue, DeviceKind, GraphicsDevice};
use spe::event::{
    after_acquire, match_input, window_title, Context, InputCommands, LoopAction, LoopEvent,
    RedrawStep, WindowState, KEY_ESCAPE, KEY_F11, KEY_LEFT_CONTROL, KEY_LEFT_SHIFT, KEY_M,
};
use spe::frame::{AcquireError, AcquiredFrame, CompletionSignal};
use spe::input::{InputContext, KeyState};
use spe::swapchain::{
    ChainBuild, CompositeAlpha, Extent, Format, PresentMode, SurfaceCapabilities,
    SwapchainCreationError,
};
use std::time::Instant;

const WINDOWED: WindowState = WindowState { maximized: false, fullscreen: false };
const NOTHING: InputCommands =
    InputCommands { set_maximized: None, set_fullscreen: None, exit: false };

fn engine() -> Context {
    let device = GraphicsDevice {
        index: 0,
        kind: DeviceKind::IntegratedGpu,
        capabilities: SurfaceCapabilities {
            min_image_count: 1,
            formats: vec![Format { code: 50 }],
            composite_alphas: vec![CompositeAlpha::Opaque],
        },
    };
    let graphics = PresentationContext::new(
        device,
        CommandQueue { family_index: 0 },
        Extent::new(1280, 720),
        PresentMode::FifoRelaxed,
        ChainBuild::Built { image_count: 2 },
    )
    .unwrap();
    Context::new("SPE".to_string(), "Delfi".to_string(), graphics)
}

#[test]
fn scancodes_of_the_shortcuts() {
    assert_eq!(
        [KEY_ESCAPE, KEY_LEFT_CONTROL, KEY_LEFT_SHIFT, KEY_M, KEY_F11],
        [1, 29, 42, 50, 87]
    );
}

#[test]
fn no_key_no_command() {
    let mut input = InputContext::new();
    assert_eq!(match_input(&mut input, WINDOWED), NOTHING);
}

#[test]
fn control_m_toggles_maximized() {
    let mut input = InputContext::new();
    input.insert(Some(KEY_LEFT_CONTROL), KeyState::Pressed);
    input.insert(Some(KEY_M), KeyState::Pressed);
    assert_eq!(
        match_input(&mut input, WINDOWED),
        InputCommands { set_maximized: Some(true), ..NOTHING }
    );
    // M is still down, but it did not go down again.
    assert_eq!(match_input(&mut input, WINDOWED), NOTHING);
    input.insert(Some(KEY_M), KeyState::Released);
    input.insert(Some(KEY_M), KeyState::Pressed);
    let maximized = WindowState { maximized: true, fullscreen: false };
    assert_eq!(
        match_input(&mut input, maximized),
        InputCommands { set_maximized: Some(false), ..NOTHING }
    );
}

#[test]
fn m_alone_does_nothing() {
    let mut input = InputContext::new();
    input.insert(Some(KEY_M), KeyState::Pressed);
    assert_eq!(match_input(&mut input, WINDOWED), NOTHING);
}

#[test]
fn f11_toggles_fullscreen() {
    let mut input = InputContext::new();
    input.insert(Some(KEY_F11), KeyState::Pressed);
    assert_eq!(
        match_input(&mut input, WINDOWED),
        InputCommands { set_fullscreen: Some(true), ..NOTHING }
    );
    assert_eq!(match_input(&mut input, WINDOWED), NOTHING);
    input.insert(Some(KEY_F11), KeyState::Released);
    input.insert(Some(KEY_F11), KeyState::Pressed);
    let fullscreen = WindowState { maximized: false, fullscreen: true };
    assert_eq!(
        match_input(&mut input, fullscreen),
        InputCommands { set_fullscreen: Some(false), ..NOTHING }
    );
}

#[test]
fn escape_with_shift_leaves_the_loop() {
    let mut input = InputContext::new();
    input.insert(Some(KEY_ESCAPE), KeyState::Pressed);
    assert_eq!(match_input(&mut input, WINDOWED), NOTHING);
    input.insert(Some(KEY_LEFT_SHIFT), KeyState::Pressed);
    assert_eq!(match_input(&mut input, WINDOWED), InputCommands { exit: true, ..NOTHING });
    // Both keys are still down.
    assert_eq!(match_input(&mut input, WINDOWED), InputCommands { exit: true, ..NOTHING });
}

#[test]
fn events_map_to_actions() {
    let mut ctx = engine();
    assert_eq!(ctx.match_event(WINDOWED, LoopEvent::Poll), LoopAction::Poll(NOTHING));
    assert_eq!(ctx.match_event(WINDOWED, LoopEvent::CloseRequested), LoopAction::Exit);
    assert_eq!(ctx.match_event(WINDOWED, LoopEvent::RedrawRequested), LoopAction::Redraw);
    assert_eq!(ctx.match_event(WINDOWED, LoopEvent::LoopExiting), LoopAction::Quit);
    assert_eq!(ctx.match_event(WINDOWED, LoopEvent::Other), LoopAction::Idle);
    assert!(!ctx.graphics.is_outdated());
    assert_eq!(ctx.time.ticks(), 0);
}

#[test]
fn resize_and_scale_change_mark_the_chain_outdated() {
    for event in [LoopEvent::Resized, LoopEvent::ScaleFactorChanged] {
        let mut ctx = engine();
        assert_eq!(ctx.match_event(WINDOWED, event), LoopAction::Idle);
        assert!(ctx.graphics.is_outdated());
        assert_eq!(ctx.graphics.chain().extent(), Extent::new(1280, 720));
    }
}

#[test]
fn keyboard_events_reach_the_shortcuts_at_the_next_poll() {
    let mut ctx = engine();
    let key = |scancode| LoopEvent::KeyboardInput { scancode: Some(scancode), state: KeyState::Pressed };
    assert_eq!(ctx.match_event(WINDOWED, key(KEY_ESCAPE)), LoopAction::Idle);
    assert_eq!(ctx.match_event(WINDOWED, key(KEY_LEFT_SHIFT)), LoopAction::Idle);
    assert_eq!(ctx.match_event(WINDOWED, key(KEY_F11)), LoopAction::Idle);
    assert!(ctx.input.is_key_just_pressed(KEY_F11));
    assert_eq!(
        ctx.match_event(WINDOWED, LoopEvent::Poll),
        LoopAction::Poll(InputCommands { set_maximized: None, set_fullscreen: Some(true), exit: true })
    );
    assert!(!ctx.input.is_key_just_pressed(KEY_F11));
    assert!(ctx.input.is_key_pressed(KEY_F11));
}

#[test]
fn frame_is_drawn_recoverable_error_retried_other_error_final() {
    let frame = AcquiredFrame { image_index: 1, serial: 4, after: CompletionSignal::Ready };
    assert_eq!(after_acquire(Ok(frame)), RedrawStep::Draw(frame));
    assert_eq!(after_acquire(Err(AcquireError::OutOfDate)), RedrawStep::Retry);
    assert_eq!(after_acquire(Err(AcquireError::Minimized)), RedrawStep::Retry);
    for error in [
        AcquireError::FrameInFlight,
        AcquireError::InvalidImage,
        AcquireError::Rebuild(SwapchainCreationError::Rejected),
    ] {
        assert_eq!(after_acquire(Err(error)), RedrawStep::Abort(error));
    }
}

#[test]
fn title_names_application_author_and_fps() {
    assert_eq!(window_title("SPE", "Delfi", 60), "SPE by [Delfi]; Fps: 60");
    assert_eq!(window_title("", "", 0), " by []; Fps: 0");
    assert_eq!(window_title("a", "b", 7), "a by [b]; Fps: 7");
    assert_eq!(window_title("a", "b", 10), "a by [b]; Fps: 10");
    assert_eq!(window_title("a", "b", 1234567890), "a by [b]; Fps: 1234567890");
    assert_eq!(window_title("a", "b", u32::MAX), "a by [b]; Fps: 4294967295");
}

#[test]
fn title_follows_the_timer() {
    let mut ctx = engine();
    assert_eq!(ctx.update_title(), "SPE by [Delfi]; Fps: 1000");
    for _ in 0..200 {
        ctx.time.record(Instant::now(), 16_666_667);
    }
    assert_eq!(ctx.update_title(), "SPE by [Delfi]; Fps: 60");
}
