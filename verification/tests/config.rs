use spe::config::{Configuration, ContextBuilder, FpsLimit, WindowMode, WindowSetup};
use spe::swapchain::{Extent, PresentMode};

#[test]
fn fps_limit_knows_itself() {
    assert!(FpsLimit::Inf.is_inf());
    assert!(!FpsLimit::Inf.is_vsync());
    assert!(FpsLimit::Vsync.is_vsync());
    assert!(!FpsLimit::Vsync.is_inf());
}

#[test]
fn fps_limit_and_present_mode() {
    assert_eq!(FpsLimit::Vsync.present_mode(), PresentMode::FifoRelaxed);
    assert_eq!(FpsLimit::Inf.present_mode(), PresentMode::Mailbox);
    assert_eq!(FpsLimit::from_present_mode(PresentMode::Fifo), FpsLimit::Vsync);
    assert_eq!(FpsLimit::from_present_mode(PresentMode::FifoRelaxed), FpsLimit::Vsync);
    assert_eq!(FpsLimit::from_present_mode(PresentMode::Mailbox), FpsLimit::Inf);
    assert_eq!(FpsLimit::from_present_mode(PresentMode::Immediate), FpsLimit::Inf);
}

#[test]
fn default_window_setup() {
    let setup = WindowSetup::default();
    assert_eq!(setup.title, "Engine");
    assert_eq!(setup.author, "User");
    assert_eq!(setup.icon, "");
    let named = WindowSetup::new("SPE", "Delfi");
    assert_eq!(named.title, "SPE");
    assert_eq!(named.author, "Delfi");
    assert_eq!(named.icon, "");
}

#[test]
fn default_window_mode() {
    let mode = WindowMode::default();
    assert_eq!(
        mode,
        WindowMode {
            size: Extent { width: 1280, height: 720 },
            min_size: Extent { width: 640, height: 360 },
            maximized: false,
            fps_limit: FpsLimit::Vsync,
            borderless: false,
            fullscreen: false,
            resizable: true,
            cursor_visible: true,
            visible: true,
            transparent: false,
        }
    );
    let sized = WindowMode::new(320, 240);
    assert_eq!(sized.actual_size(), Extent::new(320, 240));
    assert_eq!(WindowMode { size: mode.size, ..sized }, mode);
}

#[test]
fn configuration_setters_change_one_setting() {
    let mut conf = Configuration::new("SPE", "Delfi");
    assert_eq!(conf.window_mode, WindowMode::default());
    conf.set_cursor_visible(false);
    conf.set_size(Extent::new(100, 50));
    conf.set_min_size(Extent::new(10, 5));
    assert_eq!(
        conf.window_mode,
        WindowMode {
            cursor_visible: false,
            size: Extent::new(100, 50),
            min_size: Extent::new(10, 5),
            ..WindowMode::default()
        }
    );
    assert_eq!(conf.window_setup.title, "SPE");
}

#[test]
fn builder_collects_settings() {
    let conf = ContextBuilder::new("SPE", "Delfi")
        .with_min_size(Extent::new(200, 100))
        .with_cursor_visible(false)
        .with_size(Extent::new(1920, 1080))
        .with_visible(false)
        .with_transparent(true)
        .with_fps_limit(FpsLimit::Inf)
        .with_resizable(false)
        .build();
    assert_eq!(conf.window_setup.title, "SPE");
    assert_eq!(conf.window_setup.author, "Delfi");
    assert_eq!(
        conf.window_mode,
        WindowMode {
            size: Extent::new(1920, 1080),
            min_size: Extent::new(200, 100),
            maximized: false,
            fps_limit: FpsLimit::Inf,
            borderless: false,
            fullscreen: false,
            resizable: false,
            cursor_visible: false,
            visible: false,
            transparent: true,
        }
    );
    let plain = ContextBuilder::new("a", "b").build();
    assert_eq!(plain.window_mode, WindowMode::default());
}
