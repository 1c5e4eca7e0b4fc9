//! Window and frame-pacing configuration, and the builder that collects it.

use vstd::prelude::*;
use vstd::string::StringExecFns;
use crate::swapchain::{Extent, PresentMode};

verus! {

broadcast use vstd::string::group_string_axioms;

/// Frame-pacing policy requested by the application.
#[derive(Copy, Clone, Debug, PartialEq, Eq, Structural)]
pub enum FpsLimit {
    /// Present as fast as the device allows.
    Inf,
    /// Pace presentation to the display refresh.
    Vsync,
}

impl FpsLimit {
    /// The presentation mode that a limit asks for.
    pub open spec fn mode(self) -> PresentMode {
        match self {
            FpsLimit::Vsync => PresentMode::FifoRelaxed,
            FpsLimit::Inf => PresentMode::Mailbox,
        }
    }

    /// The limit that a presentation mode amounts to: the two queueing modes
    /// wait for the display, the others do not.
    pub open spec fn of_mode(mode: PresentMode) -> FpsLimit {
        match mode {
            PresentMode::Fifo => FpsLimit::Vsync,
            PresentMode::FifoRelaxed => FpsLimit::Vsync,
            PresentMode::Mailbox => FpsLimit::Inf,
            PresentMode::Immediate => FpsLimit::Inf,
        }
    }

    pub fn is_inf(&self) -> (b: bool)
        ensures
            b == (*self == FpsLimit::Inf),
    {
        *self == FpsLimit::Inf
    }

    pub fn is_vsync(&self) -> (b: bool)
        ensures
            b == (*self == FpsLimit::Vsync),
    {
        *self == FpsLimit::Vsync
    }

    pub fn present_mode(&self) -> (m: PresentMode)
        ensures
            m == self.mode(),
            FpsLimit::of_mode(m) == *self,
    {
        match self {
            FpsLimit::Vsync => PresentMode::FifoRelaxed,
            FpsLimit::Inf => PresentMode::Mailbox,
        }
    }

    pub fn from_present_mode(mode: PresentMode) -> (limit: FpsLimit)
        ensures
            limit == FpsLimit::of_mode(mode),
    {
        match mode {
            PresentMode::Fifo => FpsLimit::Vsync,
            PresentMode::FifoRelaxed => FpsLimit::Vsync,
            PresentMode::Mailbox => FpsLimit::Inf,
            PresentMode::Immediate => FpsLimit::Inf,
        }
    }
}

/// What names the window.
#[derive(Clone, Debug)]
pub struct WindowSetup {
    pub title: String,
    pub author: String,
    pub icon: String,
}

impl WindowSetup {
    pub fn new(title: &str, author: &str) -> (setup: WindowSetup)
        ensures
            setup.title@ == title@,
            setup.author@ == author@,
            setup.icon@ == Seq::<char>::empty(),
    {
        WindowSetup {
            title: String::from_str(title),
            author: String::from_str(author),
            icon: String::new(),
        }
    }
}

impl Default for WindowSetup {
    fn default() -> (setup: WindowSetup)
        ensures
            setup.title@ == "Engine"@,
            setup.author@ == "User"@,
            setup.icon@ == Seq::<char>::empty(),
    {
        WindowSetup::new("Engine", "User")
    }
}

/// How the window is shown.
#[derive(Copy, Clone, Debug, PartialEq, Eq, Structural)]
pub struct WindowMode {
    pub size: Extent,
    pub min_size: Extent,
    pub maximized: bool,
    pub fps_limit: FpsLimit,
    pub borderless: bool,
    pub fullscreen: bool,
    pub resizable: bool,
    pub cursor_visible: bool,
    pub visible: bool,
    pub transparent: bool,
}

impl WindowMode {
    /// A resizable, visible, opaque window of 1280 by 720 pixels that cannot
    /// become smaller than 640 by 360, paced to the display.
    pub open spec fn standard() -> WindowMode {
        WindowMode {
            size: Extent { width: 1280, height: 720 },
            min_size: Extent { width: 640, height: 360 },
            maximized: false,
            fps_limit: FpsLimit::Vsync,
            borderless: false,
            fullscreen: false,
            resizable: true,
            cursor_visible: true,
            visible: true,
            transparent: false,
        }
    }

    /// The standard mode at another size.
    pub fn new(width: u32, height: u32) -> (mode: WindowMode)
        ensures
            mode == (WindowMode { size: Extent { width, height }, ..WindowMode::standard() }),
    {
        let standard = WindowMode::default();
        WindowMode { size: Extent { width, height }, ..standard }
    }

    pub fn actual_size(&self) -> (size: Extent)
        ensures
            size == self.size,
    {
        self.size
    }
}

impl Default for WindowMode {
    fn default() -> (mode: WindowMode)
        ensures
            mode == WindowMode::standard(),
    {
        WindowMode {
            size: Extent { width: 1280, height: 720 },
            min_size: Extent { width: 640, height: 360 },
            maximized: false,
            fps_limit: FpsLimit::Vsync,
            borderless: false,
            fullscreen: false,
            resizable: true,
            cursor_visible: true,
            visible: true,
            transparent: false,
        }
    }
}

/// Everything that is settled before the window is opened.
#[derive(Clone, Debug)]
pub struct Configuration {
    pub window_setup: WindowSetup,
    pub window_mode: WindowMode,
}

impl Configuration {
    pub fn new(title: &str, author: &str) -> (conf: Configuration)
        ensures
            conf.window_setup.title@ == title@,
            conf.window_setup.author@ == author@,
            conf.window_setup.icon@ == Seq::<char>::empty(),
            conf.window_mode == WindowMode::standard(),
    {
        Configuration {
            window_setup: WindowSetup::new(title, author),
            window_mode: WindowMode::default(),
        }
    }

    pub fn set_cursor_visible(&mut self, visible: bool)
        ensures
            final(self).window_mode == (WindowMode {
                cursor_visible: visible,
                ..old(self).window_mode
            }),
            final(self).window_setup == old(self).window_setup,
    {
        self.window_mode.cursor_visible = visible;
    }

    pub fn set_size(&mut self, size: Extent)
        ensures
            final(self).window_mode == (WindowMode { size, ..old(self).window_mode }),
            final(self).window_setup == old(self).window_setup,
    {
        self.window_mode.size = size;
    }

    pub fn set_min_size(&mut self, size: Extent)
        ensures
            final(self).window_mode == (WindowMode { min_size: size, ..old(self).window_mode }),
            final(self).window_setup == old(self).window_setup,
    {
        self.window_mode.min_size = size;
    }
}

/// Collects a configuration, one setting at a time.
#[derive(Clone, Debug)]
pub struct ContextBuilder {
    conf: Configuration,
}

impl View for ContextBuilder {
    type V = Configuration;

    closed spec fn view(&self) -> Configuration {
        self.conf
    }
}

impl ContextBuilder {
    pub fn new(title: &str, author: &str) -> (builder: ContextBuilder)
        ensures
            builder@.window_setup.title@ == title@,
            builder@.window_setup.author@ == author@,
            builder@.window_setup.icon@ == Seq::<char>::empty(),
            builder@.window_mode == WindowMode::standard(),
    {
        ContextBuilder { conf: Configuration::new(title, author) }
    }

    pub fn with_min_size(self, size: Extent) -> (builder: ContextBuilder)
        ensures
            builder@.window_mode == (WindowMode { min_size: size, ..self@.window_mode }),
            builder@.window_setup == self@.window_setup,
    {
        let mut builder = self;
        builder.conf.set_min_size(size);
        builder
    }

    pub fn with_cursor_visible(self, visible: bool) -> (builder: ContextBuilder)
        ensures
            builder@.window_mode == (WindowMode { cursor_visible: visible, ..self@.window_mode }),
            builder@.window_setup == self@.window_setup,
    {
        let mut builder = self;
        builder.conf.set_cursor_visible(visible);
        builder
    }

    pub fn with_size(self, size: Extent) -> (builder: ContextBuilder)
        ensures
            builder@.window_mode == (WindowMode { size, ..self@.window_mode }),
            builder@.window_setup == self@.window_setup,
    {
        let mut builder = self;
        builder.conf.set_size(size);
        builder
    }

    pub fn with_visible(self, visible: bool) -> (builder: ContextBuilder)
        ensures
            builder@.window_mode == (WindowMode { visible, ..self@.window_mode }),
            builder@.window_setup == self@.window_setup,
    {
        let mut builder = self;
        builder.conf.window_mode.visible = visible;
        builder
    }

    pub fn with_transparent(self, transparent: bool) -> (builder: ContextBuilder)
        ensures
            builder@.window_mode == (WindowMode { transparent, ..self@.window_mode }),
            builder@.window_setup == self@.window_setup,
    {
        let mut builder = self;
        builder.conf.window_mode.transparent = transparent;
        builder
    }

    pub fn with_fps_limit(self, fps_limit: FpsLimit) -> (builder: ContextBuilder)
        ensures
            builder@.window_mode == (WindowMode { fps_limit, ..self@.window_mode }),
            builder@.window_setup == self@.window_setup,
    {
        let mut builder = self;
        builder.conf.window_mode.fps_limit = fps_limit;
        builder
    }

    pub fn with_resizable(self, resizable: bool) -> (builder: ContextBuilder)
        ensures
            builder@.window_mode == (WindowMode { resizable, ..self@.window_mode }),
            builder@.window_setup == self@.window_setup,
    {
        let mut builder = self;
        builder.conf.window_mode.resizable = resizable;
        builder
    }

    /// The configuration that was collected.
    pub fn build(self) -> (conf: Configuration)
        ensures
            conf == self@,
    {
        self.conf
    }
}

} // verus!
