//! The decisions of the event loop: what each event of the window does to
//! the engine's state, and what the loop is to do next.
//!
//! The loop itself, the window and the callbacks of the application are the
//! caller's. The caller turns each event into a [`LoopEvent`], and carries
//! out the [`LoopAction`] that comes back.

use vstd::prelude::*;
use vstd::string::StringExecFns;
use crate::context::{ContextModel, PresentationContext};
use crate::frame::{AcquireError, AcquiredFrame};
use crate::input::{InputContext, InputModel, KeyState};
use crate::time::TimeContext;

verus! {

/// Scancode of the escape key.
pub const KEY_ESCAPE: u32 = 1;

/// Scancode of the left control key.
pub const KEY_LEFT_CONTROL: u32 = 29;

/// Scancode of the left shift key.
pub const KEY_LEFT_SHIFT: u32 = 42;

/// Scancode of the M key.
pub const KEY_M: u32 = 50;

/// Scancode of the F11 key.
pub const KEY_F11: u32 = 87;

/// What the keyboard shortcuts need to know of the window.
#[derive(Copy, Clone, Debug, PartialEq, Eq, Structural)]
pub struct WindowState {
    pub maximized: bool,
    pub fullscreen: bool,
}

/// What the keyboard shortcuts ask of the window and of the loop.
#[derive(Copy, Clone, Debug, PartialEq, Eq, Structural)]
pub struct InputCommands {
    /// Maximize the window, or restore it.
    pub set_maximized: Option<bool>,
    /// Take the whole screen without a border, or leave it.
    pub set_fullscreen: Option<bool>,
    /// Leave the event loop.
    pub exit: bool,
}

/// The shortcuts: left control with M toggles maximized, F11 toggles
/// fullscreen, escape with left shift leaves the loop.
pub open spec fn commands_for(input: InputModel, window: WindowState) -> InputCommands {
    InputCommands {
        set_maximized: if input.pressed.contains(KEY_LEFT_CONTROL) && input.just_pressed.contains(
            KEY_M,
        ) {
            Some(!window.maximized)
        } else {
            None
        },
        set_fullscreen: if input.just_pressed.contains(KEY_F11) {
            Some(!window.fullscreen)
        } else {
            None
        },
        exit: input.pressed.contains(KEY_ESCAPE) && input.pressed.contains(KEY_LEFT_SHIFT),
    }
}

/// Reads the keyboard shortcuts out of the input state, which then forgets
/// what went down and came up.
pub fn match_input(input: &mut InputContext, window: WindowState) -> (commands: InputCommands)
    ensures
        commands == commands_for(old(input)@, window),
        final(input)@ == old(input)@.updated(),
{
    let set_maximized = if input.is_key_pressed(KEY_LEFT_CONTROL) && input.is_key_just_pressed(
        KEY_M,
    ) {
        Some(!window.maximized)
    } else {
        None
    };
    let set_fullscreen = if input.is_key_just_pressed(KEY_F11) {
        Some(!window.fullscreen)
    } else {
        None
    };
    let keys: [u32; 2] = [KEY_ESCAPE, KEY_LEFT_SHIFT];
    let exit = input.is_keys_pressed(keys.as_slice());
    proof {
        assert(keys@[0] == KEY_ESCAPE && keys@[1] == KEY_LEFT_SHIFT);
    }
    input.update();
    InputCommands { set_maximized, set_fullscreen, exit }
}

/// An event of the window or of the loop, as far as the engine reads it.
#[derive(Copy, Clone, Debug, PartialEq, Eq, Structural)]
pub enum LoopEvent {
    /// The loop starts a new turn.
    Poll,
    CloseRequested,
    Resized,
    ScaleFactorChanged,
    KeyboardInput { scancode: Option<u32>, state: KeyState },
    RedrawRequested,
    LoopExiting,
    /// Any other event.
    Other,
}

/// What the loop does after an event.
#[derive(Copy, Clone, Debug, PartialEq, Eq, Structural)]
pub enum LoopAction {
    /// Nothing.
    Idle,
    /// Carry out the keyboard shortcuts and bring the window title up to date.
    Poll(InputCommands),
    /// Leave the event loop.
    Exit,
    /// Acquire an image and draw a frame.
    Redraw,
    /// Tell the application that the loop ends.
    Quit,
}

/// The state of the engine that the event loop works on.
#[derive(Debug)]
pub struct Context {
    pub title: String,
    pub author: String,
    pub input: InputContext,
    pub time: TimeContext,
    pub graphics: PresentationContext,
}

/// What the loop does after `event`.
pub open spec fn action_for(input: InputModel, window: WindowState, event: LoopEvent) -> LoopAction {
    match event {
        LoopEvent::Poll => LoopAction::Poll(commands_for(input, window)),
        LoopEvent::CloseRequested => LoopAction::Exit,
        LoopEvent::RedrawRequested => LoopAction::Redraw,
        LoopEvent::LoopExiting => LoopAction::Quit,
        _ => LoopAction::Idle,
    }
}

/// The keyboard state after `event`.
pub open spec fn input_after(input: InputModel, event: LoopEvent) -> InputModel {
    match event {
        LoopEvent::Poll => input.updated(),
        LoopEvent::KeyboardInput { scancode, state } => input.inserted(scancode, state),
        _ => input,
    }
}

/// The presentation context after `event`: a change of geometry or of scale
/// marks the chain outdated.
pub open spec fn graphics_after(graphics: ContextModel, event: LoopEvent) -> ContextModel {
    match event {
        LoopEvent::Resized => graphics.resized(),
        LoopEvent::ScaleFactorChanged => graphics.marked_outdated(),
        _ => graphics,
    }
}

impl Context {
    pub fn new(title: String, author: String, graphics: PresentationContext) -> (context: Context)
        ensures
            context.title == title,
            context.author == author,
            context.graphics == graphics,
            context.input@ == InputModel::initial(),
            context.time@ == crate::time::TimeModel::initial(),
    {
        Context { title, author, input: InputContext::new(), time: TimeContext::new(), graphics }
    }

    /// Takes one event in and says what the loop does next.
    pub fn match_event(&mut self, window: WindowState, event: LoopEvent) -> (action: LoopAction)
        ensures
            action == action_for(old(self).input@, window, event),
            final(self).input@ == input_after(old(self).input@, event),
            final(self).graphics@ == graphics_after(old(self).graphics@, event),
            final(self).graphics.graphics_device() == old(self).graphics.graphics_device(),
            final(self).graphics.command_queue() == old(self).graphics.command_queue(),
            final(self).time == old(self).time,
            final(self).title == old(self).title,
            final(self).author == old(self).author,
    {
        match event {
            LoopEvent::Poll => LoopAction::Poll(match_input(&mut self.input, window)),
            LoopEvent::CloseRequested => LoopAction::Exit,
            LoopEvent::Resized => {
                self.graphics.resize();
                LoopAction::Idle
            },
            LoopEvent::ScaleFactorChanged => {
                self.graphics.mark_outdated();
                LoopAction::Idle
            },
            LoopEvent::KeyboardInput { scancode, state } => {
                self.input.insert(scancode, state);
                LoopAction::Idle
            },
            LoopEvent::RedrawRequested => LoopAction::Redraw,
            LoopEvent::LoopExiting => LoopAction::Quit,
            LoopEvent::Other => LoopAction::Idle,
        }
    }
}

/// The character of a decimal digit.
pub open spec fn digit(d: nat) -> char {
    if d == 0 {
        '0'
    } else if d == 1 {
        '1'
    } else if d == 2 {
        '2'
    } else if d == 3 {
        '3'
    } else if d == 4 {
        '4'
    } else if d == 5 {
        '5'
    } else if d == 6 {
        '6'
    } else if d == 7 {
        '7'
    } else if d == 8 {
        '8'
    } else {
        '9'
    }
}

/// A number in decimal digits, without leading zeros.
pub open spec fn decimal(n: nat) -> Seq<char>
    decreases n,
{
    if n < 10 {
        seq![digit(n)]
    } else {
        decimal(n / 10).push(digit(n % 10))
    }
}

/// The title of the window: what the application is called, who wrote it,
/// and the frames per second.
pub open spec fn title_text(title: Seq<char>, author: Seq<char>, fps: u32) -> Seq<char> {
    title + " by ["@ + author + "]; Fps: "@ + decimal(fps as nat)
}

fn digit_str(d: u32) -> (s: &'static str)
    requires
        d < 10,
    ensures
        s@ == seq![digit(d as nat)],
{
    proof {
        reveal_strlit("0");
        reveal_strlit("1");
        reveal_strlit("2");
        reveal_strlit("3");
        reveal_strlit("4");
        reveal_strlit("5");
        reveal_strlit("6");
        reveal_strlit("7");
        reveal_strlit("8");
        reveal_strlit("9");
    }
    let s = if d == 0 {
        "0"
    } else if d == 1 {
        "1"
    } else if d == 2 {
        "2"
    } else if d == 3 {
        "3"
    } else if d == 4 {
        "4"
    } else if d == 5 {
        "5"
    } else if d == 6 {
        "6"
    } else if d == 7 {
        "7"
    } else if d == 8 {
        "8"
    } else {
        "9"
    };
    assert(s@ =~= seq![digit(d as nat)]);
    s
}

fn push_decimal(text: &mut String, n: u32)
    ensures
        final(text)@ == old(text)@ + decimal(n as nat),
    decreases n,
{
    if n >= 10 {
        push_decimal(text, n / 10);
    }
    text.append(digit_str(n % 10));
    proof {
        if n >= 10 {
            assert(old(text)@ + decimal((n / 10) as nat) + seq![digit((n % 10) as nat)] =~= old(
                text,
            )@ + decimal((n / 10) as nat).push(digit((n % 10) as nat)));
        }
    }
}

/// Writes the title of the window.
pub fn window_title(title: &str, author: &str, fps: u32) -> (text: String)
    ensures
        text@ == title_text(title@, author@, fps),
{
    let mut text = String::from_str(title);
    text.append(" by [");
    text.append(author);
    text.append("]; Fps: ");
    push_decimal(&mut text, fps);
    text
}

impl Context {
    /// The title that the window is to show now.
    pub fn update_title(&self) -> (text: String)
        ensures
            text@ == title_text(
                self.title@,
                self.author@,
                crate::time::fps_of(self.time@.average()) as u32,
            ),
    {
        window_title(self.title.as_str(), self.author.as_str(), self.time.average_fps())
    }
}

/// What the loop does with the result of an acquire.
#[derive(Copy, Clone, Debug, PartialEq, Eq, Structural)]
pub enum RedrawStep {
    /// Draw and present the frame.
    Draw(AcquiredFrame),
    /// Ask for another redraw and try again then.
    Retry,
    /// Give up: the error is final.
    Abort(AcquireError),
}

/// A frame is drawn, a recoverable error retried, any other error final.
pub open spec fn redraw_step(acquired: Result<AcquiredFrame, AcquireError>) -> RedrawStep {
    match acquired {
        Ok(frame) => RedrawStep::Draw(frame),
        Err(e) => if e.recoverable() {
            RedrawStep::Retry
        } else {
            RedrawStep::Abort(e)
        },
    }
}

/// Says what the loop does with the result of an acquire.
pub fn after_acquire(acquired: Result<AcquiredFrame, AcquireError>) -> (step: RedrawStep)
    ensures
        step == redraw_step(acquired),
{
    match acquired {
        Ok(frame) => RedrawStep::Draw(frame),
        Err(e) => if e.is_recoverable() {
            RedrawStep::Retry
        } else {
            RedrawStep::Abort(e)
        },
    }
}

} // verus!
