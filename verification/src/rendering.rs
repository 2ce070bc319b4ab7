//! What an engine decides while it shows a user interface.
//!
//! The engine itself owns a window and waits for the window system, which no
//! contract can speak of. What it decides is here: which window event ends the
//! loop, what a window event means to the components, when a frame is drawn,
//! and what is painted for each drawing step.

use crate::components::{Action, Component, DrawCommand, DrawOp, Event, Key, Renderer, KEY_ESCAPE};
use crate::geometry::{extent, extent_of};
use crate::state::{Model, ModelView};
use crate::themes::Theme;
use vstd::prelude::*;
use vstd::string::StringSliceAdditionalSpecFns;

verus! {

/// What the window system reports, as far as the engine reads it.
#[derive(Clone, Debug, PartialEq, Eq)]
pub enum WindowEvent {
    /// The window is to close.
    Quit,
    MouseButtonDown { x: i32, y: i32 },
    MouseMotion { x: i32, y: i32 },
    /// A key went down. Not every key has a code.
    KeyDown { keycode: Option<Key> },
    /// Anything else.
    Other,
}

/// Whether `event` ends the loop: a request to quit does, and so does the
/// escape key.
pub open spec fn quits(event: WindowEvent) -> bool {
    match event {
        WindowEvent::Quit => true,
        WindowEvent::KeyDown { keycode: Some(key) } => key.code == KEY_ESCAPE,
        _ => false,
    }
}

/// What `event` means to the components. An event that is neither a mouse
/// button, nor a mouse motion, nor a key with a code counts as a click at the
/// origin.
pub open spec fn converted(event: WindowEvent) -> Event {
    match event {
        WindowEvent::MouseButtonDown { x, y } => Event::Click { x, y },
        WindowEvent::MouseMotion { x, y } => Event::MouseMove { x, y },
        WindowEvent::KeyDown { keycode: Some(key) } => Event::KeyDown(key),
        _ => Event::Click { x: 0, y: 0 },
    }
}

/// Whether `event` ends the loop.
pub fn is_quit(event: &WindowEvent) -> (quit: bool)
    ensures
        quit == quits(*event),
{
    match event {
        WindowEvent::Quit => true,
        WindowEvent::KeyDown { keycode: Some(key) } => key.code == KEY_ESCAPE,
        _ => false,
    }
}

/// What `event` means to the components.
pub fn convert_event(event: &WindowEvent) -> (ui_event: Event)
    ensures
        ui_event == converted(*event),
{
    match event {
        WindowEvent::MouseButtonDown { x, y } => Event::Click { x: *x, y: *y },
        WindowEvent::MouseMotion { x, y } => Event::MouseMove { x: *x, y: *y },
        WindowEvent::KeyDown { keycode: Some(key) } => Event::KeyDown(
            Key { code: key.code, name: key.name.clone() },
        ),
        _ => Event::Click { x: 0, y: 0 },
    }
}

/// Takes one window event. An event that ends the loop changes nothing and
/// returns `false`. Any other event is shown to `root`, and the callbacks that
/// the components ask for are added to `actions`.
pub fn step(
    root: &Box<dyn Component>,
    model: &mut Model,
    event: &WindowEvent,
    actions: &mut Vec<Action>,
) -> (running: bool)
    requires
        root.fits(old(model)@.shape()),
    ensures
        running == !quits(*event),
        running ==> final(model)@ == root.updated(old(model)@, converted(*event)),
        running ==> final(actions)@ == old(actions)@ + root.emitted(old(model)@, converted(*event)),
        !running ==> final(model)@ == old(model)@ && final(actions)@ == old(actions)@,
        final(model)@.shape() == old(model)@.shape(),
{
    if is_quit(event) {
        false
    } else {
        let ui_event = convert_event(event);
        root.handle_event(model, &ui_event, actions);
        true
    }
}

/// The colour that a frame is cleared with.
pub const CLEAR_COLOR: (u8, u8, u8) = (255, 255, 255);

/// A frame: the colour that the window is cleared with, and what is drawn on it.
pub struct Frame {
    pub background: (u8, u8, u8),
    pub renderer: Renderer,
}

/// Draws a frame if one is due, and takes note that it was drawn.
///
/// A frame is due after a write to a cell of the model and after a request.
/// It is cleared with white and shows `root` with its corner at the origin.
/// Where none is due, nothing is drawn and nothing changes.
pub fn draw_frame(root: &Box<dyn Component>, model: &mut Model, theme: &Theme) -> (frame: Option<Frame>)
    requires
        root.fits(old(model)@.shape()),
    ensures
        frame is Some == old(model)@.redraw,
        final(model)@ == (ModelView { redraw: false, ..old(model)@ }),
        frame matches Some(drawn) ==> drawn.background == (255u8, 255u8, 255u8) && drawn.renderer@
            == root.drawn(old(model)@, 0, 0),
{
    if model.needs_redraw() {
        let mut renderer = Renderer::new();
        root.render(&mut renderer, model, theme, 0, 0);
        model.mark_drawn();
        assert(renderer@ =~= root.drawn(old(model)@, 0, 0));
        Some(Frame { background: CLEAR_COLOR, renderer })
    } else {
        None
    }
}

/// A rectangle filled with one colour: what a drawing surface is asked for.
#[derive(Clone, Copy, Debug, PartialEq, Eq)]
pub struct FilledRect {
    pub color: (u8, u8, u8),
    pub x: i32,
    pub y: i32,
    pub w: u32,
    pub h: u32,
}

/// The width in pixels that stands for a text of `bytes` bytes: 10 pixels for
/// each byte, of which the low 32 bits are kept.
pub open spec fn text_width(bytes: nat) -> nat {
    (bytes * 10) % 0x1_0000_0000
}

/// The length of `text` in bytes, as a string reports it.
pub open spec fn byte_len(text: Seq<char>) -> nat {
    (vstd::utf8::encode_utf8(text).len() as usize) as nat
}

/// The height in pixels that stands for a text.
pub const TEXT_HEIGHT: u32 = 20;

/// What is painted for `op` under `theme`.
///
/// A text is painted as a bar in the theme's text colour, 20 pixels high and
/// as wide as [`text_width`] says. A rectangle is painted in the theme's
/// secondary colour; a negative extent is empty.
pub open spec fn painted(op: DrawOp, theme: Theme) -> FilledRect {
    match op {
        DrawOp::Text { text, x, y } => FilledRect {
            color: theme.text_color,
            x: x as i32,
            y: y as i32,
            w: text_width(byte_len(text)) as u32,
            h: 20,
        },
        DrawOp::Rect { x, y, w, h } => FilledRect {
            color: theme.secondary_color,
            x: x as i32,
            y: y as i32,
            w: extent_of(w) as u32,
            h: extent_of(h) as u32,
        },
    }
}

/// What is painted for `command` under `theme`.
pub fn paint(command: &DrawCommand, theme: &Theme) -> (rect: FilledRect)
    ensures
        rect == painted(command@, *theme),
{
    match command {
        DrawCommand::Text { text, x, y } => {
            let bytes = text.as_str().len();
            let wide: u128 = (bytes as u128) * 10;
            FilledRect {
                color: theme.text_color,
                x: *x,
                y: *y,
                w: (wide % 0x1_0000_0000) as u32,
                h: TEXT_HEIGHT,
            }
        },
        DrawCommand::Rect { x, y, w, h } => FilledRect {
            color: theme.secondary_color,
            x: *x,
            y: *y,
            w: extent(*w),
            h: extent(*h),
        },
    }
}

} // verus!
