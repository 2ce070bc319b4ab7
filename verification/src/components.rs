//! Components: what a user interface is built from.
//!
//! A component draws itself into a [`Renderer`] at a position, and reacts to an
//! [`Event`] by changing the [`Model`] and by naming the callbacks that are to
//! run. The renderer records what was drawn and the action list records the
//! callbacks, so both are plain values that a contract can speak of; a backend
//! replays them.

pub mod containers;
pub mod modifiers;
pub mod widgets;

pub use self::containers::{Grid, HStack, Panel, VStack, Window};
pub use self::modifiers::{BackgroundModifier, ModifiedContent, PaddingModifier, ViewExt, ViewModifier};
pub use self::widgets::{Button, Divider, Image, Input, Label, MenuBar, Spacer, Text, Toggle};

use crate::state::{Model, ModelView, Shape};
use crate::themes::Theme;
use vstd::prelude::*;

verus! {

/// The name of a callback that the application registered.
#[derive(Clone, Copy, Debug, PartialEq, Eq, Structural)]
pub struct Callback {
    pub id: usize,
}

/// A callback that is to run, with its argument.
#[derive(Clone, Copy, Debug, PartialEq, Eq, Structural)]
pub enum Action {
    /// A button was clicked.
    Click { callback: Callback },
    /// A toggle was flipped; `is_on` is its new value.
    Toggle { callback: Callback, is_on: bool },
    /// An item of a menu bar was picked.
    Select { callback: Callback, index: usize },
}

/// A key of the keyboard: its code, and its name as the windowing backend gives it.
#[derive(Clone, Debug, PartialEq, Eq)]
pub struct Key {
    pub code: i32,
    pub name: String,
}

/// The code of the backspace key.
pub const KEY_BACKSPACE: i32 = 8;

/// The code of the escape key.
pub const KEY_ESCAPE: i32 = 27;

/// What the user did.
#[derive(Clone, Debug, PartialEq, Eq)]
pub enum Event {
    Click { x: i32, y: i32 },
    MouseMove { x: i32, y: i32 },
    KeyDown(Key),
    KeyPress(char),
    Drag { dx: i32, dy: i32 },
}

/// One drawing step.
#[derive(Clone, Debug, PartialEq, Eq)]
pub enum DrawCommand {
    Text { text: String, x: i32, y: i32 },
    Rect { x: i32, y: i32, w: i32, h: i32 },
}

/// A [`DrawCommand`] as plain values.
pub enum DrawOp {
    Text { text: Seq<char>, x: int, y: int },
    Rect { x: int, y: int, w: int, h: int },
}

impl View for DrawCommand {
    type V = DrawOp;

    open spec fn view(&self) -> DrawOp {
        match *self {
            DrawCommand::Text { text, x, y } => DrawOp::Text { text: text@, x: x as int, y: y as int },
            DrawCommand::Rect { x, y, w, h } => DrawOp::Rect {
                x: x as int,
                y: y as int,
                w: w as int,
                h: h as int,
            },
        }
    }
}

/// Records what components draw, in the order in which they draw it.
pub struct Renderer {
    pub commands: Vec<DrawCommand>,
}

impl View for Renderer {
    type V = Seq<DrawOp>;

    open spec fn view(&self) -> Seq<DrawOp> {
        self.commands@.map_values(|command: DrawCommand| command@)
    }
}

impl Renderer {
    /// A renderer that has drawn nothing.
    pub fn new() -> (renderer: Self)
        ensures
            renderer@ == Seq::<DrawOp>::empty(),
    {
        let renderer = Renderer { commands: Vec::new() };
        assert(renderer@ =~= Seq::<DrawOp>::empty());
        renderer
    }

    /// Draws `text` with its top left corner at (`x`, `y`).
    pub fn draw_text(&mut self, text: &str, x: i32, y: i32)
        ensures
            final(self)@ == old(self)@.push(DrawOp::Text { text: text@, x: x as int, y: y as int }),
    {
        let command = DrawCommand::Text { text: text.to_owned(), x, y };
        self.commands.push(command);
        assert(final(self)@ =~= old(self)@.push(command@));
    }

    /// Draws a rectangle of `w` by `h` pixels with its top left corner at (`x`, `y`).
    pub fn draw_rect(&mut self, x: i32, y: i32, w: i32, h: i32)
        ensures
            final(self)@ == old(self)@.push(
                DrawOp::Rect { x: x as int, y: y as int, w: w as int, h: h as int },
            ),
    {
        let command = DrawCommand::Rect { x, y, w, h };
        self.commands.push(command);
        assert(final(self)@ =~= old(self)@.push(command@));
    }
}

/// A part of a user interface.
pub trait Component {
    /// Whether every binding of this component names a cell of a model of this shape.
    spec fn fits(&self, shape: Shape) -> bool;

    /// What this component draws when its top left corner is at (`x`, `y`).
    spec fn drawn(&self, model: ModelView, x: int, y: int) -> Seq<DrawOp>;

    /// The model after this component has seen `event`.
    spec fn updated(&self, model: ModelView, event: Event) -> ModelView;

    /// The callbacks that this component asks for when it sees `event`.
    spec fn emitted(&self, model: ModelView, event: Event) -> Seq<Action>;

    /// Whether every binding of this component names a cell of `model`.
    fn is_bound(&self, model: &Model) -> (bound: bool)
        ensures
            bound == self.fits(model@.shape()),
    ;

    /// Draws this component with its top left corner at (`x`, `y`).
    fn render(&self, renderer: &mut Renderer, model: &Model, theme: &Theme, x: i32, y: i32)
        requires
            self.fits(model@.shape()),
        ensures
            final(renderer)@ == old(renderer)@ + self.drawn(model@, x as int, y as int),
    ;

    /// Shows `event` to this component. The callbacks it asks for are added to
    /// the end of `actions`.
    fn handle_event(&self, model: &mut Model, event: &Event, actions: &mut Vec<Action>)
        requires
            self.fits(old(model)@.shape()),
        ensures
            final(model)@ == self.updated(old(model)@, *event),
            final(model)@.shape() == old(model)@.shape(),
            final(actions)@ == old(actions)@ + self.emitted(old(model)@, *event),
    ;
}

} // verus!
