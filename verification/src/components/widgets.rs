//! Components without children.

use crate::components::{Action, Callback, Component, DrawOp, Event, Key, Renderer, KEY_BACKSPACE};
use crate::geometry::{clamp, offset, plus};
use crate::state::{Binding, Model, ModelView, Shape};
use crate::strings::{alphanumeric, whitespace};
use crate::themes::Theme;
use vstd::prelude::*;

verus! {

/// A line of text that shows the text of a cell.
pub struct Text {
    pub text: Binding<String>,
}

/// Another name for [`Text`].
pub type Label = Text;

impl Text {
    pub fn new(text: Binding<String>) -> (label: Self)
        ensures
            label.text == text,
    {
        Text { text }
    }
}

impl Component for Text {
    open spec fn fits(&self, shape: Shape) -> bool {
        self.text.slot() < shape.texts
    }

    /// The text of the cell, at the component's corner.
    open spec fn drawn(&self, model: ModelView, x: int, y: int) -> Seq<DrawOp> {
        seq![DrawOp::Text { text: model.texts[self.text.slot() as int], x, y }]
    }

    /// A text changes nothing.
    open spec fn updated(&self, model: ModelView, event: Event) -> ModelView {
        model
    }

    /// A text asks for nothing.
    open spec fn emitted(&self, model: ModelView, event: Event) -> Seq<Action> {
        Seq::empty()
    }

    fn is_bound(&self, model: &Model) -> (bound: bool) {
        self.text.index() < model.texts.len()
    }

    fn render(&self, renderer: &mut Renderer, model: &Model, theme: &Theme, x: i32, y: i32) {
        let text = model.read_text(&self.text);
        renderer.draw_text(text.as_str(), x, y);
        assert(final(renderer)@ =~= old(renderer)@ + self.drawn(model@, x as int, y as int));
    }

    fn handle_event(&self, model: &mut Model, event: &Event, actions: &mut Vec<Action>) {
        assert(final(actions)@ =~= old(actions)@ + self.emitted(old(model)@, *event));
    }
}

/// A button with a label, which asks for its callback when it sees a click.
pub struct Button {
    pub label: String,
    pub on_click: Option<Callback>,
    pub padding: i32,
    pub border: i32,
}

impl Button {
    /// A button without a callback, with a padding of 5 pixels and a border of 1.
    pub fn new(label: String) -> (button: Self)
        ensures
            button == (Button { label, on_click: None, padding: 5, border: 1 }),
    {
        Button { label, on_click: None, padding: 5, border: 1 }
    }

    pub fn on_click(self, callback: Callback) -> (button: Self)
        ensures
            button == (Button { on_click: Some(callback), ..self }),
    {
        let mut button = self;
        button.on_click = Some(callback);
        button
    }

    pub fn padding(self, padding: i32) -> (button: Self)
        ensures
            button == (Button { padding, ..self }),
    {
        let mut button = self;
        button.padding = padding;
        button
    }

    pub fn border(self, border: i32) -> (button: Self)
        ensures
            button == (Button { border, ..self }),
    {
        let mut button = self;
        button.border = border;
        button
    }
}

impl Component for Button {
    open spec fn fits(&self, shape: Shape) -> bool {
        true
    }

    /// A rectangle of 100 by 30 pixels, then the label, moved in by the padding.
    open spec fn drawn(&self, model: ModelView, x: int, y: int) -> Seq<DrawOp> {
        seq![
            DrawOp::Rect { x, y, w: 100, h: 30 },
            DrawOp::Text {
                text: self.label@,
                x: plus(x, self.padding as int),
                y: plus(y, self.padding as int),
            },
        ]
    }

    /// A button changes nothing.
    open spec fn updated(&self, model: ModelView, event: Event) -> ModelView {
        model
    }

    /// Any click, wherever it falls, asks for the button's callback.
    open spec fn emitted(&self, model: ModelView, event: Event) -> Seq<Action> {
        match (event, self.on_click) {
            (Event::Click { .. }, Some(callback)) => seq![Action::Click { callback }],
            _ => Seq::empty(),
        }
    }

    fn is_bound(&self, model: &Model) -> (bound: bool) {
        true
    }

    fn render(&self, renderer: &mut Renderer, model: &Model, theme: &Theme, x: i32, y: i32) {
        renderer.draw_rect(x, y, 100, 30);
        renderer.draw_text(self.label.as_str(), offset(x, self.padding), offset(y, self.padding));
        assert(final(renderer)@ =~= old(renderer)@ + self.drawn(model@, x as int, y as int));
    }

    fn handle_event(&self, model: &mut Model, event: &Event, actions: &mut Vec<Action>) {
        if let Event::Click { .. } = event {
            if let Some(callback) = self.on_click {
                actions.push(Action::Click { callback });
            }
        }
        assert(final(actions)@ =~= old(actions)@ + self.emitted(old(model)@, *event));
    }
}

/// A switch that shows a boolean cell and flips it when it sees a click.
pub struct Toggle {
    pub is_on: Binding<bool>,
    pub on_toggle: Option<Callback>,
}

impl Toggle {
    pub fn new(is_on: Binding<bool>) -> (toggle: Self)
        ensures
            toggle == (Toggle { is_on, on_toggle: None }),
    {
        Toggle { is_on, on_toggle: None }
    }

    pub fn on_toggle(self, callback: Callback) -> (toggle: Self)
        ensures
            toggle == (Toggle { on_toggle: Some(callback), ..self }),
    {
        let mut toggle = self;
        toggle.on_toggle = Some(callback);
        toggle
    }
}

impl Component for Toggle {
    open spec fn fits(&self, shape: Shape) -> bool {
        self.is_on.slot() < shape.flags
    }

    /// The word ON or OFF, as the cell says.
    open spec fn drawn(&self, model: ModelView, x: int, y: int) -> Seq<DrawOp> {
        seq![
            DrawOp::Text {
                text: if model.flags[self.is_on.slot() as int] {
                    "ON"@
                } else {
                    "OFF"@
                },
                x,
                y,
            },
        ]
    }

    /// Any click flips the cell, and a frame is due for it.
    open spec fn updated(&self, model: ModelView, event: Event) -> ModelView {
        match event {
            Event::Click { .. } => model.with_flag(
                self.is_on.slot() as int,
                !model.flags[self.is_on.slot() as int],
            ).invalidated(),
            _ => model,
        }
    }

    /// A click asks for the toggle's callback, with the cell's new value.
    open spec fn emitted(&self, model: ModelView, event: Event) -> Seq<Action> {
        match (event, self.on_toggle) {
            (Event::Click { .. }, Some(callback)) => seq![
                Action::Toggle { callback, is_on: !model.flags[self.is_on.slot() as int] },
            ],
            _ => Seq::empty(),
        }
    }

    fn is_bound(&self, model: &Model) -> (bound: bool) {
        self.is_on.index() < model.flags.len()
    }

    fn render(&self, renderer: &mut Renderer, model: &Model, theme: &Theme, x: i32, y: i32) {
        let state = if model.read_flag(&self.is_on) {
            "ON"
        } else {
            "OFF"
        };
        renderer.draw_text(state, x, y);
        assert(final(renderer)@ =~= old(renderer)@ + self.drawn(model@, x as int, y as int));
    }

    fn handle_event(&self, model: &mut Model, event: &Event, actions: &mut Vec<Action>) {
        if let Event::Click { .. } = event {
            let current = model.read_flag(&self.is_on);
            model.write_flag(&self.is_on, !current);
            if let Some(callback) = self.on_toggle {
                actions.push(Action::Toggle { callback, is_on: !current });
            }
        }
        assert(final(actions)@ =~= old(actions)@ + self.emitted(old(model)@, *event));
    }
}

/// Two clicks leave the cells of a toggle's model as they were; what stays of
/// them is that a frame is due.
pub proof fn lemma_toggle_twice(toggle: Toggle, model: ModelView, first: Event, second: Event)
    requires
        toggle.fits(model.shape()),
        first is Click,
        second is Click,
    ensures
        toggle.updated(toggle.updated(model, first), second) == model.invalidated(),
{
    let once = toggle.updated(model, first);
    assert(toggle.updated(once, second).flags =~= model.flags);
}

/// A field that shows a text cell and edits it as keys go down.
pub struct Input {
    pub text: Binding<String>,
    pub placeholder: String,
}

/// What a key does to a text. `typed` is the first character of the key's
/// name, if it has one, and `accepted` says whether that character may be typed.
///
/// Backspace removes the last character, if there is one. Any other key adds
/// its character if it is accepted, and otherwise does nothing.
pub open spec fn edited(text: Seq<char>, backspace: bool, typed: Option<char>, accepted: bool) -> Seq<
    char,
> {
    if backspace {
        if text.len() > 0 {
            text.drop_last()
        } else {
            text
        }
    } else {
        match typed {
            Some(c) if accepted => text.push(c),
            _ => text,
        }
    }
}

/// The first character of a key's name, if the name has one.
pub open spec fn typed_by(key: Key) -> Option<char> {
    if key.name@.len() > 0 {
        Some(key.name@[0])
    } else {
        None
    }
}

/// Whether a field lets `c` be typed: letters, numbers and white space are.
pub open spec fn accepts(c: char) -> bool {
    alphanumeric(c) || whitespace(c)
}

/// Whether `key` makes a field write its cell: backspace does, even where
/// nothing is left to remove, and so does a key whose character is accepted.
pub open spec fn writes(key: Key) -> bool {
    key.code == KEY_BACKSPACE || (typed_by(key) matches Some(c) && accepts(c))
}

/// What `key` does to a text.
pub open spec fn edited_by(text: Seq<char>, key: Key) -> Seq<char> {
    edited(
        text,
        key.code == KEY_BACKSPACE,
        typed_by(key),
        typed_by(key) matches Some(c) && accepts(c),
    )
}

/// Backspace takes back a character that was typed.
pub proof fn lemma_backspace_undoes_typing(text: Seq<char>, c: char)
    ensures
        edited(edited(text, false, Some(c), true), true, None, false) == text,
{
    assert(text.push(c).drop_last() =~= text);
}

/// A key that is not backspace never makes a text shorter, and adds at most
/// one character.
pub proof fn lemma_typing_grows_by_at_most_one(text: Seq<char>, typed: Option<char>, accepted: bool)
    ensures
        text.len() <= edited(text, false, typed, accepted).len() <= text.len() + 1,
        edited(text, false, typed, accepted).subrange(0, text.len() as int) == text,
{
    assert(edited(text, false, typed, accepted).subrange(0, text.len() as int) =~= text);
}

/// Edits `text` as [`edited`] says.
pub fn apply_key(text: &mut String, backspace: bool, typed: Option<char>, accepted: bool)
    ensures
        final(text)@ == edited(old(text)@, backspace, typed, accepted),
{
    if backspace {
        text.pop();
    } else {
        if let Some(c) = typed {
            if accepted {
                text.push(c);
            }
        }
    }
}

/// The first character of the key's name, if the name has one.
pub fn first_char(key: &Key) -> (typed: Option<char>)
    ensures
        typed == typed_by(*key),
{
    let name = key.name.as_str();
    if name.is_empty() {
        None
    } else {
        Some(name.get_char(0))
    }
}

impl Input {
    pub fn new(text: Binding<String>, placeholder: String) -> (input: Self)
        ensures
            input == (Input { text, placeholder }),
    {
        Input { text, placeholder }
    }
}

impl Component for Input {
    open spec fn fits(&self, shape: Shape) -> bool {
        self.text.slot() < shape.texts
    }

    /// The text of the cell, or the placeholder while the cell is empty, then
    /// a frame of 200 by 25 pixels.
    open spec fn drawn(&self, model: ModelView, x: int, y: int) -> Seq<DrawOp> {
        let text = model.texts[self.text.slot() as int];
        seq![
            DrawOp::Text {
                text: if text.len() == 0 {
                    self.placeholder@
                } else {
                    text
                },
                x,
                y,
            },
            DrawOp::Rect { x, y, w: 200, h: 25 },
        ]
    }

    /// A key that goes down edits the cell. Where the key makes the field
    /// write, a frame is due; any other key changes nothing.
    open spec fn updated(&self, model: ModelView, event: Event) -> ModelView {
        match event {
            Event::KeyDown(key) if writes(key) => model.with_text(
                self.text.slot() as int,
                edited_by(model.texts[self.text.slot() as int], key),
            ).invalidated(),
            _ => model,
        }
    }

    /// A field asks for nothing.
    open spec fn emitted(&self, model: ModelView, event: Event) -> Seq<Action> {
        Seq::empty()
    }

    fn is_bound(&self, model: &Model) -> (bound: bool) {
        self.text.index() < model.texts.len()
    }

    fn render(&self, renderer: &mut Renderer, model: &Model, theme: &Theme, x: i32, y: i32) {
        let text = model.read_text(&self.text);
        if text.as_str().is_empty() {
            renderer.draw_text(self.placeholder.as_str(), x, y);
        } else {
            renderer.draw_text(text.as_str(), x, y);
        }
        renderer.draw_rect(x, y, 200, 25);
        assert(final(renderer)@ =~= old(renderer)@ + self.drawn(model@, x as int, y as int));
    }

    fn handle_event(&self, model: &mut Model, event: &Event, actions: &mut Vec<Action>) {
        match event {
            Event::KeyDown(key) => {
                let typed = first_char(key);
                let accepted = match typed {
                    Some(c) => c.is_alphanumeric() || c.is_whitespace(),
                    None => false,
                };
                let backspace = key.code == KEY_BACKSPACE;
                if backspace || accepted {
                    let mut current = model.read_text(&self.text);
                    apply_key(&mut current, backspace, typed, accepted);
                    model.write_text(&self.text, current);
                }
            },
            _ => {},
        }
        assert(final(actions)@ =~= old(actions)@ + self.emitted(old(model)@, *event));
    }
}

/// A row of menu titles, which asks for its callback with the index of the
/// title that a click falls on.
pub struct MenuBar {
    pub items: Vec<String>,
    pub on_select: Option<Callback>,
}

/// The width of a menu title in pixels.
pub const MENU_ITEM_WIDTH: i32 = 50;

/// The index of the menu title that a click at `x` falls on. The bar is taken
/// to start at 0, and a click to the left of it falls on the first title.
pub open spec fn menu_index(x: int) -> int {
    if x < 0 {
        0
    } else {
        x / 50
    }
}

impl MenuBar {
    pub fn new(items: Vec<String>) -> (bar: Self)
        ensures
            bar == (MenuBar { items, on_select: None }),
    {
        MenuBar { items, on_select: None }
    }

    pub fn on_select(self, callback: Callback) -> (bar: Self)
        ensures
            bar == (MenuBar { on_select: Some(callback), ..self }),
    {
        let mut bar = self;
        bar.on_select = Some(callback);
        bar
    }
}

impl Component for MenuBar {
    open spec fn fits(&self, shape: Shape) -> bool {
        true
    }

    /// The titles from left to right, 50 pixels apart.
    open spec fn drawn(&self, model: ModelView, x: int, y: int) -> Seq<DrawOp> {
        Seq::new(
            self.items@.len(),
            |i: int| DrawOp::Text { text: self.items@[i]@, x: clamp(x + i * 50), y },
        )
    }

    /// A menu bar changes nothing.
    open spec fn updated(&self, model: ModelView, event: Event) -> ModelView {
        model
    }

    /// A click on a title asks for the callback; a click past the last title
    /// asks for nothing.
    open spec fn emitted(&self, model: ModelView, event: Event) -> Seq<Action> {
        match (event, self.on_select) {
            (Event::Click { x, .. }, Some(callback)) if menu_index(x as int) < self.items@.len() => seq![
                Action::Select { callback, index: menu_index(x as int) as usize },
            ],
            _ => Seq::empty(),
        }
    }

    fn is_bound(&self, model: &Model) -> (bound: bool) {
        true
    }

    fn render(&self, renderer: &mut Renderer, model: &Model, theme: &Theme, x: i32, y: i32) {
        let mut current_x = x;
        let mut i: usize = 0;
        while i < self.items.len()
            invariant
                i <= self.items@.len(),
                current_x == clamp(x + i * 50),
                renderer@ == old(renderer)@ + Seq::new(
                    i as nat,
                    |i: int| DrawOp::Text { text: self.items@[i]@, x: clamp(x + i * 50), y: y as int },
                ),
            decreases self.items@.len() - i,
        {
            renderer.draw_text(self.items[i].as_str(), current_x, y);
            proof {
                crate::geometry::lemma_step_by_step(x as int, 50, i as nat);
                assert(renderer@ =~= old(renderer)@ + Seq::new(
                    (i + 1) as nat,
                    |i: int| DrawOp::Text { text: self.items@[i]@, x: clamp(x + i * 50), y: y as int },
                ));
            }
            current_x = offset(current_x, MENU_ITEM_WIDTH);
            i += 1;
        }
    }

    fn handle_event(&self, model: &mut Model, event: &Event, actions: &mut Vec<Action>) {
        if let Event::Click { x, .. } = event {
            let index: usize = if *x < 0 {
                0
            } else {
                (*x / MENU_ITEM_WIDTH) as usize
            };
            if index < self.items.len() {
                if let Some(callback) = self.on_select {
                    actions.push(Action::Select { callback, index });
                }
            }
        }
        assert(final(actions)@ =~= old(actions)@ + self.emitted(old(model)@, *event));
    }
}

/// Empty room between components.
pub struct Spacer {
    pub min_length: i32,
}

impl Spacer {
    /// A spacer of at least 10 pixels.
    pub fn new() -> (spacer: Self)
        ensures
            spacer.min_length == 10,
    {
        Spacer { min_length: 10 }
    }

    pub fn min_length(self, len: i32) -> (spacer: Self)
        ensures
            spacer.min_length == len,
    {
        Spacer { min_length: len }
    }
}

impl Component for Spacer {
    open spec fn fits(&self, shape: Shape) -> bool {
        true
    }

    /// A spacer draws nothing.
    open spec fn drawn(&self, model: ModelView, x: int, y: int) -> Seq<DrawOp> {
        Seq::empty()
    }

    /// A spacer changes nothing.
    open spec fn updated(&self, model: ModelView, event: Event) -> ModelView {
        model
    }

    /// A spacer asks for nothing.
    open spec fn emitted(&self, model: ModelView, event: Event) -> Seq<Action> {
        Seq::empty()
    }

    fn is_bound(&self, model: &Model) -> (bound: bool) {
        true
    }

    fn render(&self, renderer: &mut Renderer, model: &Model, theme: &Theme, x: i32, y: i32) {
        assert(final(renderer)@ =~= old(renderer)@ + self.drawn(model@, x as int, y as int));
    }

    fn handle_event(&self, model: &mut Model, event: &Event, actions: &mut Vec<Action>) {
        assert(final(actions)@ =~= old(actions)@ + self.emitted(old(model)@, *event));
    }
}

/// A horizontal line.
pub struct Divider {}

impl Divider {
    pub fn new() -> (divider: Self)
        ensures
            divider == (Divider {  }),
    {
        Divider {  }
    }
}

impl Component for Divider {
    open spec fn fits(&self, shape: Shape) -> bool {
        true
    }

    /// A line of 200 pixels, one pixel high.
    open spec fn drawn(&self, model: ModelView, x: int, y: int) -> Seq<DrawOp> {
        seq![DrawOp::Rect { x, y, w: 200, h: 1 }]
    }

    /// A divider changes nothing.
    open spec fn updated(&self, model: ModelView, event: Event) -> ModelView {
        model
    }

    /// A divider asks for nothing.
    open spec fn emitted(&self, model: ModelView, event: Event) -> Seq<Action> {
        Seq::empty()
    }

    fn is_bound(&self, model: &Model) -> (bound: bool) {
        true
    }

    fn render(&self, renderer: &mut Renderer, model: &Model, theme: &Theme, x: i32, y: i32) {
        renderer.draw_rect(x, y, 200, 1);
        assert(final(renderer)@ =~= old(renderer)@ + self.drawn(model@, x as int, y as int));
    }

    fn handle_event(&self, model: &mut Model, event: &Event, actions: &mut Vec<Action>) {
        assert(final(actions)@ =~= old(actions)@ + self.emitted(old(model)@, *event));
    }
}

/// The place of a picture.
pub struct Image {
    pub width: i32,
    pub height: i32,
}

impl Image {
    pub fn new(width: i32, height: i32) -> (image: Self)
        ensures
            image == (Image { width, height }),
    {
        Image { width, height }
    }
}

impl Component for Image {
    open spec fn fits(&self, shape: Shape) -> bool {
        true
    }

    /// A rectangle of the picture's size.
    open spec fn drawn(&self, model: ModelView, x: int, y: int) -> Seq<DrawOp> {
        seq![DrawOp::Rect { x, y, w: self.width as int, h: self.height as int }]
    }

    /// A picture changes nothing.
    open spec fn updated(&self, model: ModelView, event: Event) -> ModelView {
        model
    }

    /// A picture asks for nothing.
    open spec fn emitted(&self, model: ModelView, event: Event) -> Seq<Action> {
        Seq::empty()
    }

    fn is_bound(&self, model: &Model) -> (bound: bool) {
        true
    }

    fn render(&self, renderer: &mut Renderer, model: &Model, theme: &Theme, x: i32, y: i32) {
        renderer.draw_rect(x, y, self.width, self.height);
        assert(final(renderer)@ =~= old(renderer)@ + self.drawn(model@, x as int, y as int));
    }

    fn handle_event(&self, model: &mut Model, event: &Event, actions: &mut Vec<Action>) {
        assert(final(actions)@ =~= old(actions)@ + self.emitted(old(model)@, *event));
    }
}

} // verus!
