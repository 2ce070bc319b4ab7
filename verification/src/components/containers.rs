//! Components that hold other components.
//!
//! A container shows an event to each of its children, in order, whatever the
//! event is and wherever it falls, and draws its children one after the other.
//!
//! A note for verified callers: box a child where it is handed over, as in
//! `stack.add_child(Box::new(child))`. A value that already is a
//! `Box<dyn Component>` is coerced once more when it is passed on, and Verus
//! knows nothing of what comes out of that second coercion.

use crate::components::{Action, Component, DrawOp, Event, Renderer};
use crate::geometry::{clamp, distance, lemma_step_by_step, minus, offset, plus, scaled, times};
use crate::state::{Model, ModelView, Shape};
use crate::themes::Theme;
use vstd::prelude::*;

verus! {

/// Whether each of `children` fits a model of this shape.
pub open spec fn all_fit(children: Seq<Box<dyn Component>>, shape: Shape) -> bool {
    forall|i: int| 0 <= i < children.len() ==> (#[trigger] children[i]).fits(shape)
}

/// What the first `count` of `children` draw when they are laid out in a
/// line: child `i` is drawn `i * dx` to the right of `x` and `i * dy` below
/// `y`, as far as the range of positions goes.
pub open spec fn drawn_line(
    children: Seq<Box<dyn Component>>,
    model: ModelView,
    x: int,
    y: int,
    dx: int,
    dy: int,
    count: nat,
) -> Seq<DrawOp>
    decreases count,
{
    if count == 0 {
        Seq::empty()
    } else {
        let i = count - 1;
        drawn_line(children, model, x, y, dx, dy, i as nat) + children[i].drawn(
            model,
            clamp(x + i * dx),
            clamp(y + i * dy),
        )
    }
}

/// The model after the first `count` of `children` have seen `event`, one
/// after the other.
pub open spec fn updated_by(
    children: Seq<Box<dyn Component>>,
    model: ModelView,
    event: Event,
    count: nat,
) -> ModelView
    decreases count,
{
    if count == 0 {
        model
    } else {
        children[count - 1].updated(updated_by(children, model, event, (count - 1) as nat), event)
    }
}

/// The callbacks that the first `count` of `children` ask for when they see
/// `event`, one after the other: each child sees the model as the children
/// before it left it.
pub open spec fn emitted_by(
    children: Seq<Box<dyn Component>>,
    model: ModelView,
    event: Event,
    count: nat,
) -> Seq<Action>
    decreases count,
{
    if count == 0 {
        Seq::empty()
    } else {
        emitted_by(children, model, event, (count - 1) as nat) + children[count - 1].emitted(
            updated_by(children, model, event, (count - 1) as nat),
            event,
        )
    }
}

/// Adds `item` at the end of `items`.
///
/// The item comes first, so that its type is settled before the vector's and a
/// boxed child is stored as it was handed in, with no coercion in between.
fn push_back<T>(item: T, items: &mut Vec<T>)
    ensures
        final(items)@ == old(items)@.push(item),
{
    items.push(item);
}

/// Whether each of `children` is bound in `model`.
pub fn all_bound(children: &Vec<Box<dyn Component>>, model: &Model) -> (bound: bool)
    ensures
        bound == all_fit(children@, model@.shape()),
{
    let mut i: usize = 0;
    while i < children.len()
        invariant
            i <= children@.len(),
            forall|j: int| 0 <= j < i ==> (#[trigger] children@[j]).fits(model@.shape()),
        decreases children@.len() - i,
    {
        if !children[i].is_bound(model) {
            return false;
        }
        i += 1;
    }
    true
}

/// Draws `children` in a line that starts at (`x`, `y`), and returns where the
/// next child would have been drawn.
pub fn render_line(
    children: &Vec<Box<dyn Component>>,
    renderer: &mut Renderer,
    model: &Model,
    theme: &Theme,
    x: i32,
    y: i32,
    dx: i32,
    dy: i32,
) -> (end: (i32, i32))
    requires
        all_fit(children@, model@.shape()),
    ensures
        final(renderer)@ == old(renderer)@ + drawn_line(
            children@,
            model@,
            x as int,
            y as int,
            dx as int,
            dy as int,
            children@.len(),
        ),
        end.0 == clamp(x + children@.len() * dx),
        end.1 == clamp(y + children@.len() * dy),
{
    let mut current_x = x;
    let mut current_y = y;
    let mut i: usize = 0;
    assert(renderer@ =~= old(renderer)@ + Seq::<DrawOp>::empty());
    while i < children.len()
        invariant
            i <= children@.len(),
            all_fit(children@, model@.shape()),
            current_x == clamp(x + i * dx),
            current_y == clamp(y + i * dy),
            renderer@ == old(renderer)@ + drawn_line(
                children@,
                model@,
                x as int,
                y as int,
                dx as int,
                dy as int,
                i as nat,
            ),
        decreases children@.len() - i,
    {
        children[i].render(renderer, model, theme, current_x, current_y);
        proof {
            lemma_step_by_step(x as int, dx as int, i as nat);
            lemma_step_by_step(y as int, dy as int, i as nat);
            assert(renderer@ =~= old(renderer)@ + drawn_line(
                children@,
                model@,
                x as int,
                y as int,
                dx as int,
                dy as int,
                (i + 1) as nat,
            ));
        }
        current_x = offset(current_x, dx);
        current_y = offset(current_y, dy);
        i += 1;
    }
    (current_x, current_y)
}

/// Shows `event` to each of `children`, in order.
pub fn dispatch(
    children: &Vec<Box<dyn Component>>,
    model: &mut Model,
    event: &Event,
    actions: &mut Vec<Action>,
)
    requires
        all_fit(children@, old(model)@.shape()),
    ensures
        final(model)@ == updated_by(children@, old(model)@, *event, children@.len()),
        final(model)@.shape() == old(model)@.shape(),
        final(actions)@ == old(actions)@ + emitted_by(children@, old(model)@, *event, children@.len()),
{
    let mut i: usize = 0;
    assert(actions@ =~= old(actions)@ + Seq::<Action>::empty());
    while i < children.len()
        invariant
            i <= children@.len(),
            all_fit(children@, model@.shape()),
            model@.shape() == old(model)@.shape(),
            model@ == updated_by(children@, old(model)@, *event, i as nat),
            actions@ == old(actions)@ + emitted_by(children@, old(model)@, *event, i as nat),
        decreases children@.len() - i,
    {
        children[i].handle_event(model, event, actions);
        assert(actions@ =~= old(actions)@ + emitted_by(
            children@,
            old(model)@,
            *event,
            (i + 1) as nat,
        ));
        i += 1;
    }
}

/// The root of a user interface: a titled window of a given size.
pub struct Window {
    pub title: String,
    pub width: u32,
    pub height: u32,
    pub children: Vec<Box<dyn Component>>,
}

/// How far below each other a window draws its children.
pub const WINDOW_ROW_HEIGHT: i32 = 50;

impl Window {
    /// A window without children.
    pub fn new(title: String, width: u32, height: u32) -> (window: Self)
        ensures
            window.title == title,
            window.width == width,
            window.height == height,
            window.children@ == Seq::<Box<dyn Component>>::empty(),
    {
        Window { title, width, height, children: Vec::new() }
    }

    /// Adds `child` after the children that the window has.
    pub fn add_child(&mut self, child: Box<dyn Component>)
        ensures
            final(self).children@.len() == old(self).children@.len() + 1,
            final(self).children@.last() == child,
            final(self).children@.drop_last() == old(self).children@,
            final(self).title == old(self).title,
            final(self).width == old(self).width,
            final(self).height == old(self).height,
    {
        push_back(child, &mut self.children);
    }
}

impl Component for Window {
    open spec fn fits(&self, shape: Shape) -> bool {
        all_fit(self.children@, shape)
    }

    /// The children below each other, 50 pixels apart, the first at the
    /// window's corner.
    open spec fn drawn(&self, model: ModelView, x: int, y: int) -> Seq<DrawOp> {
        drawn_line(self.children@, model, x, y, 0, 50, self.children@.len())
    }

    open spec fn updated(&self, model: ModelView, event: Event) -> ModelView {
        updated_by(self.children@, model, event, self.children@.len())
    }

    open spec fn emitted(&self, model: ModelView, event: Event) -> Seq<Action> {
        emitted_by(self.children@, model, event, self.children@.len())
    }

    fn is_bound(&self, model: &Model) -> (bound: bool) {
        all_bound(&self.children, model)
    }

    fn render(&self, renderer: &mut Renderer, model: &Model, theme: &Theme, x: i32, y: i32) {
        render_line(&self.children, renderer, model, theme, x, y, 0, WINDOW_ROW_HEIGHT);
    }

    fn handle_event(&self, model: &mut Model, event: &Event, actions: &mut Vec<Action>) {
        dispatch(&self.children, model, event, actions);
    }
}

/// A column of components.
pub struct VStack {
    pub children: Vec<Box<dyn Component>>,
    pub spacing: i32,
    pub padding: i32,
    pub border: i32,
}

/// The height that a column gives each child.
pub const ROW_HEIGHT: i32 = 30;

/// The width that a row gives each child.
pub const COLUMN_WIDTH: i32 = 100;

/// The width of the frame of a column.
pub const FRAME_WIDTH: i32 = 200;

impl VStack {
    /// A column without children, padding or border.
    pub fn new(spacing: i32) -> (stack: Self)
        ensures
            stack.children@ == Seq::<Box<dyn Component>>::empty(),
            stack.spacing == spacing,
            stack.padding == 0,
            stack.border == 0,
    {
        VStack { children: Vec::new(), spacing, padding: 0, border: 0 }
    }

    pub fn padding(self, padding: i32) -> (stack: Self)
        ensures
            stack == (VStack { padding, ..self }),
    {
        let mut stack = self;
        stack.padding = padding;
        stack
    }

    pub fn border(self, border: i32) -> (stack: Self)
        ensures
            stack == (VStack { border, ..self }),
    {
        let mut stack = self;
        stack.border = border;
        stack
    }

    /// Adds `child` below the children that the column has.
    pub fn add_child(&mut self, child: Box<dyn Component>)
        ensures
            final(self).children@.len() == old(self).children@.len() + 1,
            final(self).children@.last() == child,
            final(self).children@.drop_last() == old(self).children@,
            final(self).spacing == old(self).spacing,
            final(self).padding == old(self).padding,
            final(self).border == old(self).border,
    {
        push_back(child, &mut self.children);
    }

    /// Where the first child is drawn, from top.
    pub open spec fn top(&self, y: int) -> int {
        plus(plus(y, self.padding as int), self.border as int)
    }

    /// How far below each other the children are drawn.
    pub open spec fn step(&self) -> int {
        plus(30, self.spacing as int)
    }
}

impl Component for VStack {
    open spec fn fits(&self, shape: Shape) -> bool {
        all_fit(self.children@, shape)
    }

    /// The children below each other, moved in by the padding, the first one
    /// below the padding and the border. Then, if the column has a border, a
    /// frame of 200 pixels from the column's corner down to where the next
    /// child would go.
    open spec fn drawn(&self, model: ModelView, x: int, y: int) -> Seq<DrawOp> {
        let count = self.children@.len();
        drawn_line(
            self.children@,
            model,
            plus(x, self.padding as int),
            self.top(y),
            0,
            self.step(),
            count,
        ) + if self.border > 0 {
            seq![
                DrawOp::Rect {
                    x,
                    y,
                    w: 200,
                    h: minus(clamp(self.top(y) + count * self.step()), y),
                },
            ]
        } else {
            Seq::empty()
        }
    }

    open spec fn updated(&self, model: ModelView, event: Event) -> ModelView {
        updated_by(self.children@, model, event, self.children@.len())
    }

    open spec fn emitted(&self, model: ModelView, event: Event) -> Seq<Action> {
        emitted_by(self.children@, model, event, self.children@.len())
    }

    fn is_bound(&self, model: &Model) -> (bound: bool) {
        all_bound(&self.children, model)
    }

    fn render(&self, renderer: &mut Renderer, model: &Model, theme: &Theme, x: i32, y: i32) {
        let top = offset(offset(y, self.padding), self.border);
        let step = offset(ROW_HEIGHT, self.spacing);
        let end = render_line(
            &self.children,
            renderer,
            model,
            theme,
            offset(x, self.padding),
            top,
            0,
            step,
        );
        if self.border > 0 {
            renderer.draw_rect(x, y, FRAME_WIDTH, distance(end.1, y));
        }
        assert(final(renderer)@ =~= old(renderer)@ + self.drawn(model@, x as int, y as int));
    }

    fn handle_event(&self, model: &mut Model, event: &Event, actions: &mut Vec<Action>) {
        dispatch(&self.children, model, event, actions);
    }
}

/// A row of components.
pub struct HStack {
    pub children: Vec<Box<dyn Component>>,
    pub spacing: i32,
    pub padding: i32,
    pub border: i32,
}

impl HStack {
    /// A row without children, padding or border.
    pub fn new(spacing: i32) -> (stack: Self)
        ensures
            stack.children@ == Seq::<Box<dyn Component>>::empty(),
            stack.spacing == spacing,
            stack.padding == 0,
            stack.border == 0,
    {
        HStack { children: Vec::new(), spacing, padding: 0, border: 0 }
    }

    pub fn padding(self, padding: i32) -> (stack: Self)
        ensures
            stack == (HStack { padding, ..self }),
    {
        let mut stack = self;
        stack.padding = padding;
        stack
    }

    pub fn border(self, border: i32) -> (stack: Self)
        ensures
            stack == (HStack { border, ..self }),
    {
        let mut stack = self;
        stack.border = border;
        stack
    }

    /// Adds `child` to the right of the children that the row has.
    pub fn add_child(&mut self, child: Box<dyn Component>)
        ensures
            final(self).children@.len() == old(self).children@.len() + 1,
            final(self).children@.last() == child,
            final(self).children@.drop_last() == old(self).children@,
            final(self).spacing == old(self).spacing,
            final(self).padding == old(self).padding,
            final(self).border == old(self).border,
    {
        push_back(child, &mut self.children);
    }
}

impl Component for HStack {
    open spec fn fits(&self, shape: Shape) -> bool {
        all_fit(self.children@, shape)
    }

    /// The children side by side, moved down by the padding, the first one to
    /// the right of the padding and the border, each next one 100 pixels and
    /// the spacing further right. A row draws no frame.
    open spec fn drawn(&self, model: ModelView, x: int, y: int) -> Seq<DrawOp> {
        drawn_line(
            self.children@,
            model,
            plus(plus(x, self.padding as int), self.border as int),
            plus(y, self.padding as int),
            plus(100, self.spacing as int),
            0,
            self.children@.len(),
        )
    }

    open spec fn updated(&self, model: ModelView, event: Event) -> ModelView {
        updated_by(self.children@, model, event, self.children@.len())
    }

    open spec fn emitted(&self, model: ModelView, event: Event) -> Seq<Action> {
        emitted_by(self.children@, model, event, self.children@.len())
    }

    fn is_bound(&self, model: &Model) -> (bound: bool) {
        all_bound(&self.children, model)
    }

    fn render(&self, renderer: &mut Renderer, model: &Model, theme: &Theme, x: i32, y: i32) {
        let left = offset(offset(x, self.padding), self.border);
        let step = offset(COLUMN_WIDTH, self.spacing);
        render_line(
            &self.children,
            renderer,
            model,
            theme,
            left,
            offset(y, self.padding),
            step,
            0,
        );
    }

    fn handle_event(&self, model: &mut Model, event: &Event, actions: &mut Vec<Action>) {
        dispatch(&self.children, model, event, actions);
    }
}

/// A framed box around at most one component.
pub struct Panel {
    pub child: Option<Box<dyn Component>>,
    pub border_width: i32,
    pub padding: i32,
}

/// The width and the height of the frame of a panel.
pub const PANEL_SIZE: i32 = 200;

impl Panel {
    /// A panel without a child.
    pub fn new(border_width: i32, padding: i32) -> (panel: Self)
        ensures
            panel.child is None,
            panel.border_width == border_width,
            panel.padding == padding,
    {
        Panel { child: None, border_width, padding }
    }

    /// Puts `child` into the panel, in place of the child that it had.
    pub fn child(self, child: Box<dyn Component>) -> (panel: Self)
        ensures
            panel.child == Some(child),
            panel.border_width == self.border_width,
            panel.padding == self.padding,
    {
        let cell = Some(child);
        Panel { child: cell, border_width: self.border_width, padding: self.padding }
    }
}

impl Component for Panel {
    open spec fn fits(&self, shape: Shape) -> bool {
        match self.child {
            Some(child) => child.fits(shape),
            None => true,
        }
    }

    /// A frame of 200 by 200 pixels, then the child, moved in by the padding.
    open spec fn drawn(&self, model: ModelView, x: int, y: int) -> Seq<DrawOp> {
        seq![DrawOp::Rect { x, y, w: 200, h: 200 }] + match self.child {
            Some(child) => child.drawn(
                model,
                plus(x, self.padding as int),
                plus(y, self.padding as int),
            ),
            None => Seq::empty(),
        }
    }

    open spec fn updated(&self, model: ModelView, event: Event) -> ModelView {
        match self.child {
            Some(child) => child.updated(model, event),
            None => model,
        }
    }

    open spec fn emitted(&self, model: ModelView, event: Event) -> Seq<Action> {
        match self.child {
            Some(child) => child.emitted(model, event),
            None => Seq::empty(),
        }
    }

    fn is_bound(&self, model: &Model) -> (bound: bool) {
        match &self.child {
            Some(child) => child.is_bound(model),
            None => true,
        }
    }

    fn render(&self, renderer: &mut Renderer, model: &Model, theme: &Theme, x: i32, y: i32) {
        renderer.draw_rect(x, y, PANEL_SIZE, PANEL_SIZE);
        if let Some(child) = &self.child {
            child.render(renderer, model, theme, offset(x, self.padding), offset(y, self.padding));
        }
        assert(final(renderer)@ =~= old(renderer)@ + self.drawn(model@, x as int, y as int));
    }

    fn handle_event(&self, model: &mut Model, event: &Event, actions: &mut Vec<Action>) {
        if let Some(child) = &self.child {
            child.handle_event(model, event, actions);
        }
        assert(final(actions)@ =~= old(actions)@ + self.emitted(old(model)@, *event));
    }
}

/// One place of a grid: a component, or nothing.
pub type Cell = Option<Box<dyn Component>>;

/// A table of components.
pub struct Grid {
    pub children: Vec<Vec<Cell>>,
    pub rows: usize,
    pub cols: usize,
    pub spacing: i32,
}

/// Whether the cell fits a model of this shape; an empty cell does.
pub open spec fn cell_fits(cell: Cell, shape: Shape) -> bool {
    match cell {
        Some(child) => child.fits(shape),
        None => true,
    }
}

/// Whether each cell of `row` fits a model of this shape.
pub open spec fn row_fits(row: Seq<Cell>, shape: Shape) -> bool {
    forall|c: int| 0 <= c < row.len() ==> cell_fits(#[trigger] row[c], shape)
}

/// Whether each cell of `rows` fits a model of this shape.
pub open spec fn rows_fit(rows: Seq<Vec<Cell>>, shape: Shape) -> bool {
    forall|r: int| 0 <= r < rows.len() ==> row_fits((#[trigger] rows[r])@, shape)
}

/// What the first `count` cells of `row` draw: the cell in column `c` is
/// `c * dx` pixels to the right of `x`, and an empty cell draws nothing.
pub open spec fn drawn_cells(row: Seq<Cell>, model: ModelView, x: int, y: int, dx: int, count: nat) -> Seq<
    DrawOp,
>
    decreases count,
{
    if count == 0 {
        Seq::empty()
    } else {
        let c = count - 1;
        drawn_cells(row, model, x, y, dx, c as nat) + match row[c] {
            Some(child) => child.drawn(model, plus(x, times(c, dx)), y),
            None => Seq::empty(),
        }
    }
}

/// What the first `count` of `rows` draw: row `r` is `r * dy` pixels below `y`.
pub open spec fn drawn_rows(
    rows: Seq<Vec<Cell>>,
    model: ModelView,
    x: int,
    y: int,
    dx: int,
    dy: int,
    count: nat,
) -> Seq<DrawOp>
    decreases count,
{
    if count == 0 {
        Seq::empty()
    } else {
        let r = count - 1;
        drawn_rows(rows, model, x, y, dx, dy, r as nat) + drawn_cells(
            rows[r]@,
            model,
            x,
            plus(y, times(r, dy)),
            dx,
            rows[r]@.len(),
        )
    }
}

/// The model after the first `count` cells of `row` have seen `event`.
pub open spec fn updated_by_cells(row: Seq<Cell>, model: ModelView, event: Event, count: nat) -> ModelView
    decreases count,
{
    if count == 0 {
        model
    } else {
        let before = updated_by_cells(row, model, event, (count - 1) as nat);
        match row[count - 1] {
            Some(child) => child.updated(before, event),
            None => before,
        }
    }
}

/// The callbacks that the first `count` cells of `row` ask for when they see `event`.
pub open spec fn emitted_by_cells(row: Seq<Cell>, model: ModelView, event: Event, count: nat) -> Seq<
    Action,
>
    decreases count,
{
    if count == 0 {
        Seq::empty()
    } else {
        let before = updated_by_cells(row, model, event, (count - 1) as nat);
        emitted_by_cells(row, model, event, (count - 1) as nat) + match row[count - 1] {
            Some(child) => child.emitted(before, event),
            None => Seq::empty(),
        }
    }
}

/// The model after the first `count` of `rows` have seen `event`, row by row.
pub open spec fn updated_by_rows(rows: Seq<Vec<Cell>>, model: ModelView, event: Event, count: nat) -> ModelView
    decreases count,
{
    if count == 0 {
        model
    } else {
        updated_by_cells(
            rows[count - 1]@,
            updated_by_rows(rows, model, event, (count - 1) as nat),
            event,
            rows[count - 1]@.len(),
        )
    }
}

/// The callbacks that the first `count` of `rows` ask for when they see `event`.
pub open spec fn emitted_by_rows(rows: Seq<Vec<Cell>>, model: ModelView, event: Event, count: nat) -> Seq<
    Action,
>
    decreases count,
{
    if count == 0 {
        Seq::empty()
    } else {
        emitted_by_rows(rows, model, event, (count - 1) as nat) + emitted_by_cells(
            rows[count - 1]@,
            updated_by_rows(rows, model, event, (count - 1) as nat),
            event,
            rows[count - 1]@.len(),
        )
    }
}

/// A row of `cols` empty cells.
fn empty_row(cols: usize) -> (row: Vec<Cell>)
    ensures
        row@.len() == cols,
        forall|c: int| 0 <= c < cols ==> (#[trigger] row@[c]) is None,
{
    let mut row: Vec<Cell> = Vec::new();
    let mut c: usize = 0;
    while c < cols
        invariant
            c <= cols,
            row@.len() == c,
            forall|j: int| 0 <= j < c ==> (#[trigger] row@[j]) is None,
        decreases cols - c,
    {
        row.push(None);
        c += 1;
    }
    row
}

impl Grid {
    /// Whether the table has `rows` rows of `cols` cells each.
    pub open spec fn wf(&self) -> bool {
        &&& self.children@.len() == self.rows
        &&& forall|r: int| 0 <= r < self.rows ==> (#[trigger] self.children@[r])@.len() == self.cols
    }

    /// The cell in row `row` and column `col`.
    pub open spec fn cell(&self, row: int, col: int) -> Cell {
        self.children@[row]@[col]
    }

    /// Whether the table has `rows` rows of `cols` cells each.
    pub fn is_well_formed(&self) -> (well_formed: bool)
        ensures
            well_formed == self.wf(),
    {
        if self.children.len() != self.rows {
            return false;
        }
        let mut r: usize = 0;
        while r < self.rows
            invariant
                r <= self.rows,
                self.children@.len() == self.rows,
                forall|i: int| 0 <= i < r ==> (#[trigger] self.children@[i])@.len() == self.cols,
            decreases self.rows - r,
        {
            if self.children[r].len() != self.cols {
                return false;
            }
            r += 1;
        }
        true
    }

    /// A table of `rows` by `cols` empty cells.
    pub fn new(rows: usize, cols: usize, spacing: i32) -> (grid: Self)
        ensures
            grid.wf(),
            grid.rows == rows,
            grid.cols == cols,
            grid.spacing == spacing,
            forall|r: int, c: int| 0 <= r < rows && 0 <= c < cols ==> (#[trigger] grid.cell(r, c)) is None,
    {
        let mut children: Vec<Vec<Cell>> = Vec::new();
        let mut r: usize = 0;
        while r < rows
            invariant
                r <= rows,
                children@.len() == r,
                forall|i: int| 0 <= i < r ==> (#[trigger] children@[i])@.len() == cols,
                forall|i: int, c: int|
                    0 <= i < r && 0 <= c < cols ==> (#[trigger] children@[i]@[c]) is None,
            decreases rows - r,
        {
            let row = empty_row(cols);
            children.push(row);
            r += 1;
        }
        Grid { children, rows, cols, spacing }
    }

    /// Puts `child` into the cell in row `row` and column `col`, in place of
    /// what the cell held. Outside the table nothing is changed.
    pub fn set_child(&mut self, row: usize, col: usize, child: Box<dyn Component>)
        requires
            old(self).wf(),
        ensures
            final(self).wf(),
            final(self).rows == old(self).rows,
            final(self).cols == old(self).cols,
            final(self).spacing == old(self).spacing,
            row < old(self).rows && col < old(self).cols ==> final(self).cell(row as int, col as int)
                == Some(child),
            forall|r: int, c: int|
                0 <= r < old(self).rows && 0 <= c < old(self).cols && !(r == row && c == col)
                    ==> #[trigger] final(self).cell(r, c) == old(self).cell(r, c),
    {
        if row < self.rows && col < self.cols {
            let cell = Some(child);
            self.children[row][col] = cell;
        }
    }
}

/// Whether each cell of `row` is bound in `model`.
fn cells_bound(row: &Vec<Cell>, model: &Model) -> (bound: bool)
    ensures
        bound == row_fits(row@, model@.shape()),
{
    let mut c: usize = 0;
    while c < row.len()
        invariant
            c <= row@.len(),
            forall|j: int| 0 <= j < c ==> cell_fits(#[trigger] row@[j], model@.shape()),
        decreases row@.len() - c,
    {
        if let Some(child) = &row[c] {
            if !child.is_bound(model) {
                assert(!cell_fits(row@[c as int], model@.shape()));
                return false;
            }
        }
        c += 1;
    }
    true
}

/// Draws the cells of `row`, the first at (`x`, `y`).
fn render_cells(
    row: &Vec<Cell>,
    renderer: &mut Renderer,
    model: &Model,
    theme: &Theme,
    x: i32,
    y: i32,
    dx: i32,
)
    requires
        row_fits(row@, model@.shape()),
    ensures
        final(renderer)@ == old(renderer)@ + drawn_cells(
            row@,
            model@,
            x as int,
            y as int,
            dx as int,
            row@.len(),
        ),
{
    let mut c: usize = 0;
    assert(renderer@ =~= old(renderer)@ + Seq::<DrawOp>::empty());
    while c < row.len()
        invariant
            c <= row@.len(),
            row_fits(row@, model@.shape()),
            renderer@ == old(renderer)@ + drawn_cells(
                row@,
                model@,
                x as int,
                y as int,
                dx as int,
                c as nat,
            ),
        decreases row@.len() - c,
    {
        if let Some(child) = &row[c] {
            assert(cell_fits(row@[c as int], model@.shape()));
            child.render(renderer, model, theme, offset(x, scaled(c, dx)), y);
        }
        assert(renderer@ =~= old(renderer)@ + drawn_cells(
            row@,
            model@,
            x as int,
            y as int,
            dx as int,
            (c + 1) as nat,
        ));
        c += 1;
    }
}

/// Shows `event` to each cell of `row`, in order.
fn dispatch_cells(row: &Vec<Cell>, model: &mut Model, event: &Event, actions: &mut Vec<Action>)
    requires
        row_fits(row@, old(model)@.shape()),
    ensures
        final(model)@ == updated_by_cells(row@, old(model)@, *event, row@.len()),
        final(model)@.shape() == old(model)@.shape(),
        final(actions)@ == old(actions)@ + emitted_by_cells(row@, old(model)@, *event, row@.len()),
{
    let mut c: usize = 0;
    assert(actions@ =~= old(actions)@ + Seq::<Action>::empty());
    while c < row.len()
        invariant
            c <= row@.len(),
            row_fits(row@, model@.shape()),
            model@.shape() == old(model)@.shape(),
            model@ == updated_by_cells(row@, old(model)@, *event, c as nat),
            actions@ == old(actions)@ + emitted_by_cells(row@, old(model)@, *event, c as nat),
        decreases row@.len() - c,
    {
        if let Some(child) = &row[c] {
            assert(cell_fits(row@[c as int], model@.shape()));
            child.handle_event(model, event, actions);
        }
        assert(actions@ =~= old(actions)@ + emitted_by_cells(
            row@,
            old(model)@,
            *event,
            (c + 1) as nat,
        ));
        c += 1;
    }
}

impl Component for Grid {
    open spec fn fits(&self, shape: Shape) -> bool {
        rows_fit(self.children@, shape)
    }

    /// The cells row by row, each row from left to right. The cell in row `r`
    /// and column `c` is drawn `c` times 100 pixels and the spacing to the
    /// right, and `r` times 30 pixels and the spacing down.
    open spec fn drawn(&self, model: ModelView, x: int, y: int) -> Seq<DrawOp> {
        drawn_rows(
            self.children@,
            model,
            x,
            y,
            plus(100, self.spacing as int),
            plus(30, self.spacing as int),
            self.children@.len(),
        )
    }

    open spec fn updated(&self, model: ModelView, event: Event) -> ModelView {
        updated_by_rows(self.children@, model, event, self.children@.len())
    }

    open spec fn emitted(&self, model: ModelView, event: Event) -> Seq<Action> {
        emitted_by_rows(self.children@, model, event, self.children@.len())
    }

    fn is_bound(&self, model: &Model) -> (bound: bool) {
        let mut r: usize = 0;
        while r < self.children.len()
            invariant
                r <= self.children@.len(),
                forall|i: int| 0 <= i < r ==> row_fits((#[trigger] self.children@[i])@, model@.shape()),
            decreases self.children@.len() - r,
        {
            if !cells_bound(&self.children[r], model) {
                return false;
            }
            r += 1;
        }
        true
    }

    fn render(&self, renderer: &mut Renderer, model: &Model, theme: &Theme, x: i32, y: i32) {
        let dx = offset(COLUMN_WIDTH, self.spacing);
        let dy = offset(ROW_HEIGHT, self.spacing);
        let mut r: usize = 0;
        assert(renderer@ =~= old(renderer)@ + Seq::<DrawOp>::empty());
        while r < self.children.len()
            invariant
                r <= self.children@.len(),
                rows_fit(self.children@, model@.shape()),
                renderer@ == old(renderer)@ + drawn_rows(
                    self.children@,
                    model@,
                    x as int,
                    y as int,
                    dx as int,
                    dy as int,
                    r as nat,
                ),
            decreases self.children@.len() - r,
        {
            render_cells(&self.children[r], renderer, model, theme, x, offset(y, scaled(r, dy)), dx);
            assert(renderer@ =~= old(renderer)@ + drawn_rows(
                self.children@,
                model@,
                x as int,
                y as int,
                dx as int,
                dy as int,
                (r + 1) as nat,
            ));
            r += 1;
        }
    }

    fn handle_event(&self, model: &mut Model, event: &Event, actions: &mut Vec<Action>) {
        let mut r: usize = 0;
        assert(actions@ =~= old(actions)@ + Seq::<Action>::empty());
        while r < self.children.len()
            invariant
                r <= self.children@.len(),
                rows_fit(self.children@, model@.shape()),
                model@.shape() == old(model)@.shape(),
                model@ == updated_by_rows(self.children@, old(model)@, *event, r as nat),
                actions@ == old(actions)@ + emitted_by_rows(
                    self.children@,
                    old(model)@,
                    *event,
                    r as nat,
                ),
            decreases self.children@.len() - r,
        {
            dispatch_cells(&self.children[r], model, event, actions);
            assert(actions@ =~= old(actions)@ + emitted_by_rows(
                self.children@,
                old(model)@,
                *event,
                (r + 1) as nat,
            ));
            r += 1;
        }
    }
}

} // verus!
