use oblivion_ui::components::{
    Action, Button, Callback, Component, Divider, DrawCommand, Event, Grid, HStack, Image, Input, Key,
    Panel, Renderer, Spacer, Text, Toggle, VStack, Window,
};
use oblivion_ui::state::Model;
use oblivion_ui::themes::Theme;

fn words(text: &str, x: i32, y: i32) -> DrawCommand {
    DrawCommand::Text { text: text.to_string(), x, y }
}

fn frame(x: i32, y: i32, w: i32, h: i32) -> DrawCommand {
    DrawCommand::Rect { x, y, w, h }
}

fn drawn(component: &dyn Component, model: &Model, x: i32, y: i32) -> Vec<DrawCommand> {
    let mut renderer = Renderer::new();
    component.render(&mut renderer, model, &Theme::dark(), x, y);
    renderer.commands
}

fn shown(component: &dyn Component, model: &mut Model, event: &Event) -> Vec<Action> {
    let mut actions = Vec::new();
    component.handle_event(model, event, &mut actions);
    actions
}

#[test]
fn a_new_window_is_empty() {
    let window = Window::new("Main".to_string(), 800, 600);
    assert_eq!(window.title, "Main");
    assert_eq!(window.width, 800);
    assert_eq!(window.height, 600);
    assert!(window.children.is_empty());
    assert!(drawn(&window, &Model::new(false), 0, 0).is_empty());
}

#[test]
fn a_window_draws_its_children_below_each_other() {
    let model = Model::new(false);
    let mut window = Window::new("Main".to_string(), 800, 600);
    window.add_child(Box::new(Divider::new()));
    window.add_child(Box::new(Image::new(4, 5)));
    window.add_child(Box::new(Divider::new()));
    assert_eq!(window.children.len(), 3);
    assert_eq!(window.title, "Main");
    assert_eq!(
        drawn(&window, &model, 10, 20),
        vec![frame(10, 20, 200, 1), frame(10, 70, 4, 5), frame(10, 120, 200, 1)]
    );
}

#[test]
fn a_window_stops_at_the_edge() {
    let model = Model::new(false);
    let mut window = Window::new("Main".to_string(), 800, 600);
    window.add_child(Box::new(Divider::new()));
    window.add_child(Box::new(Divider::new()));
    window.add_child(Box::new(Divider::new()));
    assert_eq!(
        drawn(&window, &model, 0, i32::MAX - 60),
        vec![
            frame(0, i32::MAX - 60, 200, 1),
            frame(0, i32::MAX - 10, 200, 1),
            frame(0, i32::MAX, 200, 1),
        ]
    );
}

#[test]
fn a_new_column() {
    let stack = VStack::new(10);
    assert!(stack.children.is_empty());
    assert_eq!(stack.spacing, 10);
    assert_eq!(stack.padding, 0);
    assert_eq!(stack.border, 0);
    let stack = stack.padding(4).border(2);
    assert_eq!(stack.spacing, 10);
    assert_eq!(stack.padding, 4);
    assert_eq!(stack.border, 2);
    assert!(stack.children.is_empty());
}

#[test]
fn a_column_draws_its_children_below_each_other() {
    let model = Model::new(false);
    let mut stack = VStack::new(10);
    stack.add_child(Box::new(Divider::new()));
    stack.add_child(Box::new(Divider::new()));
    stack.add_child(Box::new(Divider::new()));
    assert_eq!(
        drawn(&stack, &model, 100, 200),
        vec![frame(100, 200, 200, 1), frame(100, 240, 200, 1), frame(100, 280, 200, 1)]
    );
}

#[test]
fn a_column_with_padding_and_border_draws_a_frame() {
    let model = Model::new(false);
    let mut stack = VStack::new(10).padding(5).border(2);
    stack.add_child(Box::new(Divider::new()));
    stack.add_child(Box::new(Divider::new()));
    assert_eq!(stack.spacing, 10);
    assert_eq!(stack.padding, 5);
    assert_eq!(stack.border, 2);
    assert_eq!(
        drawn(&stack, &model, 100, 200),
        vec![frame(105, 207, 200, 1), frame(105, 247, 200, 1), frame(100, 200, 200, 87)]
    );
}

#[test]
fn an_empty_column_with_a_border_draws_only_its_frame() {
    let model = Model::new(false);
    let stack = VStack::new(0).padding(3).border(1);
    assert_eq!(drawn(&stack, &model, 0, 0), vec![frame(0, 0, 200, 4)]);
    let stack = VStack::new(0).padding(3).border(-1);
    assert!(drawn(&stack, &model, 0, 0).is_empty());
}

#[test]
fn a_column_with_negative_spacing_goes_up() {
    let model = Model::new(false);
    let mut stack = VStack::new(-50).border(1);
    stack.add_child(Box::new(Divider::new()));
    stack.add_child(Box::new(Divider::new()));
    assert_eq!(
        drawn(&stack, &model, 0, 0),
        vec![frame(0, 1, 200, 1), frame(0, -19, 200, 1), frame(0, 0, 200, -39)]
    );
}

#[test]
fn a_column_stops_at_the_edge() {
    let model = Model::new(false);
    let mut stack = VStack::new(i32::MAX).border(1);
    stack.add_child(Box::new(Divider::new()));
    stack.add_child(Box::new(Divider::new()));
    assert_eq!(
        drawn(&stack, &model, 0, -10),
        vec![frame(0, -9, 200, 1), frame(0, i32::MAX - 9, 200, 1), frame(0, -10, 200, i32::MAX)]
    );
}

#[test]
fn a_row_draws_its_children_side_by_side() {
    let model = Model::new(false);
    let mut stack = HStack::new(10).padding(5).border(2);
    assert_eq!(stack.spacing, 10);
    assert_eq!(stack.padding, 5);
    assert_eq!(stack.border, 2);
    stack.add_child(Box::new(Divider::new()));
    stack.add_child(Box::new(Divider::new()));
    stack.add_child(Box::new(Divider::new()));
    assert_eq!(stack.padding, 5);
    assert_eq!(
        drawn(&stack, &model, 100, 200),
        vec![frame(107, 205, 200, 1), frame(217, 205, 200, 1), frame(327, 205, 200, 1)]
    );
}

#[test]
fn a_new_row() {
    let stack = HStack::new(-3);
    assert!(stack.children.is_empty());
    assert_eq!(stack.spacing, -3);
    assert_eq!(stack.padding, 0);
    assert_eq!(stack.border, 0);
    assert!(drawn(&stack, &Model::new(false), 1, 1).is_empty());
}

#[test]
fn a_panel_frames_its_child() {
    let model = Model::new(false);
    let panel = Panel::new(1, 8);
    assert!(panel.child.is_none());
    assert_eq!(panel.border_width, 1);
    assert_eq!(panel.padding, 8);
    assert_eq!(drawn(&panel, &model, 10, 20), vec![frame(10, 20, 200, 200)]);
    let panel = panel.child(Box::new(Image::new(2, 3)));
    assert_eq!(panel.border_width, 1);
    assert_eq!(panel.padding, 8);
    assert_eq!(drawn(&panel, &model, 10, 20), vec![frame(10, 20, 200, 200), frame(18, 28, 2, 3)]);
    let panel = panel.child(Box::new(Divider::new()));
    assert_eq!(drawn(&panel, &model, 10, 20), vec![frame(10, 20, 200, 200), frame(18, 28, 200, 1)]);
}

#[test]
fn a_new_grid_is_empty() {
    let grid = Grid::new(2, 3, 4);
    assert_eq!(grid.rows, 2);
    assert_eq!(grid.cols, 3);
    assert_eq!(grid.spacing, 4);
    assert_eq!(grid.children.len(), 2);
    for row in &grid.children {
        assert_eq!(row.len(), 3);
        for cell in row {
            assert!(cell.is_none());
        }
    }
    assert!(drawn(&grid, &Model::new(false), 0, 0).is_empty());
}

#[test]
fn a_grid_without_rows_or_columns() {
    let grid = Grid::new(0, 3, 0);
    assert!(grid.children.is_empty());
    let grid = Grid::new(2, 0, 0);
    assert_eq!(grid.children.len(), 2);
    assert!(grid.children[0].is_empty());
    assert!(grid.children[1].is_empty());
}

#[test]
fn a_grid_draws_its_cells_row_by_row() {
    let model = Model::new(false);
    let mut grid = Grid::new(2, 3, 10);
    grid.set_child(1, 2, Box::new(Image::new(1, 1)));
    grid.set_child(0, 1, Box::new(Image::new(2, 2)));
    grid.set_child(1, 0, Box::new(Image::new(3, 3)));
    assert!(grid.children[0][0].is_none());
    assert!(grid.children[0][1].is_some());
    assert_eq!(grid.rows, 2);
    assert_eq!(grid.cols, 3);
    assert_eq!(
        drawn(&grid, &model, 5, 7),
        vec![frame(115, 7, 2, 2), frame(5, 47, 3, 3), frame(225, 47, 1, 1)]
    );
}

#[test]
fn a_grid_ignores_cells_outside_the_table() {
    let model = Model::new(false);
    let mut grid = Grid::new(2, 3, 10);
    grid.set_child(2, 0, Box::new(Divider::new()));
    grid.set_child(0, 3, Box::new(Divider::new()));
    grid.set_child(usize::MAX, usize::MAX, Box::new(Divider::new()));
    assert!(drawn(&grid, &model, 0, 0).is_empty());
    assert_eq!(grid.children.len(), 2);
    assert_eq!(grid.children[0].len(), 3);
}

#[test]
fn a_grid_cell_can_be_replaced() {
    let model = Model::new(false);
    let mut grid = Grid::new(1, 1, 0);
    grid.set_child(0, 0, Box::new(Image::new(1, 1)));
    grid.set_child(0, 0, Box::new(Image::new(2, 2)));
    assert_eq!(drawn(&grid, &model, 0, 0), vec![frame(0, 0, 2, 2)]);
}

#[test]
fn a_grid_stops_at_the_edge() {
    let model = Model::new(false);
    let mut grid = Grid::new(2, 2, i32::MAX);
    grid.set_child(1, 1, Box::new(Image::new(1, 1)));
    assert_eq!(drawn(&grid, &model, -5, 5), vec![frame(i32::MAX - 5, i32::MAX, 1, 1)]);
}

#[test]
fn every_child_sees_every_event() {
    let mut model = Model::new(false);
    let mut window = Window::new("Main".to_string(), 800, 600);
    let mut stack = VStack::new(0);
    stack.add_child(Box::new(Button::new("a".to_string()).on_click(Callback { id: 1 })));
    stack.add_child(Box::new(Spacer::new()));
    let mut row = HStack::new(0);
    row.add_child(Box::new(Button::new("b".to_string()).on_click(Callback { id: 2 })));
    row.add_child(Box::new(Button::new("c".to_string())));
    stack.add_child(Box::new(row));
    window.add_child(Box::new(stack));
    window.add_child(Box::new(Panel::new(0, 0).child(Box::new(Button::new("d".to_string()).on_click(Callback { id: 3 })))));
    let mut grid = Grid::new(2, 2, 0);
    grid.set_child(1, 0, Box::new(Button::new("e".to_string()).on_click(Callback { id: 5 })));
    grid.set_child(0, 1, Box::new(Button::new("f".to_string()).on_click(Callback { id: 4 })));
    window.add_child(Box::new(grid));
    let clicked = |id: usize| Action::Click { callback: Callback { id } };
    assert_eq!(
        shown(&window, &mut model, &Event::Click { x: -1, y: -1 }),
        vec![clicked(1), clicked(2), clicked(3), clicked(4), clicked(5)]
    );
    assert!(shown(&window, &mut model, &Event::MouseMove { x: 0, y: 0 }).is_empty());
}

#[test]
fn children_see_an_event_one_after_the_other() {
    let mut model = Model::new(false);
    let state = model.flag(false);
    let mut stack = VStack::new(0);
    stack.add_child(Box::new(Toggle::new(state.binding()).on_toggle(Callback { id: 1 })));
    stack.add_child(Box::new(Toggle::new(state.binding()).on_toggle(Callback { id: 2 })));
    stack.add_child(Box::new(Toggle::new(state.binding()).on_toggle(Callback { id: 3 })));
    assert_eq!(
        shown(&stack, &mut model, &Event::Click { x: 0, y: 0 }),
        vec![
            Action::Toggle { callback: Callback { id: 1 }, is_on: true },
            Action::Toggle { callback: Callback { id: 2 }, is_on: false },
            Action::Toggle { callback: Callback { id: 3 }, is_on: true },
        ]
    );
    assert!(state.get(&model.flags));
}

#[test]
fn a_key_reaches_every_input() {
    let mut model = Model::new(false);
    let first = model.text("a".to_string());
    let second = model.text(String::new());
    let mut row = HStack::new(0);
    row.add_child(Box::new(Input::new(first.binding(), String::new())));
    row.add_child(Box::new(Input::new(second.binding(), String::new())));
    row.add_child(Box::new(Input::new(first.binding(), String::new())));
    let event = Event::KeyDown(Key { code: 98, name: "B".to_string() });
    assert!(shown(&row, &mut model, &event).is_empty());
    assert_eq!(first.get(&model.texts), "aBB");
    assert_eq!(second.get(&model.texts), "B");
}

#[test]
fn a_grid_shows_events_row_by_row() {
    let mut model = Model::new(false);
    let state = model.flag(false);
    let mut grid = Grid::new(2, 2, 0);
    grid.set_child(1, 0, Box::new(Toggle::new(state.binding()).on_toggle(Callback { id: 3 })));
    grid.set_child(0, 1, Box::new(Toggle::new(state.binding()).on_toggle(Callback { id: 2 })));
    grid.set_child(0, 0, Box::new(Toggle::new(state.binding()).on_toggle(Callback { id: 1 })));
    assert_eq!(
        shown(&grid, &mut model, &Event::Click { x: 0, y: 0 }),
        vec![
            Action::Toggle { callback: Callback { id: 1 }, is_on: true },
            Action::Toggle { callback: Callback { id: 2 }, is_on: false },
            Action::Toggle { callback: Callback { id: 3 }, is_on: true },
        ]
    );
}

#[test]
fn a_panel_shows_events_to_its_child() {
    let mut model = Model::new(false);
    let state = model.flag(false);
    let empty = Panel::new(0, 0);
    assert!(shown(&empty, &mut model, &Event::Click { x: 0, y: 0 }).is_empty());
    let panel = Panel::new(0, 0).child(Box::new(Toggle::new(state.binding())));
    assert!(shown(&panel, &mut model, &Event::Click { x: 0, y: 0 }).is_empty());
    assert!(state.get(&model.flags));
}

#[test]
fn a_container_is_bound_when_all_its_children_are() {
    let mut model = Model::new(false);
    let state = model.text("x".to_string());
    let empty = Model::new(false);
    let mut stack = VStack::new(0);
    assert!(stack.is_bound(&empty));
    stack.add_child(Box::new(Divider::new()));
    stack.add_child(Box::new(Text::new(state.binding())));
    assert!(stack.is_bound(&model));
    assert!(!stack.is_bound(&empty));
    let mut row = HStack::new(0);
    row.add_child(Box::new(stack));
    assert!(row.is_bound(&model));
    assert!(!row.is_bound(&empty));
    let mut window = Window::new(String::new(), 1, 1);
    window.add_child(Box::new(row));
    assert!(window.is_bound(&model));
    assert!(!window.is_bound(&empty));
    let panel = Panel::new(0, 0);
    assert!(panel.is_bound(&empty));
    let panel = panel.child(Box::new(window));
    assert!(panel.is_bound(&model));
    assert!(!panel.is_bound(&empty));
    let mut grid = Grid::new(2, 2, 0);
    assert!(grid.is_bound(&empty));
    grid.set_child(1, 1, Box::new(panel));
    assert!(grid.is_bound(&model));
    assert!(!grid.is_bound(&empty));
}

#[test]
fn a_tree_draws_depth_first() {
    let mut model = Model::new(false);
    let title = model.text("Title".to_string());
    let switch = model.flag(true);
    let mut window = Window::new("Main".to_string(), 800, 600);
    let mut stack = VStack::new(10);
    stack.add_child(Box::new(Text::new(title.binding())));
    stack.add_child(Box::new(Button::new("Go".to_string()).padding(10)));
    let mut row = HStack::new(5);
    row.add_child(Box::new(Toggle::new(switch.binding())));
    row.add_child(Box::new(Divider::new()));
    stack.add_child(Box::new(row));
    window.add_child(Box::new(stack));
    window.add_child(Box::new(Divider::new()));
    assert_eq!(
        drawn(&window, &model, 0, 0),
        vec![
            words("Title", 0, 0),
            frame(0, 40, 100, 30),
            words("Go", 10, 50),
            words("ON", 0, 80),
            frame(105, 80, 200, 1),
            frame(0, 50, 200, 1),
        ]
    );
}

#[test]
fn a_grid_knows_whether_it_is_a_table() {
    let mut grid = Grid::new(2, 3, 0);
    assert!(grid.is_well_formed());
    grid.set_child(1, 1, Box::new(Divider::new()));
    assert!(grid.is_well_formed());
    grid.children[0].pop();
    assert!(!grid.is_well_formed());
    let mut grid = Grid::new(2, 3, 0);
    grid.children.pop();
    assert!(!grid.is_well_formed());
    let mut grid = Grid::new(0, 0, 0);
    assert!(grid.is_well_formed());
    grid.rows = 1;
    assert!(!grid.is_well_formed());
}
