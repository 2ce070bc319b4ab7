use oblivion_ui::components::{DrawCommand, Event, Key, Renderer};
use oblivion_ui::rso::load_rso;
use oblivion_ui::state::Model;
use oblivion_ui::themes::Theme;

#[test]
fn a_loaded_interface_greets() {
    let mut model = Model::new(false);
    let root = match load_rso("VStack { Text('Hello') Button('Click') }", &mut model) {
        Ok(root) => root,
        Err(message) => panic!("{}", message),
    };
    assert_eq!(model.texts.len(), 1);
    assert_eq!(model.flags.len(), 0);
    assert!(!model.needs_redraw());
    assert!(root.is_bound(&model));
    let mut renderer = Renderer::new();
    root.render(&mut renderer, &model, &Theme::default(), 10, 20);
    assert_eq!(
        renderer.commands,
        vec![
            DrawCommand::Text { text: "Hello from .rso".to_string(), x: 10, y: 20 },
            DrawCommand::Rect { x: 10, y: 60, w: 100, h: 30 },
            DrawCommand::Text { text: "Click".to_string(), x: 15, y: 65 },
        ]
    );
}

#[test]
fn a_loaded_interface_does_not_depend_on_the_description() {
    let mut model = Model::new(true);
    let _other = model.text("other".to_string());
    let first = load_rso("", &mut model);
    let second = load_rso("not an interface", &mut model);
    assert!(first.is_ok());
    assert!(second.is_ok());
    assert_eq!(model.texts.len(), 3);
    assert!(model.needs_redraw());
    let root = match second {
        Ok(root) => root,
        Err(message) => panic!("{}", message),
    };
    let mut renderer = Renderer::new();
    root.render(&mut renderer, &model, &Theme::default(), 0, 0);
    assert_eq!(renderer.commands.len(), 3);
    assert_eq!(renderer.commands[0], DrawCommand::Text { text: "Hello from .rso".to_string(), x: 0, y: 0 });
}

#[test]
fn a_loaded_interface_asks_for_nothing() {
    let mut model = Model::new(false);
    let root = match load_rso("x", &mut model) {
        Ok(root) => root,
        Err(message) => panic!("{}", message),
    };
    let mut actions = Vec::new();
    root.handle_event(&mut model, &Event::Click { x: 1, y: 1 }, &mut actions);
    root.handle_event(&mut model, &Event::KeyDown(Key { code: 97, name: "A".to_string() }), &mut actions);
    assert!(actions.is_empty());
    assert_eq!(model.texts.len(), 1);
    let mut renderer = Renderer::new();
    root.render(&mut renderer, &model, &Theme::default(), 0, 0);
    assert_eq!(renderer.commands[0], DrawCommand::Text { text: "Hello from .rso".to_string(), x: 0, y: 0 });
}
