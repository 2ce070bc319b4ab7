use oblivion_ui::state::{Model, State, Store};

#[test]
fn test_state() {
    let mut store = Store::new(false);
    let state = State::new(42, &mut store);
    assert_eq!(state.get(&store), 42);
    state.set(&mut store, 43);
    assert_eq!(state.get(&store), 43);
}

#[test]
fn test_binding() {
    let mut store = Store::new(false);
    let state = State::new("hello".to_string(), &mut store);
    let binding = state.binding();
    assert_eq!(binding.get(&store), "hello");
    binding.set(&mut store, "world".to_string());
    assert_eq!(state.get(&store), "world");
}

#[test]
fn a_new_store_is_empty() {
    let store: Store<u8> = Store::new(false);
    assert_eq!(store.len(), 0);
    assert!(!store.is_dirty());
    let store: Store<u8> = Store::new(true);
    assert_eq!(store.len(), 0);
    assert!(store.is_dirty());
}

#[test]
fn states_take_cells_in_order() {
    let mut store = Store::new(false);
    let first = State::new(1u8, &mut store);
    let second = State::new(2u8, &mut store);
    assert_eq!(first.index(), 0);
    assert_eq!(second.index(), 1);
    assert_eq!(store.len(), 2);
    assert_eq!(first.get(&store), 1);
    assert_eq!(second.get(&store), 2);
}

#[test]
fn set_leaves_other_cells_alone() {
    let mut store = Store::new(false);
    let first = State::new(1u8, &mut store);
    let second = State::new(2u8, &mut store);
    second.set(&mut store, 9);
    assert_eq!(first.get(&store), 1);
    assert_eq!(second.get(&store), 9);
    assert_eq!(store.len(), 2);
}

#[test]
fn a_state_sees_what_its_binding_wrote() {
    let mut store = Store::new(false);
    let state = State::new(false, &mut store);
    let binding = state.binding();
    assert_eq!(binding.index(), state.index());
    binding.set(&mut store, true);
    assert!(state.get(&store));
    state.set(&mut store, false);
    assert!(!binding.get(&store));
}

#[test]
fn a_cloned_binding_names_the_same_cell() {
    let mut store = Store::new(false);
    let _other = State::new(7i64, &mut store);
    let state = State::new(8i64, &mut store);
    let binding = state.binding();
    let copy = binding.clone();
    assert_eq!(copy.index(), 1);
    copy.set(&mut store, 10);
    assert_eq!(binding.get(&store), 10);
    assert_eq!(state.get(&store), 10);
}

#[test]
fn a_model_keeps_texts_and_switches_apart() {
    let mut model = Model::new(true);
    assert!(model.needs_redraw());
    let title = model.text("title".to_string());
    let on = model.flag(true);
    let off = model.flag(false);
    assert_eq!(title.index(), 0);
    assert_eq!(on.index(), 0);
    assert_eq!(off.index(), 1);
    assert_eq!(model.texts.len(), 1);
    assert_eq!(model.flags.len(), 2);
    assert_eq!(model.read_text(&title.binding()), "title");
    assert!(model.read_flag(&on.binding()));
    assert!(!model.read_flag(&off.binding()));
}

#[test]
fn a_model_writes_through_bindings() {
    let mut model = Model::new(false);
    let title = model.text("old".to_string());
    let switch = model.flag(false);
    model.write_text(&title.binding(), "new".to_string());
    model.write_flag(&switch.binding(), true);
    assert_eq!(title.get(&model.texts), "new");
    assert!(switch.get(&model.flags));
    assert!(model.needs_redraw());
}

#[test]
fn a_write_raises_the_flag() {
    let mut store = Store::new(false);
    let state = State::new(0, &mut store);
    assert!(!store.is_dirty());
    assert_eq!(state.get(&store), 0);
    assert!(!store.is_dirty());
    state.set(&mut store, 1);
    assert_eq!(state.get(&store), 1);
    assert!(store.is_dirty());
}

#[test]
fn a_write_through_a_binding_raises_the_flag() {
    let mut store = Store::new(false);
    let state = State::new("a".to_string(), &mut store);
    let binding = state.binding();
    assert_eq!(binding.get(&store), "a");
    assert!(!store.is_dirty());
    binding.set(&mut store, "a".to_string());
    assert!(store.is_dirty());
    assert_eq!(state.get(&store), "a");
}

#[test]
fn the_flag_can_be_raised_and_lowered_by_hand() {
    let mut store = Store::new(false);
    let state = State::new(7u8, &mut store);
    store.mark_dirty();
    assert!(store.is_dirty());
    store.mark_clean();
    assert!(!store.is_dirty());
    store.mark_clean();
    assert!(!store.is_dirty());
    assert_eq!(state.get(&store), 7);
    assert_eq!(store.len(), 1);
    state.set(&mut store, 8);
    store.mark_clean();
    assert!(!store.is_dirty());
    assert_eq!(state.get(&store), 8);
    let _later = State::new(9u8, &mut store);
    assert!(!store.is_dirty());
}

#[test]
fn making_and_reading_cells_asks_for_no_frame() {
    let mut model = Model::new(false);
    let title = model.text("title".to_string());
    let switch = model.flag(true);
    assert_eq!(model.read_text(&title.binding()), "title");
    assert!(model.read_flag(&switch.binding()));
    assert!(!model.needs_redraw());
}

#[test]
fn a_write_to_either_store_asks_for_a_frame() {
    let mut model = Model::new(false);
    let title = model.text("t".to_string());
    let switch = model.flag(false);
    model.write_flag(&switch.binding(), true);
    assert!(model.needs_redraw());
    assert!(model.flags.is_dirty());
    assert!(!model.texts.is_dirty());
    model.mark_drawn();
    assert!(!model.needs_redraw());
    assert!(switch.get(&model.flags));
    title.set(&mut model.texts, "u".to_string());
    assert!(model.needs_redraw());
    model.mark_drawn();
    assert!(!model.needs_redraw());
    assert_eq!(title.get(&model.texts), "u");
    switch.binding().set(&mut model.flags, false);
    assert!(model.needs_redraw());
}

#[test]
fn a_frame_can_be_asked_for() {
    let mut model = Model::new(false);
    let title = model.text("t".to_string());
    model.request_redraw();
    assert!(model.needs_redraw());
    model.request_redraw();
    assert!(model.needs_redraw());
    model.mark_drawn();
    assert!(!model.needs_redraw());
    assert_eq!(title.get(&model.texts), "t");
    assert_eq!(model.texts.len(), 1);
    assert_eq!(model.flags.len(), 0);
}
