//! Interface descriptions in text form.

use crate::components::containers::{drawn_line, emitted_by, updated_by};
use crate::components::{Action, Button, Component, DrawOp, Event, Text, VStack};
use crate::geometry::plus;
use crate::state::{Model, ModelView, Shape};
use vstd::prelude::*;

verus! {

/// The greeting that a loaded interface shows.
pub open spec fn greeting() -> Seq<char> {
    "Hello from .rso"@
}

/// What a loaded interface draws at (`x`, `y`) when `text` is the text of its cell:
/// the text, and 40 pixels below it a button with the label Click.
pub open spec fn loaded_drawn(text: Seq<char>, x: int, y: int) -> Seq<DrawOp> {
    seq![
        DrawOp::Text { text, x, y },
        DrawOp::Rect { x, y: plus(y, 40), w: 100, h: 30 },
        DrawOp::Text { text: "Click"@, x: plus(x, 5), y: plus(plus(y, 40), 5) },
    ]
}

/// Builds the interface that `content` describes, with its state in new cells
/// of `model`.
///
/// The description is not read yet: whatever `content` holds, the result is a
/// column of a text, bound to a new cell that holds the greeting, above a
/// button without a callback.
pub fn load_rso(content: &str, model: &mut Model) -> (loaded: Result<Box<dyn Component>, String>)
    ensures
        loaded is Ok,
        final(model)@ == (ModelView { texts: old(model)@.texts.push(greeting()), ..old(model)@ }),
        forall|shape: Shape|
            old(model)@.texts.len() < shape.texts ==> #[trigger] loaded->Ok_0.fits(shape),
        forall|m: ModelView, x: int, y: int|
            old(model)@.texts.len() < m.texts.len() && i32::MIN <= x <= i32::MAX && i32::MIN <= y
                <= i32::MAX ==> #[trigger] loaded->Ok_0.drawn(m, x, y) == loaded_drawn(
                m.texts[old(model)@.texts.len() as int],
                x,
                y,
            ),
        forall|m: ModelView, event: Event| #[trigger] loaded->Ok_0.updated(m, event) == m,
        forall|m: ModelView, event: Event|
            #[trigger] loaded->Ok_0.emitted(m, event) == Seq::<Action>::empty(),
{
    let mut vstack = VStack::new(10);
    let state = model.text("Hello from .rso".to_owned());
    vstack.add_child(Box::new(Text::new(state.binding())));
    vstack.add_child(Box::new(Button::new("Click".to_owned())));
    proof {
        let children = vstack.children@;
        assert(children.len() == 2);
        assert forall|shape: Shape| old(model)@.texts.len() < shape.texts implies #[trigger]
            vstack.fits(shape) by {
            assert(children[0].fits(shape));
            assert(children[1].fits(shape));
        }
        assert forall|m: ModelView, x: int, y: int|
            old(model)@.texts.len() < m.texts.len() && i32::MIN <= x <= i32::MAX && i32::MIN <= y
                <= i32::MAX implies #[trigger] vstack.drawn(m, x, y) == loaded_drawn(
            m.texts[old(model)@.texts.len() as int],
            x,
            y,
        ) by {
            reveal_with_fuel(drawn_line, 3);
            assert(vstack.drawn(m, x, y) =~= loaded_drawn(
                m.texts[old(model)@.texts.len() as int],
                x,
                y,
            ));
        }
        assert forall|m: ModelView, event: Event| #[trigger] vstack.updated(m, event) == m by {
            reveal_with_fuel(updated_by, 3);
        }
        assert forall|m: ModelView, event: Event| #[trigger]
            vstack.emitted(m, event) == Seq::<Action>::empty() by {
            reveal_with_fuel(updated_by, 3);
            reveal_with_fuel(emitted_by, 3);
            assert(vstack.emitted(m, event) =~= Seq::<Action>::empty());
        }
    }
    let root: Box<dyn Component> = Box::new(vstack);
    let loaded = Ok(root);
    loaded
}

} // verus!
