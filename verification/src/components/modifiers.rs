//! Modifiers: wrappers that change how a component is drawn.

use crate::components::{Action, Component, DrawOp, Event, Renderer};
use crate::geometry::{offset, plus};
use crate::state::{Model, ModelView, Shape};
use crate::themes::Theme;
use vstd::prelude::*;

verus! {

/// A way of drawing a component and of showing it events.
pub trait ViewModifier<V: Component> {
    /// What is drawn for `view` at (`x`, `y`).
    spec fn drawn(&self, view: &V, model: ModelView, x: int, y: int) -> Seq<DrawOp>;

    /// The model after `view` was shown `event` through this modifier.
    spec fn updated(&self, view: &V, model: ModelView, event: Event) -> ModelView;

    /// The callbacks asked for when `view` is shown `event` through this modifier.
    spec fn emitted(&self, view: &V, model: ModelView, event: Event) -> Seq<Action>;

    /// Draws `view` at (`x`, `y`).
    fn modify_render(
        &self,
        view: &V,
        renderer: &mut Renderer,
        model: &Model,
        theme: &Theme,
        x: i32,
        y: i32,
    )
        requires
            view.fits(model@.shape()),
        ensures
            final(renderer)@ == old(renderer)@ + self.drawn(view, model@, x as int, y as int),
    ;

    /// Shows `event` to `view`.
    fn modify_event(
        &self,
        view: &V,
        model: &mut Model,
        event: &Event,
        actions: &mut Vec<Action>,
    )
        requires
            view.fits(old(model)@.shape()),
        ensures
            final(model)@ == self.updated(view, old(model)@, *event),
            final(model)@.shape() == old(model)@.shape(),
            final(actions)@ == old(actions)@ + self.emitted(view, old(model)@, *event),
    ;
}

/// A component seen through a modifier.
pub struct ModifiedContent<V: Component, M: ViewModifier<V>> {
    pub view: V,
    pub modifier: M,
}

impl<V: Component, M: ViewModifier<V>> Component for ModifiedContent<V, M> {
    open spec fn fits(&self, shape: Shape) -> bool {
        self.view.fits(shape)
    }

    open spec fn drawn(&self, model: ModelView, x: int, y: int) -> Seq<DrawOp> {
        self.modifier.drawn(&self.view, model, x, y)
    }

    open spec fn updated(&self, model: ModelView, event: Event) -> ModelView {
        self.modifier.updated(&self.view, model, event)
    }

    open spec fn emitted(&self, model: ModelView, event: Event) -> Seq<Action> {
        self.modifier.emitted(&self.view, model, event)
    }

    fn is_bound(&self, model: &Model) -> (bound: bool) {
        self.view.is_bound(model)
    }

    fn render(&self, renderer: &mut Renderer, model: &Model, theme: &Theme, x: i32, y: i32) {
        self.modifier.modify_render(&self.view, renderer, model, theme, x, y);
    }

    fn handle_event(&self, model: &mut Model, event: &Event, actions: &mut Vec<Action>) {
        self.modifier.modify_event(&self.view, model, event, actions);
    }
}

/// Moves a component right and down by `padding` pixels.
pub struct PaddingModifier {
    pub padding: i32,
}

impl<V: Component> ViewModifier<V> for PaddingModifier {
    /// What `view` draws `padding` pixels further right and down.
    open spec fn drawn(&self, view: &V, model: ModelView, x: int, y: int) -> Seq<DrawOp> {
        view.drawn(model, plus(x, self.padding as int), plus(y, self.padding as int))
    }

    open spec fn updated(&self, view: &V, model: ModelView, event: Event) -> ModelView {
        view.updated(model, event)
    }

    open spec fn emitted(&self, view: &V, model: ModelView, event: Event) -> Seq<Action> {
        view.emitted(model, event)
    }

    fn modify_render(
        &self,
        view: &V,
        renderer: &mut Renderer,
        model: &Model,
        theme: &Theme,
        x: i32,
        y: i32,
    ) {
        view.render(renderer, model, theme, offset(x, self.padding), offset(y, self.padding));
    }

    fn modify_event(
        &self,
        view: &V,
        model: &mut Model,
        event: &Event,
        actions: &mut Vec<Action>,
    ) {
        view.handle_event(model, event, actions);
    }
}

/// Puts a background behind a component.
pub struct BackgroundModifier {
    pub color: (u8, u8, u8),
}

impl<V: Component> ViewModifier<V> for BackgroundModifier {
    /// A rectangle of 100 by 30 pixels, then what `view` draws.
    open spec fn drawn(&self, view: &V, model: ModelView, x: int, y: int) -> Seq<DrawOp> {
        seq![DrawOp::Rect { x, y, w: 100, h: 30 }] + view.drawn(model, x, y)
    }

    open spec fn updated(&self, view: &V, model: ModelView, event: Event) -> ModelView {
        view.updated(model, event)
    }

    open spec fn emitted(&self, view: &V, model: ModelView, event: Event) -> Seq<Action> {
        view.emitted(model, event)
    }

    fn modify_render(
        &self,
        view: &V,
        renderer: &mut Renderer,
        model: &Model,
        theme: &Theme,
        x: i32,
        y: i32,
    ) {
        renderer.draw_rect(x, y, 100, 30);
        view.render(renderer, model, theme, x, y);
        assert(final(renderer)@ =~= old(renderer)@ + self.drawn(view, model@, x as int, y as int));
    }

    fn modify_event(
        &self,
        view: &V,
        model: &mut Model,
        event: &Event,
        actions: &mut Vec<Action>,
    ) {
        view.handle_event(model, event, actions);
    }
}

/// Modifiers as methods of every component.
pub trait ViewExt: Component + Sized {
    /// This component, moved right and down by `p` pixels.
    fn padding(self, p: i32) -> (content: ModifiedContent<Self, PaddingModifier>)
        ensures
            content.view == self,
            content.modifier.padding == p,
    {
        ModifiedContent { view: self, modifier: PaddingModifier { padding: p } }
    }

    /// This component on a background of the given colour.
    fn background(self, color: (u8, u8, u8)) -> (content: ModifiedContent<Self, BackgroundModifier>)
        ensures
            content.view == self,
            content.modifier.color == color,
    {
        ModifiedContent { view: self, modifier: BackgroundModifier { color } }
    }
}

impl<V: Component> ViewExt for V {

}

} // verus!
