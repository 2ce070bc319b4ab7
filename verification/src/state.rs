//! Application state that components are bound to.
//!
//! A [`Store`] owns the values, and with them a flag that says that something
//! was written since the last frame. A [`State`] names one cell of a store, and
//! a [`Binding`] names the same cell for a component that reads or writes it.
//! A store only grows, so a handle that names a cell keeps naming it. Every
//! write through a handle raises the store's flag, so that the next frame is
//! drawn; making a cell and reading one leave the flag alone.

use std::marker::PhantomData;
use vstd::prelude::*;

verus! {

/// The cells of one type, and the flag that a write to any of them raises.
pub struct Store<T> {
    cells: Vec<T>,
    dirty: bool,
}

impl<T> View for Store<T> {
    type V = Seq<T>;

    /// The cells in the order in which they were made.
    closed spec fn view(&self) -> Seq<T> {
        self.cells@
    }
}

impl<T> Store<T> {
    /// Whether a cell was written since the flag was last lowered.
    pub closed spec fn dirty(&self) -> bool {
        self.dirty
    }

    /// A store without cells, with its flag as `dirty` says.
    pub fn new(dirty: bool) -> (store: Self)
        ensures
            store@ == Seq::<T>::empty(),
            store.dirty() == dirty,
    {
        Store { cells: Vec::new(), dirty }
    }

    /// Whether a cell was written since the flag was last lowered.
    pub fn is_dirty(&self) -> (dirty: bool)
        ensures
            dirty == self.dirty(),
    {
        self.dirty
    }

    /// Raises the flag. No cell changes.
    pub fn mark_dirty(&mut self)
        ensures
            final(self)@ == old(self)@,
            final(self).dirty(),
    {
        self.dirty = true;
    }

    /// Lowers the flag. No cell changes.
    pub fn mark_clean(&mut self)
        ensures
            final(self)@ == old(self)@,
            !final(self).dirty(),
    {
        self.dirty = false;
    }

    /// How many cells the store has.
    pub fn len(&self) -> (n: usize)
        ensures
            n == self@.len(),
    {
        self.cells.len()
    }

    /// Whether `slot` names a cell of this store.
    pub open spec fn has(&self, slot: nat) -> bool {
        slot < self@.len()
    }
}

/// The owner's handle on one cell of a store.
pub struct State<T> {
    index: usize,
    marker: PhantomData<T>,
}

/// A component's handle on the cell of a [`State`].
pub struct Binding<T> {
    index: usize,
    marker: PhantomData<T>,
}

impl<T> State<T> {
    /// The position of the cell in its store.
    pub closed spec fn slot(&self) -> nat {
        self.index as nat
    }

    /// Makes a new cell at the end of `store`, holding `initial`. The store's
    /// flag stays as it is.
    pub fn new(initial: T, store: &mut Store<T>) -> (state: Self)
        ensures
            final(store)@ == old(store)@.push(initial),
            final(store).dirty() == old(store).dirty(),
            state.slot() == old(store)@.len(),
    {
        let index = store.cells.len();
        store.cells.push(initial);
        State { index, marker: PhantomData }
    }

    /// The position of the cell in its store.
    pub fn index(&self) -> (i: usize)
        ensures
            i == self.slot(),
    {
        self.index
    }

    /// A copy of the cell's value.
    pub fn get(&self, store: &Store<T>) -> (value: T) where T: Clone
        requires
            store.has(self.slot()),
        ensures
            cloned(store@[self.slot() as int], value),
    {
        store.cells[self.index].clone()
    }

    /// Replaces the cell's value and raises the store's flag. No other cell
    /// changes.
    pub fn set(&self, store: &mut Store<T>, new_value: T)
        requires
            old(store).has(self.slot()),
        ensures
            final(store)@ == old(store)@.update(self.slot() as int, new_value),
            final(store).dirty(),
    {
        store.cells.set(self.index, new_value);
        store.dirty = true;
    }

    /// A binding to the same cell.
    pub fn binding(&self) -> (binding: Binding<T>)
        ensures
            binding.slot() == self.slot(),
    {
        Binding { index: self.index, marker: PhantomData }
    }
}

impl<T> Binding<T> {
    /// The position of the cell in its store.
    pub closed spec fn slot(&self) -> nat {
        self.index as nat
    }

    /// The position of the cell in its store.
    pub fn index(&self) -> (i: usize)
        ensures
            i == self.slot(),
    {
        self.index
    }

    /// A copy of the cell's value.
    pub fn get(&self, store: &Store<T>) -> (value: T) where T: Clone
        requires
            store.has(self.slot()),
        ensures
            cloned(store@[self.slot() as int], value),
    {
        store.cells[self.index].clone()
    }

    /// Replaces the cell's value and raises the store's flag. No other cell
    /// changes.
    pub fn set(&self, store: &mut Store<T>, new_value: T)
        requires
            old(store).has(self.slot()),
        ensures
            final(store)@ == old(store)@.update(self.slot() as int, new_value),
            final(store).dirty(),
    {
        store.cells.set(self.index, new_value);
        store.dirty = true;
    }
}

impl<T> Clone for Binding<T> {
    /// Another binding to the same cell.
    fn clone(&self) -> (binding: Self)
        ensures
            binding == *self,
    {
        Binding { index: self.index, marker: PhantomData }
    }
}

/// What a user interface is bound to: its texts and its switches. A frame is
/// due as soon as the flag of either store is raised.
pub struct Model {
    pub texts: Store<String>,
    pub flags: Store<bool>,
}

/// A [`Model`] as plain values. `redraw` says whether a frame is due.
pub struct ModelView {
    pub texts: Seq<Seq<char>>,
    pub flags: Seq<bool>,
    pub redraw: bool,
}

impl View for Model {
    type V = ModelView;

    open spec fn view(&self) -> ModelView {
        ModelView {
            texts: self.texts@.map_values(|text: String| text@),
            flags: self.flags@,
            redraw: self.texts.dirty() || self.flags.dirty(),
        }
    }
}

/// How many cells of each type a model has.
pub struct Shape {
    pub texts: nat,
    pub flags: nat,
}

impl ModelView {
    /// How many cells of each type this model has.
    pub open spec fn shape(self) -> Shape {
        Shape { texts: self.texts.len(), flags: self.flags.len() }
    }

    /// This model with the text in cell `slot` replaced.
    pub open spec fn with_text(self, slot: int, text: Seq<char>) -> ModelView {
        ModelView { texts: self.texts.update(slot, text), ..self }
    }

    /// This model with the switch in cell `slot` replaced.
    pub open spec fn with_flag(self, slot: int, flag: bool) -> ModelView {
        ModelView { flags: self.flags.update(slot, flag), ..self }
    }

    /// This model with a frame due.
    pub open spec fn invalidated(self) -> ModelView {
        ModelView { redraw: true, ..self }
    }
}

impl Model {
    /// A model without cells. `redraw` says whether the first frame is drawn.
    pub fn new(redraw: bool) -> (model: Self)
        ensures
            model@ == (ModelView { texts: Seq::empty(), flags: Seq::empty(), redraw }),
    {
        let model = Model { texts: Store::new(redraw), flags: Store::new(redraw) };
        assert(model@.texts =~= Seq::empty());
        model
    }

    /// Whether a frame is due.
    pub fn needs_redraw(&self) -> (due: bool)
        ensures
            due == self@.redraw,
    {
        self.texts.is_dirty() || self.flags.is_dirty()
    }

    /// Asks for a frame. No cell changes.
    pub fn request_redraw(&mut self)
        ensures
            final(self)@ == old(self)@.invalidated(),
    {
        self.texts.mark_dirty();
    }

    /// Takes note that a frame was drawn: none is due until the next write or
    /// request. No cell changes.
    pub fn mark_drawn(&mut self)
        ensures
            final(self)@ == (ModelView { redraw: false, ..old(self)@ }),
    {
        self.texts.mark_clean();
        self.flags.mark_clean();
    }

    /// Makes a new text cell and returns its state. No frame falls due by it.
    pub fn text(&mut self, initial: String) -> (state: State<String>)
        ensures
            final(self)@ == (ModelView { texts: old(self)@.texts.push(initial@), ..old(self)@ }),
            state.slot() == old(self)@.texts.len(),
    {
        let state = State::new(initial, &mut self.texts);
        assert(final(self)@.texts =~= old(self)@.texts.push(initial@));
        state
    }

    /// Makes a new switch cell and returns its state. No frame falls due by it.
    pub fn flag(&mut self, initial: bool) -> (state: State<bool>)
        ensures
            final(self)@ == (ModelView { flags: old(self)@.flags.push(initial), ..old(self)@ }),
            state.slot() == old(self)@.flags.len(),
    {
        State::new(initial, &mut self.flags)
    }

    /// The text in the cell of `binding`.
    pub fn read_text(&self, binding: &Binding<String>) -> (text: String)
        requires
            binding.slot() < self@.texts.len(),
        ensures
            text@ == self@.texts[binding.slot() as int],
    {
        binding.get(&self.texts)
    }

    /// Replaces the text in the cell of `binding`. A frame is due afterwards.
    pub fn write_text(&mut self, binding: &Binding<String>, text: String)
        requires
            binding.slot() < old(self)@.texts.len(),
        ensures
            final(self)@ == (ModelView {
                redraw: true,
                ..old(self)@.with_text(binding.slot() as int, text@)
            }),
    {
        binding.set(&mut self.texts, text);
        assert(final(self)@.texts =~= old(self)@.texts.update(binding.slot() as int, text@));
    }

    /// The switch in the cell of `binding`.
    pub fn read_flag(&self, binding: &Binding<bool>) -> (flag: bool)
        requires
            binding.slot() < self@.flags.len(),
        ensures
            flag == self@.flags[binding.slot() as int],
    {
        binding.get(&self.flags)
    }

    /// Replaces the switch in the cell of `binding`. A frame is due afterwards.
    pub fn write_flag(&mut self, binding: &Binding<bool>, flag: bool)
        requires
            binding.slot() < old(self)@.flags.len(),
        ensures
            final(self)@ == (ModelView {
                redraw: true,
                ..old(self)@.with_flag(binding.slot() as int, flag)
            }),
    {
        binding.set(&mut self.flags, flag);
    }
}

} // verus!
