//! The boxed application model and the single slot that holds the current one.

use vstd::prelude::*;
use crate::layout::PointerWidth;

verus! {

/// The reference count that tells the guest runtime never to collect a value.
pub const REFCOUNT_PINNED: usize = 0;

/// An opaque boxed guest value, known to the host by the address of its data.
#[derive(Clone, Copy, Debug, PartialEq, Eq, Structural)]
pub struct BoxedValue {
    pub address: usize,
}

/// One word to store into guest memory.
#[derive(Clone, Copy, Debug, PartialEq, Eq, Structural)]
pub struct WordWrite {
    pub address: usize,
    pub value: usize,
}

impl BoxedValue {
    /// Whether the value can sit behind a reference count: its data starts
    /// at least one word into memory, so in particular it is not null.
    pub open spec fn has_header(self, width: PointerWidth) -> bool {
        self.address >= width.spec_bytes()
    }

    /// Address of the reference count: the word just before the data.
    pub open spec fn spec_refcount_address(self, width: PointerWidth) -> int {
        self.address - width.spec_bytes()
    }

    /// Whether the value can sit behind a reference count.
    pub fn is_boxed(&self, width: PointerWidth) -> (r: bool)
        ensures
            r == self.has_header(width),
    {
        self.address >= width.bytes()
    }

    /// Address of the reference count: the word just before the data.
    pub fn refcount_address(&self, width: PointerWidth) -> (r: usize)
        requires
            self.has_header(width),
        ensures
            r == self.spec_refcount_address(width),
    {
        self.address - width.bytes()
    }

    /// The store that pins the value: the pinned count, written over the
    /// value's reference count.
    pub fn pin_write(&self, width: PointerWidth) -> (r: WordWrite)
        requires
            self.has_header(width),
        ensures
            r.address == self.spec_refcount_address(width),
            r.value == REFCOUNT_PINNED,
    {
        WordWrite { address: self.refcount_address(width), value: REFCOUNT_PINNED }
    }
}

/// The application state: a boxed guest value whose reference count is
/// pinned, so that cloning the handle is a plain copy and dropping it does
/// nothing. The only way to a model is [`Model::init`], which takes the
/// reference count as it stands in memory: what a store holds has been
/// pinned before it was stored.
#[derive(Clone, Copy, Debug, PartialEq, Eq, Structural)]
pub struct Model {
    inner: BoxedValue,
}

impl Model {
    /// The boxed value that is the model.
    pub closed spec fn view(self) -> BoxedValue {
        self.inner
    }

    /// Whether a boxed value with this reference count can be taken over as
    /// a model: it sits behind a reference count, and the count is pinned.
    pub open spec fn pinned(model: BoxedValue, width: PointerWidth, refcount: usize) -> bool {
        model.has_header(width) && refcount == REFCOUNT_PINNED
    }

    /// Takes over a boxed value as a model. `refcount` is the word found at
    /// the value's reference count, read after [`BoxedValue::pin_write`] was
    /// carried out. A value that is null or whose count is not pinned is
    /// refused.
    pub fn init(model: BoxedValue, width: PointerWidth, refcount: usize) -> (r: Option<Self>)
        ensures
            r is Some <==> Self::pinned(model, width, refcount),
            r matches Some(taken) ==> taken@ == model,
    {
        if model.is_boxed(width) && refcount == REFCOUNT_PINNED {
            Some(Model { inner: model })
        } else {
            None
        }
    }

    /// The boxed value that is the model.
    pub fn inner(&self) -> (r: BoxedValue)
        ensures
            r == self@,
    {
        self.inner
    }
}

/// The single slot that holds the current model. Writers replace the model,
/// readers copy the handle; the store also counts the replacements.
#[derive(Clone, Copy, Debug, PartialEq, Eq, Structural)]
pub struct ModelStore {
    pub current: Model,
    pub generation: u64,
}

impl ModelStore {
    /// The store after `new` has replaced its model.
    pub open spec fn spec_replace(self, new: Model) -> ModelStore {
        ModelStore {
            current: new,
            generation: if self.generation < u64::MAX {
                (self.generation + 1) as u64
            } else {
                self.generation
            },
        }
    }

    /// The handle a reader gets.
    pub open spec fn spec_snapshot(self) -> Model {
        self.current
    }

    /// A store holding the model the guest's initialiser returned.
    pub fn new(initial: Model) -> (r: Self)
        ensures
            r.current == initial,
            r.generation == 0,
    {
        ModelStore { current: initial, generation: 0 }
    }

    /// A copy of the handle of the current model.
    pub fn snapshot(&self) -> (r: Model)
        ensures
            r == self.spec_snapshot(),
    {
        self.current
    }

    /// Makes `new` the current model. The previous one is not freed.
    pub fn replace(&mut self, new: Model)
        ensures
            *final(self) == old(self).spec_replace(new),
    {
        self.current = new;
        if self.generation < u64::MAX {
            self.generation = self.generation + 1;
        }
    }
}

/// Last write wins: after a replacement, a reader gets the model that was
/// written, whatever the store held before, and after two replacements the
/// second one.
pub proof fn lemma_last_write_wins(store: ModelStore, first: Model, second: Model)
    ensures
        store.spec_replace(first).spec_snapshot() == first,
        store.spec_replace(first).spec_replace(second).spec_snapshot() == second,
{
}

} // verus!
