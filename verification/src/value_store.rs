//! The value store of an agent: a value with the one it replaced, and a flag
//! that marks it as changed since it was last written out; and the event
//! handlers that read and set it.

use vstd::prelude::*;

verus! {

/// A store of a value, identified within its agent.
#[derive(Debug)]
pub struct ValueStore<T> {
    id: u64,
    content: T,
    previous: Option<T>,
    dirty: bool,
}

impl<T> ValueStore<T> {
    /// The identifier of the store.
    pub closed spec fn spec_id(&self) -> u64 {
        self.id
    }

    /// The current value.
    pub closed spec fn spec_content(&self) -> T {
        self.content
    }

    /// The value that the last `set` replaced, until it is read.
    pub closed spec fn spec_previous(&self) -> Option<T> {
        self.previous
    }

    /// Whether the value changed since it was last written out.
    pub closed spec fn spec_dirty(&self) -> bool {
        self.dirty
    }

    /// A store with an identifier (unique in its agent) and an initial value.
    pub fn new(id: u64, init: T) -> (res: Self)
        ensures
            res.spec_id() == id,
            res.spec_content() == init,
            res.spec_previous() is None,
            !res.spec_dirty(),
    {
        ValueStore { id, content: init, previous: None, dirty: false }
    }

    /// The identifier of the store.
    pub fn id(&self) -> (res: u64)
        ensures
            res == self.spec_id(),
    {
        self.id
    }

    /// Reads the value.
    pub fn read<F, R>(&self, f: F) -> (res: R)
        where
            F: FnOnce(&T) -> R,
        requires
            call_requires(f, (&self.spec_content(),)),
        ensures
            call_ensures(f, (&self.spec_content(),), res),
    {
        f(&self.content)
    }

    /// Reads the value with the one the last `set` replaced, which is
    /// consumed.
    pub fn read_with_prev<F, R>(&mut self, f: F) -> (res: R)
        where
            F: FnOnce(Option<T>, &T) -> R,
        requires
            call_requires(f, (old(self).spec_previous(), &old(self).spec_content())),
        ensures
            call_ensures(f, (old(self).spec_previous(), &old(self).spec_content()), res),
            final(self).spec_previous() is None,
            final(self).spec_content() == old(self).spec_content(),
            final(self).spec_id() == old(self).spec_id(),
            final(self).spec_dirty() == old(self).spec_dirty(),
    {
        let prev = self.previous.take();
        f(prev, &self.content)
    }

    /// Sets the value, keeps the one it replaced and marks the store as
    /// changed.
    pub fn set(&mut self, value: T)
        ensures
            final(self).spec_content() == value,
            final(self).spec_previous() == Some(old(self).spec_content()),
            final(self).spec_dirty(),
            final(self).spec_id() == old(self).spec_id(),
    {
        let mut prev = value;
        std::mem::swap(&mut self.content, &mut prev);
        self.previous = Some(prev);
        self.dirty = true;
    }

    /// Replaces the value when the store is initialized; nothing is marked
    /// as changed.
    pub fn init(&mut self, value: T)
        ensures
            final(self).spec_content() == value,
            final(self).spec_previous() == old(self).spec_previous(),
            final(self).spec_dirty() == old(self).spec_dirty(),
            final(self).spec_id() == old(self).spec_id(),
    {
        self.content = value;
    }

    /// Whether the value changed since it was last written out.
    pub fn has_data_to_write(&self) -> (res: bool)
        ensures
            res == self.spec_dirty(),
    {
        self.dirty
    }

    /// If the value changed since it was last written out, hands it to `f`,
    /// clears the mark and answers `true`; else answers `false` and does not
    /// call `f`.
    pub fn consume<F>(&mut self, f: F) -> (res: bool)
        where
            F: FnOnce(&T),
        requires
            call_requires(f, (&old(self).spec_content(),)),
        ensures
            res == old(self).spec_dirty(),
            res ==> call_ensures(f, (&old(self).spec_content(),), ()),
            !final(self).spec_dirty(),
            final(self).spec_content() == old(self).spec_content(),
            final(self).spec_previous() == old(self).spec_previous(),
            final(self).spec_id() == old(self).spec_id(),
    {
        if self.dirty {
            self.dirty = false;
            f(&self.content);
            true
        } else {
            false
        }
    }

    /// Writing the store out: when it changed, the value to write, and the
    /// mark is cleared; else nothing is to be written.
    pub fn write_out(&mut self) -> (res: Option<&T>)
        ensures
            old(self).spec_dirty() ==> res == Some(&old(self).spec_content()),
            !old(self).spec_dirty() ==> res is None,
            !final(self).spec_dirty(),
            final(self).spec_content() == old(self).spec_content(),
            final(self).spec_previous() == old(self).spec_previous(),
            final(self).spec_id() == old(self).spec_id(),
    {
        if self.dirty {
            self.dirty = false;
            Some(&self.content)
        } else {
            None
        }
    }
}

/// An error of an event handler.
#[derive(Debug, Clone, Copy, PartialEq, Eq, Structural)]
pub enum EventHandlerError {
    /// The handler was stepped after it had completed.
    SteppedAfterComplete,
}

/// The outcome of a step of an event handler: failure, or completion with
/// the store that was changed, if any, and the result.
#[derive(Debug, Clone, PartialEq, Eq)]
pub enum StepResult<R> {
    Fail(EventHandlerError),
    Complete { modified_item: Option<u64>, result: R },
}

/// A handler that reads the value of a store once.
#[derive(Debug, Clone, Copy, PartialEq, Eq, Structural)]
pub struct ValueStoreGet {
    pub done: bool,
}

impl ValueStoreGet {
    /// A handler that has not run yet.
    pub fn new() -> (res: Self)
        ensures
            !res.done,
    {
        ValueStoreGet { done: false }
    }

    /// Completes with a copy of the value; a second step fails.
    pub fn step<T: Clone>(&mut self, store: &ValueStore<T>) -> (res: StepResult<T>)
        ensures
            final(self).done,
            old(self).done ==> res == StepResult::<T>::Fail(EventHandlerError::SteppedAfterComplete),
            !old(self).done ==> (res matches StepResult::Complete { modified_item: None, result: v }
                && cloned(store.spec_content(), v)),
    {
        if self.done {
            StepResult::Fail(EventHandlerError::SteppedAfterComplete)
        } else {
            self.done = true;
            let value = store.content.clone();
            StepResult::Complete { modified_item: None, result: value }
        }
    }
}

/// A handler that sets the value of a store once.
#[derive(Debug)]
pub struct ValueStoreSet<T> {
    pub value: Option<T>,
}

impl<T> ValueStoreSet<T> {
    /// A handler that will set the given value.
    pub fn new(value: T) -> (res: Self)
        ensures
            res.value == Some(value),
    {
        ValueStoreSet { value: Some(value) }
    }

    /// Sets the value and completes, naming the store as changed; a second
    /// step fails.
    pub fn step(&mut self, store: &mut ValueStore<T>) -> (res: StepResult<()>)
        ensures
            final(self).value is None,
            match old(self).value {
                Some(v) => {
                    &&& res == StepResult::Complete { modified_item: Some(old(store).spec_id()), result: () }
                    &&& final(store).spec_content() == v
                    &&& final(store).spec_previous() == Some(old(store).spec_content())
                    &&& final(store).spec_dirty()
                    &&& final(store).spec_id() == old(store).spec_id()
                },
                None => res == StepResult::<()>::Fail(EventHandlerError::SteppedAfterComplete)
                    && *final(store) == *old(store),
            },
    {
        match self.value.take() {
            Some(value) => {
                store.set(value);
                StepResult::Complete { modified_item: Some(store.id()), result: () }
            },
            None => StepResult::Fail(EventHandlerError::SteppedAfterComplete),
        }
    }
}

} // verus!
