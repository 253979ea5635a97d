//! The table from handles to owned values.
use std::collections::BTreeMap;
use vstd::prelude::*;

verus! {

/// Why a table operation was refused.
#[derive(Clone, Copy, Debug, PartialEq, Eq, Structural)]
pub enum RegistryError {
    /// No entry stands under the handle.
    UnknownHandle,
    /// An entry already stands under the handle.
    DuplicateHandle,
}

/// A table that owns one value per handle.
pub struct Registry<T> {
    table: BTreeMap<usize, T>,
}

impl<T> View for Registry<T> {
    type V = Map<usize, T>;

    closed spec fn view(&self) -> Map<usize, T> {
        self.table@
    }
}

impl<T> Registry<T> {
    /// The empty table.
    pub fn new() -> (registry: Registry<T>)
        ensures
            registry@ == Map::<usize, T>::empty(),
    {
        Registry { table: BTreeMap::new() }
    }

    /// Whether an entry stands under `handle`.
    pub fn contains(&self, handle: usize) -> (b: bool)
        ensures
            b == self@.contains_key(handle),
    {
        self.table.contains_key(&handle)
    }

    /// Puts `value` under `handle`. A handle that is already taken is refused
    /// and the table stays as it was.
    pub fn insert(&mut self, handle: usize, value: T) -> (res: Result<(), RegistryError>)
        ensures
            old(self)@.contains_key(handle) ==> res == Err::<(), RegistryError>(
                RegistryError::DuplicateHandle,
            ) && final(self)@ == old(self)@,
            !old(self)@.contains_key(handle) ==> res is Ok && final(self)@ == old(self)@.insert(
                handle,
                value,
            ),
    {
        if self.table.contains_key(&handle) {
            Err(RegistryError::DuplicateHandle)
        } else {
            self.table.insert(handle, value);
            Ok(())
        }
    }

    /// Borrows the value under `handle`; the table keeps it.
    pub fn lookup(&self, handle: usize) -> (res: Result<&T, RegistryError>)
        ensures
            match res {
                Ok(value) => self@.contains_key(handle) && *value == self@[handle],
                Err(e) => !self@.contains_key(handle) && e == RegistryError::UnknownHandle,
            },
    {
        match self.table.get(&handle) {
            Some(value) => Ok(value),
            None => Err(RegistryError::UnknownHandle),
        }
    }

    /// Takes the value under `handle` out of the table and hands it to the
    /// caller. An unknown handle is refused and the table stays as it was.
    pub fn remove(&mut self, handle: usize) -> (res: Result<T, RegistryError>)
        ensures
            match res {
                Ok(value) => old(self)@.contains_key(handle) && value == old(self)@[handle]
                    && final(self)@ == old(self)@.remove(handle),
                Err(e) => !old(self)@.contains_key(handle) && e == RegistryError::UnknownHandle
                    && final(self)@ == old(self)@,
            },
    {
        match self.table.remove(&handle) {
            Some(value) => Ok(value),
            None => Err(RegistryError::UnknownHandle),
        }
    }
}

} // verus!
