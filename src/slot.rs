use vstd::prelude::*;

verus! {

/// A slot that is filled once and then only read: the place where the open
/// connection is kept for the rest of the application.
pub struct SharedSlot<T> {
    value: Option<T>,
}

impl<T> View for SharedSlot<T> {
    type V = Option<T>;

    closed spec fn view(&self) -> Option<T> {
        self.value
    }
}

impl<T> SharedSlot<T> {
    /// An empty slot.
    pub fn new() -> (r: Self)
        ensures
            r@ is None,
    {
        SharedSlot { value: None }
    }

    /// Whether the slot has been filled.
    pub fn is_filled(&self) -> (r: bool)
        ensures
            r == self@ is Some,
    {
        self.value.is_some()
    }

    /// Fills an empty slot with `v`; a filled slot is left as it is and `v`
    /// is handed back.
    pub fn fill(&mut self, v: T) -> (r: Result<(), T>)
        ensures
            old(self)@ is None ==> r is Ok && final(self)@ == Some(v),
            old(self)@ is Some ==> r == Err::<(), T>(v) && final(self)@ == old(self)@,
    {
        if self.value.is_some() {
            Err(v)
        } else {
            self.value = Some(v);
            Ok(())
        }
    }

    /// What the slot holds, if it has been filled.
    pub fn get(&self) -> (r: Option<&T>)
        ensures
            r matches Some(x) ==> self@ == Some(*x),
            r is None ==> self@ is None,
    {
        match &self.value {
            Some(x) => Some(x),
            None => None,
        }
    }
}

} // verus!
