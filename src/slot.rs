use vstd::prelude::*;

verus! {

/// A one-shot ownership slot: it holds a value until that value is moved out,
/// and after that it stays empty, so "already taken" is a state one can test.
pub enum Slot<T> {
    Held(T),
    Taken,
}

impl<T> Slot<T> {
    /// Whether the value is still in the slot.
    pub fn is_held(&self) -> (r: bool)
        ensures
            r == (*self is Held),
    {
        match self {
            Slot::Held(_) => true,
            Slot::Taken => false,
        }
    }

    /// Moves the value out, leaving the slot empty; `None` when it was already empty.
    pub fn take(&mut self) -> (r: Option<T>)
        ensures
            *final(self) is Taken,
            match *old(self) {
                Slot::Held(v) => r == Some(v),
                Slot::Taken => r is None,
            },
    {
        let mut prev = Slot::Taken;
        core::mem::swap(self, &mut prev);
        match prev {
            Slot::Held(v) => Some(v),
            Slot::Taken => None,
        }
    }
}

} // verus!
