use vstd::prelude::*;
use core::mem::ManuallyDrop;
use core::ops::Deref;

verus! {

/// An item as an arena stores it. A `Dropped` item's destructor runs when the last
/// pointer to it is released; a `Kept` item's memory is freed then without running
/// its destructor.
#[derive(Hash)]
#[verifier::reject_recursive_types(T)]
pub enum Stored<T> {
    Dropped(T),
    Kept(ManuallyDrop<T>),
}

impl<T> Stored<T> {
    /// The stored value.
    pub open spec fn value(&self) -> T {
        match self {
            Stored::Dropped(v) => *v,
            Stored::Kept(m) => m@,
        }
    }

    /// Stores a value, to be dropped with its last pointer when `drop_value` holds.
    pub fn new(val: T, drop_value: bool) -> (r: Self)
        ensures
            r.value() == val,
            r is Dropped == drop_value,
    {
        if drop_value {
            Stored::Dropped(val)
        } else {
            Stored::Kept(ManuallyDrop::new(val))
        }
    }

    /// A reference to the stored value.
    pub fn get(&self) -> (r: &T)
        ensures
            *r == self.value(),
    {
        match self {
            Stored::Dropped(v) => v,
            Stored::Kept(m) => m.deref(),
        }
    }
}

} // verus!
