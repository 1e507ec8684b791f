//! A single-owner cell whose value can be lent to one holder at a time.
use vstd::prelude::*;

verus! {

/// A cell holding at most one value. While the value is lent out through a [`Lease`] the
/// cell is empty, so a second lease cannot be taken.
pub struct Slot<T> {
    value: Option<T>,
}

/// Exclusive access to the value checked out of a [`Slot`].
///
/// A lease is either given back to the slot it came from ([`Slot::restore`]) or detached
/// for good ([`Lease::steal`]), after which that slot never holds a value again.
pub struct Lease<T> {
    value: T,
}

impl<T> View for Slot<T> {
    type V = Option<T>;

    /// The value resident in the slot; `None` while it is lent out or after it was stolen.
    closed spec fn view(&self) -> Option<T> {
        self.value
    }
}

impl<T> View for Lease<T> {
    type V = T;

    closed spec fn view(&self) -> T {
        self.value
    }
}

impl<T> Slot<T> {
    /// A slot holding `value`, with no lease outstanding.
    pub fn new(value: T) -> (s: Self)
        ensures
            s@ == Some(value),
    {
        Slot { value: Some(value) }
    }

    /// A slot whose value starts out lent: the slot is empty and the lease holds `value`.
    pub fn new_leased(value: T) -> (r: (Self, Lease<T>))
        ensures
            r.0@ is None,
            r.1@ == value,
    {
        (Slot { value: None }, Lease { value })
    }

    /// Whether the value is resident, so that a lease can be taken.
    pub fn is_resident(&self) -> (r: bool)
        ensures
            r == self@ is Some,
    {
        self.value.is_some()
    }

    /// Shared access to the resident value, if any.
    pub fn get(&self) -> (r: Option<&T>)
        ensures
            match self@ {
                Some(v) => r matches Some(x) && *x == v,
                None => r is None,
            },
    {
        self.value.as_ref()
    }

    /// Checks the value out. Fails when a lease is outstanding or the value was stolen.
    pub fn lease(&mut self) -> (r: Option<Lease<T>>)
        ensures
            match old(self)@ {
                Some(v) => r matches Some(l) && l@ == v && final(self)@ is None,
                None => r is None && final(self)@ is None,
            },
    {
        match self.value.take() {
            Some(value) => Some(Lease { value }),
            None => None,
        }
    }

    /// Gives a lease back to the slot it was taken from.
    pub fn restore(&mut self, lease: Lease<T>)
        requires
            old(self)@ is None,
        ensures
            final(self)@ == Some(lease@),
    {
        self.value = Some(lease.value);
    }

    /// Consumes the slot, yielding its resident value, if any.
    pub fn into_inner(self) -> (r: Option<T>)
        ensures
            r == self@,
    {
        self.value
    }
}

impl<T> Lease<T> {
    /// Detaches the leased value for good: its slot never receives it back.
    pub fn steal(self) -> (r: T)
        ensures
            r == self@,
    {
        self.value
    }

    /// Shared access to the leased value.
    pub fn as_ref(&self) -> (r: &T)
        ensures
            *r == self@,
    {
        &self.value
    }

    /// Exclusive access to the leased value; what is written through it stays in the lease.
    pub fn as_mut(&mut self) -> (r: &mut T)
        ensures
            *r == old(self)@,
            final(self)@ == *final(r),
    {
        &mut self.value
    }
}

} // verus!
