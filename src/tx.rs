//! The lazily begun transaction of one request, the anchor it returns to, and the handle
//! that handlers hold.
use vstd::prelude::*;

use sqlx::Error as DbError;

use crate::error::Error;
use crate::slot::{Lease, Slot};

verus! {

/// Where a request's transaction stands.
pub enum TxState<T> {
    /// No transaction has been begun on this request.
    Unbegun,
    /// A transaction was begun and is resident, ready to be handed out.
    Resident(T),
    /// A transaction was begun and is out: held by a live handle, or committed through one.
    Out,
}

/// What asking for the transaction in a given state yields.
pub enum Checkout<T> {
    /// Nothing was begun yet: the caller begins a transaction on the pool.
    Begin,
    /// The resident transaction is handed out.
    Lent(T),
    /// The transaction is out, so the request fails with `OverlappingExtractors`.
    Busy,
}

/// The state that the transaction's slot describes: `None` when nothing was begun.
pub open spec fn state_of<T>(begun: Option<Option<T>>) -> TxState<T> {
    match begun {
        None => TxState::Unbegun,
        Some(Some(t)) => TxState::Resident(t),
        Some(None) => TxState::Out,
    }
}

/// What asking for the transaction yields in state `s`.
pub open spec fn checkout<T>(s: TxState<T>) -> Checkout<T> {
    match s {
        TxState::Unbegun => Checkout::Begin,
        TxState::Resident(t) => Checkout::Lent(t),
        TxState::Out => Checkout::Busy,
    }
}

/// The state after asking for the transaction in state `s`.
pub open spec fn after_checkout<T>(s: TxState<T>) -> TxState<T> {
    match s {
        TxState::Resident(_) => TxState::Out,
        _ => s,
    }
}

/// The state after a transaction was begun (or failed to begin) from state `s`.
pub open spec fn after_begin<T, E>(s: TxState<T>, begun: Result<T, E>) -> TxState<T> {
    match begun {
        Ok(_) => TxState::Out,
        Err(_) => s,
    }
}

/// The transaction that a request ends with, given what its anchor received back:
/// `None` while the holder has not been returned, or when no transaction is resident.
pub open spec fn resolved<T>(anchor: Option<TxState<T>>) -> Option<T> {
    match anchor {
        Some(TxState::Resident(t)) => Some(t),
        _ => None,
    }
}

/// The extractor's handle on the request's transaction.
///
/// Dropping a handle gives the transaction back ([`Lazy::restore`] or
/// [`TxSlot::restore_tx`]); [`Tx::into_inner`] detaches it for an explicit commit.
pub struct Tx<T>(Lease<T>);

impl<T> View for Tx<T> {
    type V = T;

    closed spec fn view(&self) -> T {
        self.0@
    }
}

impl<T> Tx<T> {
    /// The extractor's first step, on the request storage's entry for the holder (`None`
    /// when the middleware was not installed). `Ok(None)` means that nothing was begun yet:
    /// the caller begins a transaction on the pool and passes it to [`Lazy::begun`].
    pub fn from_request<P>(entry: &mut Option<Lazy<P, T>>) -> (r: Result<Option<Tx<T>>, Error>)
        ensures
            match *old(entry) {
                None => r matches Err(Error::MissingExtension) && *final(entry) is None,
                Some(lazy) => *final(entry) matches Some(l) && l.state() == after_checkout(
                    lazy.state(),
                ) && l.pool_spec() == lazy.pool_spec() && match checkout(lazy.state()) {
                    Checkout::Begin => r matches Ok(None),
                    Checkout::Lent(t) => r matches Ok(Some(tx)) && tx@ == t,
                    Checkout::Busy => r matches Err(Error::OverlappingExtractors),
                },
            },
    {
        match entry {
            Some(lazy) => lazy.get_or_begin(),
            None => Err(Error::MissingExtension),
        }
    }

    /// Detaches the transaction for good, so that it can be committed now. The request's
    /// slot never holds it again: later extractions fail and the middleware commits nothing.
    pub fn into_inner(self) -> (r: T)
        ensures
            r == self@,
    {
        self.0.steal()
    }

    /// Shared access to the transaction.
    pub fn as_ref(&self) -> (r: &T)
        ensures
            *r == self@,
    {
        self.0.as_ref()
    }

    /// Exclusive access to the transaction, to run queries on it.
    pub fn as_mut(&mut self) -> (r: &mut T)
        ensures
            *r == old(self)@,
            final(self)@ == *final(r),
    {
        self.0.as_mut()
    }
}

/// The lazily begun transaction of a request, kept in the request's storage together with
/// the pool that begins it.
///
/// It holds the lease on the request's anchor: whatever it has begun returns to the
/// anchor when it is given back ([`TxSlot::restore`]).
pub struct Lazy<P, T> {
    pool: P,
    tx: Lease<Option<Slot<T>>>,
}

impl<P, T> Lazy<P, T> {
    /// Where this request's transaction stands.
    pub closed spec fn state(&self) -> TxState<T> {
        state_of(
            match self.tx@ {
                None => None,
                Some(slot) => Some(slot@),
            },
        )
    }

    /// The pool that transactions are begun on.
    pub closed spec fn pool_spec(&self) -> P {
        self.pool
    }

    /// The pool that transactions are begun on.
    pub fn pool(&self) -> (r: &P)
        ensures
            *r == self.pool_spec(),
    {
        &self.pool
    }

    /// Whether a transaction has been begun on this request.
    pub fn is_begun(&self) -> (r: bool)
        ensures
            r == !(self.state() is Unbegun),
    {
        self.tx.as_ref().is_some()
    }

    /// Whether a handle is out, so that it can be given back here.
    pub fn is_out(&self) -> (r: bool)
        ensures
            r == self.state() is Out,
    {
        match self.tx.as_ref() {
            Some(slot) => !slot.is_resident(),
            None => false,
        }
    }

    /// Hands out the transaction when one was begun and is resident. `Ok(None)` means that
    /// none was begun yet: the caller begins one on the pool and passes it to [`Lazy::begun`].
    pub fn get_or_begin(&mut self) -> (r: Result<Option<Tx<T>>, Error>)
        ensures
            final(self).state() == after_checkout(old(self).state()),
            final(self).pool_spec() == old(self).pool_spec(),
            match checkout(old(self).state()) {
                Checkout::Begin => r matches Ok(None),
                Checkout::Lent(t) => r matches Ok(Some(tx)) && tx@ == t,
                Checkout::Busy => r matches Err(Error::OverlappingExtractors),
            },
    {
        match self.tx.as_mut() {
            None => Ok(None),
            Some(slot) => match slot.lease() {
                Some(lease) => Ok(Some(Tx(lease))),
                None => Err(Error::OverlappingExtractors),
            },
        }
    }

    /// Takes the outcome of beginning a transaction on the pool: a new transaction is kept
    /// for the rest of the request and handed out; a failure is passed on.
    pub fn begun(&mut self, begun: Result<T, DbError>) -> (r: Result<Tx<T>, Error>)
        requires
            old(self).state() is Unbegun,
        ensures
            final(self).state() == after_begin(old(self).state(), begun),
            final(self).pool_spec() == old(self).pool_spec(),
            match begun {
                Ok(t) => r matches Ok(tx) && tx@ == t,
                Err(e) => r == Err::<Tx<T>, Error>(Error::Database { error: e }),
            },
    {
        match begun {
            Ok(t) => {
                let (slot, lease) = Slot::new_leased(t);
                *self.tx.as_mut() = Some(slot);
                Ok(Tx(lease))
            },
            Err(e) => Err(Error::Database { error: e }),
        }
    }

    /// Gives a dropped handle's transaction back, to be handed out again.
    pub fn restore(&mut self, tx: Tx<T>)
        requires
            old(self).state() is Out,
        ensures
            final(self).state() == TxState::Resident(tx@),
            final(self).pool_spec() == old(self).pool_spec(),
    {
        match self.tx.as_mut() {
            Some(slot) => slot.restore(tx.0),
            None => {},
        }
    }
}

/// The request's anchor: the slot that the lazily begun transaction returns to when the
/// request's storage gives back its [`Lazy`], whether or not any handler used it.
pub struct TxSlot<T>(Slot<Option<Slot<T>>>);

impl<T> TxSlot<T> {
    /// What the anchor holds: `None` while the [`Lazy`] is out, else the state it came
    /// back in.
    pub closed spec fn anchor(&self) -> Option<TxState<T>> {
        match self.0@ {
            None => None,
            Some(begun) => Some(
                state_of(
                    match begun {
                        None => None,
                        Some(slot) => Some(slot@),
                    },
                ),
            ),
        }
    }

    /// Creates the anchor of a new request, and the holder that the request's storage keeps,
    /// which begins transactions on `pool`. Nothing is begun yet.
    pub fn bind<P>(pool: P) -> (r: (TxSlot<T>, Lazy<P, T>))
        ensures
            r.0.anchor() is None,
            r.1.state() is Unbegun,
            r.1.pool_spec() == pool,
    {
        let (slot, tx) = Slot::new_leased(None);
        (TxSlot(slot), Lazy { pool, tx })
    }

    /// Whether the [`Lazy`] is out, so that it can be given back here.
    pub fn is_lent(&self) -> (r: bool)
        ensures
            r == self.anchor() is None,
    {
        !self.0.is_resident()
    }

    /// Whether a handle is out after the [`Lazy`] came back, so that the handle can be given
    /// back here.
    pub fn is_tx_out(&self) -> (r: bool)
        ensures
            r == (self.anchor() == Some(TxState::<T>::Out)),
    {
        match self.0.get() {
            Some(begun) => match begun {
                Some(slot) => !slot.is_resident(),
                None => false,
            },
            None => false,
        }
    }

    /// Takes the holder back from the request's storage when that storage is torn down.
    pub fn restore<P>(&mut self, lazy: Lazy<P, T>)
        requires
            old(self).anchor() is None,
        ensures
            final(self).anchor() == Some(lazy.state()),
    {
        self.0.restore(lazy.tx);
    }

    /// Takes back a handle that outlived the request's storage.
    pub fn restore_tx(&mut self, tx: Tx<T>)
        requires
            old(self).anchor() == Some(TxState::<T>::Out),
        ensures
            final(self).anchor() == Some(TxState::Resident(tx@)),
    {
        match self.0.lease() {
            Some(mut begun) => {
                match begun.as_mut() {
                    Some(slot) => slot.restore(tx.0),
                    None => {},
                }
                self.0.restore(begun);
            },
            None => {},
        }
    }

    /// Consumes the anchor, yielding the transaction to commit: the one that came back
    /// resident, if any.
    pub fn into_transaction(self) -> (r: Option<T>)
        ensures
            r == resolved(self.anchor()),
    {
        match self.0.into_inner() {
            Some(Some(slot)) => slot.into_inner(),
            _ => None,
        }
    }
}

} // verus!
