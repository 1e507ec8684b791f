//! What holds over a whole request: the sequences of extractions, hand-backs and the
//! middleware's final decision.
use vstd::prelude::*;

use crate::middleware::{finish_spec, Finish, Outcome};
use crate::tx::{after_begin, after_checkout, checkout, resolved, Checkout, TxState};

verus! {

/// One handle taken and dropped again: a lent transaction comes back as it was handed out.
pub open spec fn extract_and_drop<T>(s: TxState<T>) -> TxState<T> {
    match checkout(s) {
        Checkout::Lent(t) => TxState::Resident(t),
        _ => after_checkout(s),
    }
}

/// The state after `n` handles were taken and dropped one after another.
pub open spec fn extractions<T>(s: TxState<T>, n: nat) -> TxState<T>
    decreases n,
{
    if n == 0 {
        s
    } else {
        extract_and_drop(extractions(s, (n - 1) as nat))
    }
}

/// A request in which no handle is taken begins nothing, and the middleware commits
/// nothing whatever the response.
pub proof fn lemma_untouched_request_commits_nothing<T>(outcome: Outcome)
    ensures
        resolved(Some(TxState::<T>::Unbegun)) is None,
        !(finish_spec(Some(TxState::<T>::Unbegun), outcome) is Commit),
{
}

/// Once the first handle has begun transaction `t` and been dropped, however many handles
/// are then taken and dropped one after another (`n`), the next one is lent that same
/// transaction; none begins another.
pub proof fn lemma_sequential_extractions_share_one<T>(t: T, n: nat)
    ensures
        checkout(TxState::<T>::Unbegun) == Checkout::<T>::Begin,
        after_begin(TxState::<T>::Unbegun, Ok::<T, ()>(t)) == TxState::<T>::Out,
        extractions(TxState::Resident(t), n) == TxState::Resident(t),
        checkout(extractions(TxState::Resident(t), n)) == Checkout::Lent(t),
    decreases n,
{
    if n > 0 {
        lemma_sequential_extractions_share_one(t, (n - 1) as nat);
    }
}

/// While one handle is alive, taking a second one is refused as busy: both right after the
/// first handle was lent a resident transaction and right after it began a new one.
pub proof fn lemma_overlapping_handles_are_busy<T, E>(s: TxState<T>, t: T)
    ensures
        checkout(s) is Lent ==> checkout(after_checkout(s)) == Checkout::<T>::Busy,
        s is Unbegun ==> checkout(after_begin(s, Ok::<T, E>(t))) == Checkout::<T>::Busy,
{
}

/// The middleware commits exactly when the response is a success and a transaction came
/// back resident; after any other outcome it commits nothing.
pub proof fn lemma_commit_iff_success<T>(anchor: Option<TxState<T>>, outcome: Outcome)
    ensures
        finish_spec(anchor, outcome) is Commit <==> (outcome == Outcome::Responded { success: true }
            && resolved(anchor) is Some),
        outcome == (Outcome::Responded { success: false }) ==> finish_spec(anchor, outcome)
            == Finish::<T>::Release,
        finish_spec(anchor, outcome) matches Finish::Commit(t) ==> resolved(anchor) == Some(t),
{
}

/// After a handle committed its transaction explicitly, the transaction stays out: every
/// later extraction is refused as busy and the middleware commits nothing more.
pub proof fn lemma_explicit_commit_is_final<T>(n: nat, outcome: Outcome)
    ensures
        extractions(TxState::<T>::Out, n) == TxState::<T>::Out,
        checkout(extractions(TxState::<T>::Out, n)) == Checkout::<T>::Busy,
        !(finish_spec(Some(extractions(TxState::<T>::Out, n)), outcome) is Commit),
    decreases n,
{
    if n > 0 {
        lemma_explicit_commit_is_final::<T>((n - 1) as nat, outcome);
    }
}

} // verus!
