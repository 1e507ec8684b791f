//! Request-scoped database transactions: a transaction is begun the first time a handler asks
//! for it, reused for the rest of the request, and committed only when the response succeeds.
//!
//! - [`slot`]: a single-owner cell whose value is lent to one holder at a time.
//! - [`tx`]: the lazily begun transaction, the request's anchor, and the handlers' handle.
//! - [`middleware`]: how a request's transaction ends once the response is known.
//! - [`lifecycle`]: what holds over a whole request.
pub mod error;
pub mod lifecycle;
pub mod middleware;
pub mod slot;
pub mod tx;
