//! Declarations for the runtime handle types the coordinator owns.
//!
//! The coordinator stores one cancellation token per outstanding asynchronous
//! previewer run and one join handle per outstanding folder-load task. Both
//! types are opaque here: the library only stores them, and cancels or aborts
//! the one it removes before another is installed.

use vstd::prelude::*;

verus! {

#[verifier::external_type_specification]
#[verifier::external_body]
pub struct ExCancellationToken(tokio_util::sync::CancellationToken);

#[verifier::external_type_specification]
#[verifier::external_body]
#[verifier::reject_recursive_types(T)]
pub struct ExJoinHandle<T>(tokio::task::JoinHandle<T>);

#[verifier::external_type_specification]
#[verifier::external_body]
pub struct ExJoinError(tokio::task::JoinError);

/// Relies on tokio_util's `CancellationToken::cancel`: requests cancellation
/// of every task waiting on the token (and its children), returns nothing and
/// never panics.
pub assume_specification[ tokio_util::sync::CancellationToken::cancel ](
    ct: &tokio_util::sync::CancellationToken,
);

/// Relies on tokio's `JoinHandle::abort`: asks the runtime to stop the task
/// abruptly at its next suspension point, returns nothing and never panics.
pub assume_specification<T>[ tokio::task::JoinHandle::<T>::abort ](
    h: &tokio::task::JoinHandle<T>,
);

} // verus!
