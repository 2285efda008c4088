use vstd::prelude::*;
use core::future::Future;
use core::pin::Pin;
use std::boxed::Box;

verus! {

/// A task's future, pinned on the heap and erased to a trait object.
///
/// Verus cannot hold a `dyn Future` in a verified type, so the pinned box
/// lives in this opaque holder: the library carries it, it never looks
/// inside, and the runtime polls `pinned`.
#[verifier::external_body]
pub struct TaskFuture {
    pub pinned: Pin<Box<dyn Future<Output = i32> + 'static + Send>>,
}

/// Calls `Box::pin` on the future and erases its type; nothing is stated of
/// the result, which only carries the future along.
#[verifier::external_body]
pub(crate) fn pin_future<T: Future<Output = i32> + 'static + Send>(fut: T) -> TaskFuture {
    TaskFuture { pinned: Box::pin(fut) }
}

} // verus!
