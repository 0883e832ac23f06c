//! An error kept whole beside its archived record.
use std::any::Any;
use std::sync::Arc;
use vstd::prelude::*;

verus! {

/// An error that a record kept whole when it archived it. The error's type is
/// forgotten: it is held behind a shared handle that may cross threads, and is
/// had back by asking for its type.
#[verifier::external_body]
pub struct Original {
    handle: Arc<dyn Any + Send + Sync>,
}

/// `Any::downcast_ref` on what the handle shares: the value, where it is a
/// `T`. Nothing is said of the answer here; `Original::retain` says what it is
/// on the handle that it makes.
#[verifier::external_body]
fn recover<T: 'static>(original: &Original) -> (found: Option<&T>) {
    original.handle.downcast_ref::<T>()
}

/// `Arc::clone` on the handle: one more handle to the same value, which
/// nothing tells from the first.
#[verifier::external_body]
fn share(original: &Original) -> (shared: Original)
    ensures
        shared == *original,
{
    Original { handle: original.handle.clone() }
}

impl Original {
    /// Whether asking `self` for a `T` can give `found`.
    pub closed spec fn yields<T: 'static>(&self, found: Option<&T>) -> bool {
        call_ensures(recover::<T>, (self,), found)
    }

    /// Whether `self` keeps `value`: asking `self` for a `T` can only give
    /// `value`.
    pub open spec fn holds<T: 'static>(&self, value: T) -> bool {
        forall|found: Option<&T>| #[trigger] self.yields(found) ==> found == Some(&value)
    }

    /// `Arc::new` on `value`, its type forgotten. The handle keeps `value`:
    /// whenever `Any::downcast_ref` asks it for a `T`, it gives `value`.
    #[verifier::external_body]
    pub(crate) fn retain<T: 'static + Send + Sync>(value: T) -> (original: Original)
        ensures
            original.holds(value),
    {
        Original { handle: Arc::new(value) }
    }

    /// The error that is kept, if it is a `T`.
    pub fn downcast_ref<T: 'static>(&self) -> (found: Option<&T>)
        ensures
            self.yields(found),
    {
        recover::<T>(self)
    }
}

impl Clone for Original {
    /// Another handle to the same error; the error itself is not copied.
    fn clone(&self) -> (copy: Original)
        ensures
            copy == *self,
    {
        share(self)
    }
}

} // verus!
