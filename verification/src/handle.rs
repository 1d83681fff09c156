//! Shared references to handlers and to the environment's services, as the
//! environment stores them and hands them on.

use vstd::prelude::*;

verus! {

/// A shared reference to a handler or to a services object. Handlers are
/// registered, and services handed to handlers, in this form.
pub struct Handle<'a, T: ?Sized + 'a>(pub &'a T);

impl<'a, T: ?Sized + 'a> Clone for Handle<'a, T> {
    fn clone(&self) -> (copy: Self)
        ensures
            copy == *self,
    {
        Handle(self.0)
    }
}

impl<'a, T: ?Sized + 'a> Copy for Handle<'a, T> {
}

} // verus!
