use vstd::prelude::*;

verus! {

/// Runs a computation that consumes itself, whether it sits in place or in a box.
pub trait Callback: Sized {
    /// The computation may be run now.
    spec fn ready(&self) -> bool;

    /// The computation has run to completion.
    spec fn completed(&self) -> bool;

    /// Moves the computation out of the storage that held it and runs it.
    fn copy_and_call(self)
        requires
            self.ready(),
        ensures
            self.completed(),
    ;

    /// Takes the computation out of its box, frees the box, and runs it.
    fn call_box(self: Box<Self>)
        requires
            self.ready(),
        ensures
            self.completed(),
    ;
}

impl<F: FnOnce() + Send + 'static> Callback for F {
    open spec fn ready(&self) -> bool {
        call_requires(*self, ())
    }

    open spec fn completed(&self) -> bool {
        call_ensures(*self, (), ())
    }

    fn copy_and_call(self) {
        self()
    }

    fn call_box(self: Box<Self>) {
        let f: Self = *self;
        f()
    }
}

} // verus!
