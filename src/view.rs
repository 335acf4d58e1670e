use vstd::prelude::*;

verus! {

/// A renderable value, wrapped so that its concrete type is kept.
pub struct View<T> {
    inner: T,
}

impl<T> View<T> {
    /// The value that this view renders.
    pub closed spec fn value(&self) -> T {
        self.inner
    }

    /// Wraps `inner` as a view.
    pub fn new(inner: T) -> (r: Self)
        ensures
            r.value() == inner,
    {
        View { inner }
    }

    /// Gives back the wrapped value.
    pub fn into_inner(self) -> (r: T)
        ensures
            r == self.value(),
    {
        self.inner
    }
}

/// Conversion of a value into a [`View`] of itself.
pub trait IntoView: Sized {
    /// Wraps `self` as a view; the view renders `self` unchanged.
    fn into_view(self) -> (r: View<Self>)
        ensures
            r.value() == self,
    ;
}

impl<T> IntoView for T {
    fn into_view(self) -> (r: View<T>) {
        View::new(self)
    }
}

} // verus!
