use vstd::prelude::*;

use crate::view::{IntoView, View};

verus! {

/// Converts a value, generally a closure, into a children type, so that a
/// caller need not know which children type a component expects.
pub trait ToChildren<F>: Sized {
    /// Converts `f` into `Self`.
    fn to_children(f: F) -> Self;
}

/// A producer of one view, consumed by the single call that produces it.
trait OnceSource<T> {
    /// Whether the call may be made.
    spec fn ready(&self) -> bool;

    /// Whether `v` is a view that the call may return.
    spec fn yields(&self, v: View<T>) -> bool;

    fn produce(self: Box<Self>) -> (r: View<T>)
        requires
            self.ready(),
        ensures
            self.yields(r),
    ;
}

/// A closure returning a value that converts into a view.
struct ViewClosure<F> {
    f: F,
}

impl<C: IntoView, F: FnOnce() -> C> OnceSource<C> for ViewClosure<F> {
    closed spec fn ready(&self) -> bool {
        call_requires(self.f, ())
    }

    closed spec fn yields(&self, v: View<C>) -> bool {
        call_ensures(self.f, (), v.value())
    }

    fn produce(self: Box<Self>) -> (r: View<C>) {
        let c = *self;
        let value = (c.f)();
        value.into_view()
    }
}

/// A producer of views that can be called any number of times, each call
/// producing a new view.
trait ManySource<T> {
    /// Whether a call may be made.
    spec fn ready(&self) -> bool;

    /// Whether `v` is a view that a call may return.
    spec fn yields(&self, v: View<T>) -> bool;

    fn produce(&self) -> (r: View<T>)
        requires
            self.ready(),
        ensures
            self.yields(r),
    ;
}

/// A closure that can be called repeatedly, returning a value that converts
/// into a view.
struct RepeatClosure<F> {
    f: F,
}

impl<C: IntoView, F: Fn() -> C> ManySource<C> for RepeatClosure<F> {
    closed spec fn ready(&self) -> bool {
        call_requires(self.f, ())
    }

    closed spec fn yields(&self, v: View<C>) -> bool {
        call_ensures(self.f, (), v.value())
    }

    fn produce(&self) -> (r: View<C>) {
        let value = (self.f)();
        value.into_view()
    }
}

/// Children that can be called more than once. Each call runs the closure
/// again and produces a view of its own.
#[verifier::reject_recursive_types(T)]
pub struct SharedChildren<T> {
    source: Box<dyn ManySource<T>>,
}

impl<T> SharedChildren<T> {
    /// Whether the children may be called.
    pub closed spec fn ready(&self) -> bool {
        self.source.ready()
    }

    /// Whether `v` is a view that a call of the children may return.
    pub closed spec fn yields(&self, v: View<T>) -> bool {
        self.source.yields(v)
    }

    /// Runs the children once more. They are left as they were, so they
    /// stay ready for the next call.
    pub fn call(&self) -> (r: View<T>)
        requires
            self.ready(),
        ensures
            self.yields(r),
    {
        self.source.produce()
    }
}

impl<F, C> ToChildren<F> for SharedChildren<C> where F: Fn() -> C + 'static, C: IntoView {
    /// Wraps `f` without calling it: the children may be called exactly when
    /// `f` may, and each call produces the view of a value that `f` may
    /// return.
    fn to_children(f: F) -> (r: Self)
        ensures
            r.ready() <==> call_requires(f, ()),
            forall|v: View<C>| r.yields(v) <==> call_ensures(f, (), v.value()),
    {
        let c = RepeatClosure { f };
        let r = SharedChildren { source: Box::new(c) };
        assert(r.source.ready() == c.ready());
        r
    }
}

/// Children that keep the type of the view they produce, so that the view
/// can be optimized by its concrete type. They can be called once.
#[verifier::reject_recursive_types(T)]
pub struct TypedChildren<T> {
    source: Box<dyn OnceSource<T>>,
}

impl<T> TypedChildren<T> {
    /// Whether the children may be called.
    pub closed spec fn ready(&self) -> bool {
        self.source.ready()
    }

    /// Whether `v` is a view that calling the children may return.
    pub closed spec fn yields(&self, v: View<T>) -> bool {
        self.source.yields(v)
    }

    /// Gives back the function that produces the view. It may be called
    /// whenever the children may be, and returns only what they may return.
    pub fn into_inner(self) -> (r: impl FnOnce() -> View<T>)
        ensures
            self.ready() ==> call_requires(r, ()),
            forall|v: View<T>| call_ensures(r, (), v) ==> self.yields(v),
    {
        let source = self.source;
        move || -> (v: View<T>)
            requires
                source.ready(),
            ensures
                source.yields(v),
        { source.produce() }
    }
}

impl<F, C> ToChildren<F> for TypedChildren<C> where F: FnOnce() -> C + 'static, C: IntoView {
    /// Wraps `f` without calling it: the children may be called exactly
    /// when `f` may, and produce the view of a value that `f` may return.
    fn to_children(f: F) -> (r: Self)
        ensures
            r.ready() <==> call_requires(f, ()),
            forall|v: View<C>| r.yields(v) <==> call_ensures(f, (), v.value()),
    {
        let c = ViewClosure { f };
        let r = TypedChildren { source: Box::new(c) };
        assert(r.source.ready() == c.ready());
        r
    }
}

/// Converting a closure into typed children and calling the function that
/// they give back is the same as calling the closure: the call may be made
/// whenever the closure may be called, and each view it returns renders a
/// value that the closure may return.
pub proof fn lemma_typed_children_transparent<F, C, G>(f: F, c: TypedChildren<C>, g: G) where
    F: FnOnce() -> C,
    G: FnOnce() -> View<C>,

    requires
        c.ready() <==> call_requires(f, ()),
        forall|v: View<C>| c.yields(v) <==> call_ensures(f, (), v.value()),
        c.ready() ==> call_requires(g, ()),
        forall|v: View<C>| call_ensures(g, (), v) ==> c.yields(v),
    ensures
        call_requires(f, ()) ==> call_requires(g, ()),
        forall|v: View<C>| call_ensures(g, (), v) ==> call_ensures(f, (), v.value()),
{
    assert forall|v: View<C>| call_ensures(g, (), v) implies call_ensures(f, (), v.value()) by {
        assert(c.yields(v));
    }
}

} // verus!
