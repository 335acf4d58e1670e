use leptos_children::{IntoView, SharedChildren, ToChildren, TypedChildren, View};

#[test]
fn view_keeps_its_value() {
    let v = View::new(42u32);
    assert_eq!(v.into_inner(), 42);
}

#[test]
fn into_view_wraps_the_value_unchanged() {
    let v = String::from("Foo").into_view();
    assert_eq!(v.into_inner(), "Foo");
}

#[test]
fn typed_children_yield_the_closure_value() {
    let children: TypedChildren<u8> = TypedChildren::to_children(|| 7u8);
    let run = children.into_inner();
    assert_eq!(run().into_inner(), 7);
}

#[test]
fn typed_children_run_a_moved_closure_once() {
    let text = String::from("moved into the closure");
    let children: TypedChildren<String> = TypedChildren::to_children(move || text);
    let run = children.into_inner();
    assert_eq!(run().into_inner(), "moved into the closure");
}

#[test]
fn typed_children_keep_a_tuple_view_type() {
    let children: TypedChildren<(u8, &'static str)> =
        ToChildren::to_children(|| (1u8, "p"));
    let view: View<(u8, &'static str)> = (children.into_inner())();
    assert_eq!(view.into_inner(), (1, "p"));
}

#[test]
fn typed_children_are_equivalent_to_calling_the_closure() {
    let make = |n: u64| move || n * 3;
    let direct = make(5)();
    let children: TypedChildren<u64> = TypedChildren::to_children(make(5));
    assert_eq!((children.into_inner())().into_inner(), direct);
}

#[test]
fn typed_children_do_not_run_the_closure_before_called() {
    let counter = std::rc::Rc::new(std::cell::Cell::new(0u32));
    let seen = counter.clone();
    let children: TypedChildren<u32> = TypedChildren::to_children(move || {
        seen.set(seen.get() + 1);
        seen.get()
    });
    assert_eq!(counter.get(), 0);
    let run = children.into_inner();
    assert_eq!(counter.get(), 0);
    assert_eq!(run().into_inner(), 1);
    assert_eq!(counter.get(), 1);
}

#[test]
fn shared_children_yield_the_closure_value() {
    let children: SharedChildren<u8> = SharedChildren::to_children(|| 7u8);
    assert_eq!(children.call().into_inner(), 7);
}

#[test]
fn shared_children_can_be_called_repeatedly() {
    let children: SharedChildren<&'static str> = ToChildren::to_children(|| "Foo");
    assert_eq!(children.call().into_inner(), "Foo");
    assert_eq!(children.call().into_inner(), "Foo");
    assert_eq!(children.call().into_inner(), "Foo");
}

#[test]
fn shared_children_rerun_the_closure_on_each_call() {
    let counter = std::rc::Rc::new(std::cell::Cell::new(0u32));
    let seen = counter.clone();
    let children: SharedChildren<u32> = SharedChildren::to_children(move || {
        seen.set(seen.get() + 1);
        seen.get()
    });
    assert_eq!(counter.get(), 0);
    assert_eq!(children.call().into_inner(), 1);
    assert_eq!(children.call().into_inner(), 2);
    assert_eq!(children.call().into_inner(), 3);
    assert_eq!(counter.get(), 3);
}

#[test]
fn shared_children_are_equivalent_to_calling_the_closure() {
    let make = |n: u64| move || n + 10;
    let direct = make(32)();
    let children: SharedChildren<u64> = SharedChildren::to_children(make(32));
    assert_eq!(children.call().into_inner(), direct);
    assert_eq!(children.call().into_inner(), direct);
}
