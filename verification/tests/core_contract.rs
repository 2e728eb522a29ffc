use pinned_aliasable::boxed;
use pinned_aliasable::inline::Aliasable as InlineAliasable;
use pinned_aliasable::round_trip;
use pinned_aliasable::Aliasable;

/// Payload that counts how many times its destruction logic runs.
struct Noisy {
    drops: std::rc::Rc<std::cell::Cell<u32>>,
}

impl Drop for Noisy {
    fn drop(&mut self) {
        self.drops.set(self.drops.get() + 1);
    }
}

#[test]
fn round_trip_integer() {
    assert_eq!(Aliasable::new(7u64).into_inner(), 7u64);
}

#[test]
fn round_trip_string() {
    let v = String::from("payload");
    assert_eq!(Aliasable::new(v.clone()).into_inner(), v);
}

#[test]
fn round_trip_law_fn() {
    assert_eq!(round_trip(vec![1u8, 2, 3]), vec![1u8, 2, 3]);
}

#[test]
fn get_observes_wrapped_value() {
    let c = Aliasable::new(41i32);
    assert_eq!(*c.get(), 41);
    let b = boxed::Aliasable::new(42i32);
    assert_eq!(*b.get(), 42);
    let i = InlineAliasable::new(43i32);
    assert_eq!(*i.get(), 43);
}

#[test]
fn stability_under_relocation() {
    let c = boxed::Aliasable::new(String::from("stable"));
    let before = c.get().clone();
    let moved = boxed::relocate(c);
    assert_eq!(*moved.get(), before);
    let mut shelf: Vec<boxed::Aliasable<String>> = Vec::new();
    shelf.push(moved);
    assert_eq!(*shelf[0].get(), before);
}

#[test]
fn single_release_on_drop() {
    let drops = std::rc::Rc::new(std::cell::Cell::new(0u32));
    let c = Aliasable::new(Noisy { drops: std::rc::Rc::clone(&drops) });
    assert_eq!(drops.get(), 0);
    drop(c);
    assert_eq!(drops.get(), 1);

    let drops_boxed = std::rc::Rc::new(std::cell::Cell::new(0u32));
    let b = boxed::Aliasable::new(Noisy { drops: std::rc::Rc::clone(&drops_boxed) });
    assert_eq!(drops_boxed.get(), 0);
    drop(b);
    assert_eq!(drops_boxed.get(), 1);

    let drops_inline = std::rc::Rc::new(std::cell::Cell::new(0u32));
    let i = InlineAliasable::new(Noisy { drops: std::rc::Rc::clone(&drops_inline) });
    assert_eq!(drops_inline.get(), 0);
    drop(i);
    assert_eq!(drops_inline.get(), 1);
}

#[test]
fn into_inner_defers_release_to_payload() {
    let drops = std::rc::Rc::new(std::cell::Cell::new(0u32));
    let c = Aliasable::new(Noisy { drops: std::rc::Rc::clone(&drops) });
    let payload = c.into_inner();
    assert_eq!(drops.get(), 0);
    drop(payload);
    assert_eq!(drops.get(), 1);
}

#[test]
fn default_wraps_payload_default() {
    let c: Aliasable<u64> = Default::default();
    assert_eq!(c.into_inner(), 0u64);
    let b: boxed::Aliasable<String> = Default::default();
    assert_eq!(*b.get(), String::new());
    let i: InlineAliasable<bool> = Default::default();
    assert_eq!(*i.get(), false);
}

#[test]
fn debug_label_is_payload_independent() {
    let a = Aliasable::new(5u8);
    let b = Aliasable::new(String::from("anything"));
    assert_eq!(a.debug_label(), "Aliasable");
    assert_eq!(a.debug_label(), b.debug_label());
    assert_eq!(boxed::Aliasable::new(1i8).debug_label(), "Aliasable");
    assert_eq!(InlineAliasable::new(1i8).debug_label(), "Aliasable");
}
