use std::hash::{Hash, Hasher};
use plinth::dpi::{ImageRect, WindowRect, WindowSize};
use plinth::event_loop::WindowSlots;
use plinth::limits::{WindowTitle, SYS_WINDOW_TITLE_LENGTH_MAX};
use plinth::string::{HashedStr, StaticStr};
use plinth::window::WindowError;

#[test]
fn hashed_strings_use_fnv1a() {
    assert_eq!(HashedStr::from("").hash, 0xcbf29ce484222325);
    assert_eq!(HashedStr::from("a").hash, 0xaf63dc4c8601ec8c);
    assert_eq!(HashedStr::from("foobar").hash, 0x85944171f73967e8);
    assert_eq!(HashedStr::from("foobar").as_str(), "foobar");
    assert!(HashedStr::from("foobar") == HashedStr::from("foobar"));
    assert!(HashedStr::from("foo") != HashedStr::from("bar"));
}

#[test]
fn static_strings_compare_by_bytes() {
    let a = StaticStr::new("alpha");
    assert_eq!(a.hash, HashedStr::from("alpha").hash);
    assert!(a == StaticStr::new("alpha"));
    assert_eq!(a.hash, StaticStr::new("alpha").hash);
    assert!(a != StaticStr::new("alphb"));
    assert!(a != StaticStr::new("alph"));
}

#[test]
fn titles_are_cut_to_the_limit() {
    let short = WindowTitle::new("hello");
    assert_eq!(short.as_str(), "hello");
    assert!(short.limit_check());
    let long = "y".repeat(300);
    let t = WindowTitle::new(&long);
    assert_eq!(t.as_str().len(), SYS_WINDOW_TITLE_LENGTH_MAX);
    assert!(t.limit_check());
    assert_eq!(WindowTitle::min(), 0);
    assert_eq!(WindowTitle::max(), 255);
    let mut raw = WindowTitle { title: &long };
    assert!(!raw.limit_check());
    raw.clamp();
    assert!(raw.limit_check());
    assert_eq!(raw.as_str(), &long[..255]);
}

#[test]
fn window_slots_fill_and_free() {
    let mut slots = WindowSlots::new();
    assert_eq!(slots.count_open(), 0);
    let i = slots.free_slot().unwrap();
    assert_eq!(i, 0);
    slots.occupy(i, 100);
    assert_eq!(slots.position(100), Some(0));
    assert_eq!(slots.free_slot(), Ok(1));
    for k in 1..8 {
        slots.occupy(k, 100 + k as isize);
    }
    assert_eq!(slots.count_open(), 8);
    assert_eq!(slots.free_slot(), Err(WindowError::TooManyWindows));
    slots.release(3);
    assert_eq!(slots.free_slot(), Ok(3));
    assert_eq!(slots.position(103), None);
    assert_eq!(slots.count_open(), 7);
}

#[test]
fn window_rectangles() {
    let r = WindowSize { width: 30, height: 40 }.into_rect();
    assert_eq!(r, WindowRect { x: 0, y: 0, width: 30, height: 40 });
    assert_eq!(r.to_image_rect(), ImageRect { x: 0, y: 0, width: 30, height: 40 });
    assert_eq!(WindowSize::max(), WindowSize { width: i32::MAX, height: i32::MAX });
}

#[test]
fn hashed_strings_order_as_their_strings() {
    let a = HashedStr::from("apple");
    let b = HashedStr::from("banana");
    let ab = HashedStr::from("ap");
    assert!(a < b);
    assert!(b > a);
    assert!(ab < a);
    assert_eq!(a.partial_cmp(&a), Some(std::cmp::Ordering::Equal));
    assert_eq!(b.partial_cmp(&a), Some(std::cmp::Ordering::Greater));
    assert_eq!(HashedStr::from("").partial_cmp(&ab), Some(std::cmp::Ordering::Less));
}

#[test]
fn hashed_strings_read_as_str() {
    let h = HashedStr::from("hello");
    assert_eq!(h.len(), 5);
    assert!(h.starts_with("he"));
    assert_eq!(&*h, "hello");
}

#[test]
fn static_strings_hash_only_their_hash() {
    let a = StaticStr::new("alpha");
    let mut h1 = std::collections::hash_map::DefaultHasher::new();
    a.hash(&mut h1);
    let mut h2 = std::collections::hash_map::DefaultHasher::new();
    a.hash.hash(&mut h2);
    assert_eq!(h1.finish(), h2.finish());
    let forged = StaticStr { hash: a.hash, string: "other" };
    let mut h3 = std::collections::hash_map::DefaultHasher::new();
    forged.hash(&mut h3);
    assert_eq!(h1.finish(), h3.finish());
}
