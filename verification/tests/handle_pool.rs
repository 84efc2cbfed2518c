use plinth::handle_pool::{Handle, HandlePool};

#[test]
fn insert() {
    let mut pool = HandlePool::<u32, 4>::new();

    let (h0, _) = pool.insert(0).unwrap();
    let (h1, _) = pool.insert(1).unwrap();
    let (h2, _) = pool.insert(2).unwrap();
    let (h3, _) = pool.insert(3).unwrap();

    assert_eq!(pool.get(h0), Some(&0));
    assert_eq!(pool.get(h1), Some(&1));
    assert_eq!(pool.get(h2), Some(&2));
    assert_eq!(pool.get(h3), Some(&3));

    assert_eq!(pool.get_mut(h0), Some(&mut 0));
    assert_eq!(pool.get_mut(h1), Some(&mut 1));
    assert_eq!(pool.get_mut(h2), Some(&mut 2));
    assert_eq!(pool.get_mut(h3), Some(&mut 3));
}

#[test]
fn iter() {
    let mut pool = HandlePool::<u32, 4>::new();

    let (h0, _) = pool.insert(0).unwrap();
    let (h1, _) = pool.insert(1).unwrap();
    let (h2, _) = pool.insert(2).unwrap();
    let (h3, _) = pool.insert(3).unwrap();

    println!("{:?}", pool.iter());

    assert!(pool.iter().into_iter().map(|(h, _)| h).eq([h0, h1, h2, h3]));
}

#[test]
fn full_pool_refuses_insert() {
    let mut pool = HandlePool::<u32, 2>::new();
    assert!(pool.insert(10).is_some());
    assert!(pool.insert(11).is_some());
    assert!(pool.insert(12).is_none());
}

#[test]
fn removed_handle_no_longer_resolves() {
    let mut pool = HandlePool::<u32, 2>::new();
    let (h, _) = pool.insert(7).unwrap();
    assert_eq!(pool.remove(h), Some(7));
    assert_eq!(pool.get(h), None);
    assert_eq!(pool.remove(h), None);
    let (g, _) = pool.insert(8).unwrap();
    assert!(g != h);
    assert_eq!(pool.get(h), None);
    assert_eq!(pool.get(g), Some(&8));
}

#[test]
fn freed_slot_is_reused_first() {
    let mut pool = HandlePool::<u32, 3>::new();
    let (_a, _) = pool.insert(1).unwrap();
    let (b, _) = pool.insert(2).unwrap();
    pool.remove(b);
    let (c, _) = pool.insert(3).unwrap();
    let (d, _) = pool.insert(4).unwrap();
    assert_eq!(pool.get(c), Some(&3));
    assert_eq!(pool.get(d), Some(&4));
    let handles: Vec<Handle<u32>> = pool.iter().into_iter().map(|(h, _)| h).collect();
    assert_eq!(handles.len(), 3);
    assert!(handles[1] == c);
    assert!(handles[2] == d);
}

#[test]
fn get_mut_changes_the_value() {
    let mut pool = HandlePool::<u32, 2>::new();
    let (h, v) = pool.insert(5).unwrap();
    assert_eq!(*v, 5);
    *v = 6;
    assert_eq!(pool.get(h), Some(&6));
    *pool.get_mut(h).unwrap() = 9;
    assert_eq!(pool.get(h), Some(&9));
    let r: Handle<()> = h.retype();
    let back: Handle<u32> = r.retype();
    assert!(back == h);
}

#[test]
fn iter_mut_changes_every_value_in_slot_order() {
    let mut pool = HandlePool::<u32, 4>::new();
    let (a, _) = pool.insert(1).unwrap();
    let (b, _) = pool.insert(2).unwrap();
    let (c, _) = pool.insert(3).unwrap();
    pool.remove(b);
    let handles: Vec<Handle<u32>> = pool.iter_mut().into_iter().map(|(h, v)| {
        *v *= 10;
        h
    }).collect();
    assert_eq!(handles.len(), 2);
    assert!(handles[0] == a);
    assert!(handles[1] == c);
    assert_eq!(pool.get(a), Some(&10));
    assert_eq!(pool.get(c), Some(&30));
    assert_eq!(pool.get(b), None);
}
