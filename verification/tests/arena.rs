use mun_frontend::arena::map::ArenaMap;
use mun_frontend::arena::{Arena, Idx, RawId};

#[test]
fn arena_hands_out_handles_from_one() {
    let mut arena: Arena<&str> = Arena::new();
    assert!(arena.is_empty());
    let a = arena.allocate("a");
    let b = arena.allocate("b");
    let c = arena.allocate("c");
    assert_eq!(u32::from(a.into_raw()), 1);
    assert_eq!(u32::from(b.into_raw()), 2);
    assert_eq!(u32::from(c.into_raw()), 3);
    assert_eq!(arena.len(), 3);
    assert!(!arena.is_empty());
    assert_eq!(*arena.get(a), "a");
    assert_eq!(*arena.get(c), "c");
}

#[test]
fn arena_handles_are_stable_across_runs() {
    let mut first: Arena<u64> = Arena::new();
    let mut second: Arena<u64> = Arena::new();
    let mut handles_first = Vec::new();
    let mut handles_second = Vec::new();
    for value in [7u64, 7, 9, 11] {
        handles_first.push(first.allocate(value));
    }
    for value in [1u64, 2, 3, 4] {
        handles_second.push(second.allocate(value));
    }
    // The handles depend on the order of allocation, not on the values.
    assert_eq!(handles_first, handles_second);
}

#[test]
fn arena_iterates_in_allocation_order() {
    let mut arena: Arena<char> = Arena::new();
    for c in ['x', 'y', 'z'] {
        arena.allocate(c);
    }
    let seen: Vec<(u32, char)> =
        arena.iter().into_iter().map(|(id, c)| (u32::from(id.into_raw()), *c)).collect();
    assert_eq!(seen, vec![(1, 'x'), (2, 'y'), (3, 'z')]);
}

#[test]
fn raw_id_converts_both_ways() {
    let raw = RawId::from(42u32);
    assert_eq!(u32::from(raw), 42);
    let idx: Idx<String> = Idx::from_raw(raw);
    assert_eq!(idx.into_raw(), raw);
    assert_eq!(idx, idx.clone());
    assert_ne!(idx, Idx::from_raw(RawId::from(43u32)));
}

fn idx(n: u32) -> Idx<()> {
    Idx::from_raw(RawId::from(n))
}

#[test]
fn arena_map_insert_and_get() {
    let mut map: ArenaMap<Idx<()>, &str> = ArenaMap::default();
    assert_eq!(map.get(idx(3)), None);
    map.insert(idx(3), "three");
    map.insert(idx(1), "one");
    assert_eq!(map.get(idx(3)), Some(&"three"));
    assert_eq!(map.get(idx(1)), Some(&"one"));
    assert_eq!(map.get(idx(2)), None);
    assert_eq!(map.get(idx(0)), None);
    assert_eq!(map.get(idx(100)), None);
    map.insert(idx(3), "drei");
    assert_eq!(map.get(idx(3)), Some(&"drei"));
    assert_eq!(map[idx(1)], "one");
}

#[test]
fn arena_map_get_mut_and_index_mut_change_in_place() {
    let mut map: ArenaMap<Idx<()>, u32> = ArenaMap::default();
    map.insert(idx(2), 20);
    map.insert(idx(5), 50);
    assert!(map.get_mut(idx(3)).is_none());
    assert!(map.get_mut(idx(9)).is_none());
    *map.get_mut(idx(2)).unwrap() += 1;
    map[idx(5)] = 55;
    assert_eq!(map.get(idx(2)), Some(&21));
    assert_eq!(map.get(idx(5)), Some(&55));
}

#[test]
fn arena_map_values_and_iter_go_by_handle() {
    let mut map: ArenaMap<Idx<()>, char> = ArenaMap::default();
    map.insert(idx(4), 'd');
    map.insert(idx(0), 'z');
    map.insert(idx(2), 'b');
    assert_eq!(map.values(), vec![&'z', &'b', &'d']);
    let entries: Vec<(u32, char)> =
        map.iter().into_iter().map(|(id, c)| (u32::from(id.into_raw()), *c)).collect();
    assert_eq!(entries, vec![(0, 'z'), (2, 'b'), (4, 'd')]);
    let empty: ArenaMap<Idx<()>, char> = ArenaMap::default();
    assert!(empty.values().is_empty());
    assert!(empty.iter().is_empty());
    assert_eq!(map.clone(), map);
}

#[test]
fn arena_map_values_mut_and_iter_mut_change_in_place() {
    let mut map: ArenaMap<Idx<()>, u32> = ArenaMap::default();
    map.insert(idx(1), 10);
    map.insert(idx(4), 40);
    map.insert(idx(6), 60);
    for value in map.values_mut() {
        *value += 1;
    }
    assert_eq!(map.values(), vec![&11, &41, &61]);
    let seen: Vec<u32> = map
        .iter_mut()
        .into_iter()
        .map(|(id, value)| {
            *value += u32::from(id.into_raw());
            u32::from(id.into_raw())
        })
        .collect();
    assert_eq!(seen, vec![1, 4, 6]);
    assert_eq!(map.get(idx(1)), Some(&12));
    assert_eq!(map.get(idx(4)), Some(&45));
    assert_eq!(map.get(idx(6)), Some(&67));
    assert_eq!(map.get(idx(5)), None);
    let mut empty: ArenaMap<Idx<()>, u32> = ArenaMap::default();
    assert!(empty.values_mut().is_empty());
    assert!(empty.iter_mut().is_empty());
}
