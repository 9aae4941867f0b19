use graphics::arena::Arena;
use graphics::arena::ARENA_ALIGNMENT;

#[test]
fn round_trip_three_appends() {
    let mut arena = Arena::new(0);
    let a: Vec<u8> = vec![1, 2, 3];
    let b: Vec<u8> = vec![10, 20, 30, 40, 50, 60, 70, 80, 90];
    let c: Vec<u8> = vec![255];
    let off_a = arena.extend(&a);
    let off_b = arena.extend(&b);
    let off_c = arena.extend(&c);
    assert_eq!(off_a, 0);
    assert_eq!(off_b, 8);
    assert_eq!(off_c, 24);
    assert_eq!(off_a % ARENA_ALIGNMENT, 0);
    assert_eq!(off_b % ARENA_ALIGNMENT, 0);
    assert_eq!(off_c % ARENA_ALIGNMENT, 0);
    let bytes = arena.ptr();
    assert_eq!(&bytes[off_a..off_a + a.len()], &a[..]);
    assert_eq!(&bytes[off_b..off_b + b.len()], &b[..]);
    assert_eq!(&bytes[off_c..off_c + c.len()], &c[..]);
}

#[test]
fn clear_keeps_capacity_within_peak() {
    let mut arena = Arena::new(0);
    let data: Vec<u8> = vec![7; 100];
    arena.extend(&data);
    let peak = arena.size();
    assert_eq!(peak, 104);
    arena.clear();
    assert_eq!(arena.size(), peak);
    let smaller: Vec<u8> = vec![9; 50];
    let off = arena.extend(&smaller);
    assert_eq!(off, 0);
    assert_eq!(arena.size(), peak);
    assert_eq!(&arena.ptr()[0..50], &smaller[..]);
}

#[test]
fn growth_is_exact() {
    let mut arena = Arena::new(0);
    let data: Vec<u8> = vec![3; 20];
    arena.extend(&data);
    assert_eq!(arena.size(), 24);
    let more: Vec<u8> = vec![4; 10];
    let off = arena.extend(&more);
    assert_eq!(off, 24);
    assert_eq!(arena.size(), 40);
}

#[test]
fn preallocated_capacity_is_reused() {
    let mut arena = Arena::new(64);
    assert_eq!(arena.size(), 64);
    let data: Vec<u8> = vec![5; 30];
    let off = arena.extend(&data);
    assert_eq!(off, 0);
    assert_eq!(arena.size(), 64);
}
