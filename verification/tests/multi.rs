use ready_paint::error::Error;
use ready_paint::multi::{muts2, muts3, muts4, refs_muts, Mut, Read, Ref, TurpleAccess, Write};
use ready_paint::registry::{Registry, Resource};

#[derive(Debug, PartialEq)]
enum Val {
    Data1 { val: i32 },
    Data2 { val: i32 },
}

const DATA1: u64 = 1;
const DATA2: u64 = 2;

#[test]
fn test() {
    let mut data: Registry<Val> = Registry::new();
    data.insert(DATA1, Resource::new(DATA1, Val::Data1 { val: 42 }));
    data.insert(DATA2, Resource::new(DATA2, Val::Data2 { val: 3 }));

    let (r1, r2) = refs_muts(&mut data, (Ref(DATA1), Mut(DATA2))).unwrap();
    if let Val::Data2 { val } = r2 {
        *val = 5;
    }
    assert_eq!(*r1, Val::Data1 { val: 42 });
    assert_eq!(*r2, Val::Data2 { val: 5 });
}

#[test]
fn repeated_key_is_rejected_before_any_borrow() {
    let mut data: Registry<Val> = Registry::new();
    data.insert(DATA1, Resource::new(DATA1, Val::Data1 { val: 7 }));

    let r = refs_muts(&mut data, (Ref(DATA1), Mut(DATA1)));
    assert!(matches!(r, Err(Error::DuplicateTypeInMultiAccess)));
}

#[test]
fn write_borrow_does_not_alias_read_borrow() {
    let mut data: Registry<Val> = Registry::new();
    data.insert(DATA1, Resource::new(DATA1, Val::Data1 { val: 10 }));
    data.insert(DATA2, Resource::new(DATA2, Val::Data2 { val: 20 }));

    let (a, b) = refs_muts(&mut data, (Ref(DATA1), Mut(DATA2))).unwrap();
    if let Val::Data2 { val } = b {
        *val = 999;
    }
    // The slot read through `a` is untouched by the write through `b`.
    assert_eq!(*a, Val::Data1 { val: 10 });
}

#[test]
fn missing_resource_in_request() {
    let mut data: Registry<Val> = Registry::new();
    data.insert(DATA1, Resource::new(DATA1, Val::Data1 { val: 1 }));

    let r = refs_muts(&mut data, (Ref(DATA1), Mut(DATA2)));
    assert!(matches!(r, Err(Error::MissingResource)));
}

#[test]
fn request_tuples_check_distinctness() {
    assert!((Ref(1), Mut(2)).distinct());
    assert!(!(Ref(1), Mut(1)).distinct());
    assert!((Mut(1), Mut(2), Mut(3)).distinct());
    assert!(!(Mut(1), Mut(2), Mut(1)).distinct());
    assert!((Ref(1), Mut(2), Mut(3), Mut(4)).distinct());
    assert!(!(Ref(1), Mut(2), Mut(3), Mut(2)).distinct());
}

#[derive(Debug, PartialEq)]
struct Cell {
    n: i32,
}

#[test]
fn two_write_borrows_are_disjoint() {
    let mut data: Registry<Cell> = Registry::new();
    data.insert(1, Resource::new(1, Cell { n: 1 }));
    data.insert(2, Resource::new(2, Cell { n: 2 }));

    let (a, b) = muts2(&mut data, (Mut(1), Mut(2))).unwrap();
    a.n += 10;
    b.n += 20;
    assert_eq!(*a, Cell { n: 11 });
    assert_eq!(*b, Cell { n: 22 });

    let r = muts2(&mut data, (Mut(1), Mut(1)));
    assert!(matches!(r, Err(Error::DuplicateTypeInMultiAccess)));
}

#[test]
fn three_write_borrows_are_disjoint() {
    let mut data: Registry<Cell> = Registry::new();
    data.insert(1, Resource::new(1, Cell { n: 1 }));
    data.insert(2, Resource::new(2, Cell { n: 2 }));
    data.insert(3, Resource::new(3, Cell { n: 3 }));

    let (a, b, c) = muts3(&mut data, (Mut(3), Mut(1), Mut(2))).unwrap();
    assert_eq!(*a, Cell { n: 3 });
    assert_eq!(*b, Cell { n: 1 });
    assert_eq!(*c, Cell { n: 2 });
    a.n = 30;
    b.n = 10;
    c.n = 20;

    let (x, y, z) = muts3(&mut data, (Mut(1), Mut(2), Mut(3))).unwrap();
    assert_eq!((x.n, y.n, z.n), (10, 20, 30));

    let r = muts3(&mut data, (Mut(1), Mut(2), Mut(2)));
    assert!(matches!(r, Err(Error::DuplicateTypeInMultiAccess)));
}

#[test]
fn four_write_borrows_are_disjoint() {
    let mut data: Registry<Cell> = Registry::new();
    data.insert(1, Resource::new(1, Cell { n: 1 }));
    data.insert(2, Resource::new(2, Cell { n: 2 }));
    data.insert(3, Resource::new(3, Cell { n: 3 }));
    data.insert(4, Resource::new(4, Cell { n: 4 }));

    let (a, b, c, d) = muts4(&mut data, (Mut(2), Mut(4), Mut(1), Mut(3))).unwrap();
    assert_eq!((a.n, b.n, c.n, d.n), (2, 4, 1, 3));
    a.n *= 100;
    b.n *= 100;
    c.n *= 100;
    d.n *= 100;

    let (x, y, z, w) = muts4(&mut data, (Mut(1), Mut(2), Mut(3), Mut(4))).unwrap();
    assert_eq!((x.n, y.n, z.n, w.n), (100, 200, 300, 400));

    let r = muts4(&mut data, (Mut(1), Mut(2), Mut(3), Mut(1)));
    assert!(matches!(r, Err(Error::DuplicateTypeInMultiAccess)));

    let missing = muts4(&mut data, (Mut(1), Mut(2), Mut(3), Mut(9)));
    assert!(matches!(missing, Err(Error::MissingResource)));
}

#[test]
fn modes_exist() {
    // The mode markers are zero-sized request tags.
    let _read = Read;
    let _write = Write;
}
