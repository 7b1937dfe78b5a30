use gfp_core::{try_project_pair_mut, Dynamic, ProjectTo};

// A union whose two fields share the same four bytes.
struct Union;

fn union_foo() -> Dynamic<Union, u32> {
    Dynamic::from_offset(0)
}

fn union_bar() -> Dynamic<Union, [u8; 4]> {
    Dynamic::from_offset(0)
}

#[test]
fn union() {
    let a: Vec<u8> = vec![0, 1, 2, 3];

    let foo = (&a[..]).project_to(union_foo());
    let bar = (&a[..]).project_to(union_bar());

    assert_eq!(foo, bar);
    assert_eq!(u32::from_le_bytes([foo[0], foo[1], foo[2], foo[3]]), 0x0302_0100);
}

#[test]
fn union_fields_are_not_projected_together() {
    let mut a: Vec<u8> = vec![0, 1, 2, 3];
    assert!(try_project_pair_mut(&mut a[..], (union_foo(), union_bar())).is_none());
    assert_eq!(a, vec![0, 1, 2, 3]);
}
