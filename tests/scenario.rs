#![allow(dead_code)]

use gfp_core::{
    dynamic, project_mut, project_pair_mut, try_project_pair_mut, Chain, Dynamic, Field,
    Identity, ProjectAll, ProjectTo, Ptr,
};

// Layout used for the images below:
// Bar { a: u16 @ 0, b: u32 @ 4 }          8 bytes
// Foo { x: u8 @ 0, y: Bar @ 4 }          12 bytes
struct Foo {
    x: u8,
    y: Bar,
}

struct Bar {
    a: u16,
    b: u32,
}

fn field_x() -> Dynamic<Foo, u8> {
    Dynamic::from_offset(0)
}

fn field_y() -> Dynamic<Foo, Bar> {
    Dynamic::from_offset(4)
}

fn field_a() -> Dynamic<Bar, u16> {
    Dynamic::from_offset(0)
}

fn field_b() -> Dynamic<Bar, u32> {
    Dynamic::from_offset(4)
}

fn image_of(foo: &Foo) -> Vec<u8> {
    let mut image = vec![0u8; 12];
    image[0] = foo.x;
    image[4..6].copy_from_slice(&foo.y.a.to_le_bytes());
    image[8..12].copy_from_slice(&foo.y.b.to_le_bytes());
    image
}

fn read_u32(bytes: &[u8]) -> u32 {
    u32::from_le_bytes([bytes[0], bytes[1], bytes[2], bytes[3]])
}

#[test]
fn offsets_are_the_layout_offsets() {
    assert_eq!(field_x().field_offset(), 0);
    assert_eq!(field_y().field_offset(), 4);
    assert_eq!(field_b().field_offset(), 4);
    assert_eq!(field_y().offset(), 4);
    assert_eq!(Chain::new(field_y(), field_b()).field_offset(), 8);
    assert_eq!(Identity::<Foo>::new().field_offset(), 0);
    assert_eq!(Identity::<Foo>::new().chain(field_y()).field_offset(), 4);
    assert_eq!(field_y().chain(field_b()).field_offset(), 8);
    assert_eq!(dynamic(&Chain::new(field_y(), field_a())).offset(), 4);
}

#[test]
fn ranges_use_the_field_size() {
    let r = Chain::new(field_y(), field_b()).range();
    assert_eq!(r, 8..12);
    assert_eq!(field_x().range(), 0..1);
    let unit: Dynamic<Foo, ()> = Dynamic::from_offset(6);
    assert_eq!(unit.range(), 6..6);
}

#[test]
fn round_trip_through_a_field() {
    let field = Chain::new(field_y(), field_b());
    let p: Ptr<Foo> = Ptr::from_addr(0x4000);
    let q = field.project_raw(p);
    assert_eq!(q.addr(), 0x4008);
    assert_eq!(field.inverse_project_raw(q).addr(), 0x4000);
}

#[test]
fn wrapping_round_trip_at_the_top_of_the_address_space() {
    let field = Chain::new(field_y(), field_b());
    let p: Ptr<Foo> = Ptr::from_addr(usize::MAX - 3);
    let q = field.wrapping_project_raw(p);
    assert_eq!(q.addr(), 4);
    assert_eq!(field.wrapping_inverse_project_raw(q).addr(), usize::MAX - 3);
}

#[test]
fn chain_is_associative() {
    struct Outer;
    let outer_foo: Dynamic<Outer, Foo> = Dynamic::from_offset(16);
    let left = Chain::new(Chain::new(outer_foo.clone(), field_y()), field_b());
    let right = Chain::new(outer_foo, Chain::new(field_y(), field_b()));
    assert_eq!(left.field_offset(), 24);
    assert_eq!(left.field_offset(), right.field_offset());
    let p: Ptr<Outer> = Ptr::from_addr(0x100);
    let q: Ptr<Outer> = Ptr::from_addr(0x100);
    assert_eq!(left.project_raw(p).addr(), right.project_raw(q).addr());
}

#[test]
fn end_to_end() {
    let mut foo = Foo { x: 3, y: Bar { a: 1, b: 2 } };
    let mut image = image_of(&foo);

    assert_eq!((&image[..]).project_to(field_x()), &[3u8][..]);
    assert_eq!(read_u32((&image[..]).project_to(Chain::new(field_y(), field_b()))), 2);

    {
        let (x, b) = project_pair_mut(&mut image[..], (field_x(), Chain::new(field_y(), field_b())));
        x[0] = 1;
        b.copy_from_slice(&20u32.to_le_bytes());
    }
    foo.x = image[0];
    foo.y.b = read_u32(&image[8..12]);
    assert!(foo.x == 1 && foo.y.b == 20);
    assert_eq!(foo.y.a, 1);
}

#[test]
fn writes_through_a_pair_touch_only_their_fields() {
    let foo = Foo { x: 7, y: Bar { a: 0x0605, b: 0x0a09_0807 } };
    let mut image = image_of(&foo);
    image[1] = 0xee;
    let before = image.clone();
    {
        let (a, b) = project_pair_mut(
            &mut image[..],
            (Chain::new(field_y(), field_b()), Chain::new(field_y(), field_a())),
        );
        a.copy_from_slice(&[1, 2, 3, 4]);
        b.copy_from_slice(&[5, 6]);
        a[0] = 9;
    }
    assert_eq!(&image[8..12], &[9, 2, 3, 4]);
    assert_eq!(&image[4..6], &[5, 6]);
    for k in [0usize, 1, 2, 3, 6, 7] {
        assert_eq!(image[k], before[k]);
    }
}

#[test]
fn single_mutable_projection_writes_back() {
    let mut image = vec![0u8; 12];
    {
        let b = project_mut(&mut image[..], Chain::new(field_y(), field_b()));
        b.copy_from_slice(&0x1234_5678u32.to_le_bytes());
    }
    assert_eq!(read_u32(&image[8..12]), 0x1234_5678);
    assert_eq!(&image[0..8], &[0u8; 8]);
}

#[test]
fn adjacent_fields_project_together() {
    let lo: Dynamic<Foo, u32> = Dynamic::from_offset(0);
    let hi: Dynamic<Foo, u32> = Dynamic::from_offset(4);
    let mut image = vec![0u8; 12];
    let pair = try_project_pair_mut(&mut image[..], (lo, hi));
    assert!(pair.is_some());
    let (x, y) = pair.unwrap();
    x[3] = 1;
    y[0] = 2;
    assert_eq!(&image[0..8], &[0, 0, 0, 1, 2, 0, 0, 0]);
}

#[test]
fn overlapping_fields_are_refused() {
    let lo: Dynamic<Foo, u32> = Dynamic::from_offset(0);
    let mid: Dynamic<Foo, u32> = Dynamic::from_offset(2);
    let mut image = vec![0u8; 12];
    assert!(try_project_pair_mut(&mut image[..], (lo, mid)).is_none());
}

#[test]
fn zero_sized_fields_at_one_offset_project_together() {
    let u: Dynamic<Foo, ()> = Dynamic::from_offset(4);
    let v: Dynamic<Foo, ()> = Dynamic::from_offset(4);
    let mut image = vec![0u8; 12];
    let pair = try_project_pair_mut(&mut image[..], (u, v));
    assert!(pair.is_some());
    let (x, y) = pair.unwrap();
    assert!(x.is_empty() && y.is_empty());
}

#[test]
fn zero_sized_field_inside_another_projects_together() {
    let whole: Dynamic<Foo, u32> = Dynamic::from_offset(4);
    let unit: Dynamic<Foo, ()> = Dynamic::from_offset(6);
    let mut image = vec![0u8; 12];
    let (w, u) = project_pair_mut(&mut image[..], (whole, unit));
    assert!(u.is_empty());
    w.copy_from_slice(&[1, 2, 3, 4]);
    assert_eq!(&image[4..8], &[1, 2, 3, 4]);
}

#[test]
fn shared_set_projection_may_alias() {
    let foo = Foo { x: 3, y: Bar { a: 1, b: 2 } };
    let image = image_of(&foo);
    let whole: Dynamic<Foo, Bar> = Dynamic::from_offset(4);
    let b = Chain::new(field_y(), field_b());
    let parts = (&image[..]).project_all((whole, b, field_x()));
    assert_eq!(parts.len(), 3);
    assert_eq!(parts[0], &image[4..12]);
    assert_eq!(read_u32(parts[1]), 2);
    assert_eq!(parts[2], &[3u8][..]);
}

#[test]
fn has_overlap_checks_every_pair() {
    let lo: Dynamic<Foo, u32> = Dynamic::from_offset(0);
    let hi: Dynamic<Foo, u32> = Dynamic::from_offset(4);
    let mid: Dynamic<Foo, u16> = Dynamic::from_offset(6);
    assert!(!gfp_core::has_overlap(&(lo.clone(), hi.clone())));
    assert!(gfp_core::has_overlap(&(lo, hi, mid)));
}

#[test]
fn find_overlap_over_ranges() {
    assert!(!gfp_core::FindOverlap::new(vec![0..4, 4..8, 8..8]).found());
    assert!(gfp_core::FindOverlap::new(vec![0..4, 8..12, 10..11]).found());
    assert!(!gfp_core::FindOverlap::new(vec![]).found());
}

#[test]
fn option_projection_distributes() {
    let image = vec![9u8, 0, 0, 0, 1, 0, 2, 0, 0, 0, 0, 0];
    let some: Option<&[u8]> = Some(&image[..]);
    assert_eq!(some.project_to(field_x()), Some(&[9u8][..]));
    let none: Option<&[u8]> = None;
    assert_eq!(none.project_to(field_x()), None);
}
