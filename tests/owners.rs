#![allow(dead_code)]

use std::rc::Rc;
use std::sync::Arc;

use gfp_core::{Dynamic, PinToPin, PinToPtr, Pinned, ProjectAll, ProjectTo};

struct Foo {
    x: u8,
    y: u32,
}

fn field_x() -> Dynamic<Foo, u8> {
    Dynamic::from_offset(0)
}

fn field_y() -> Dynamic<Foo, u32> {
    Dynamic::from_offset(4)
}

fn image() -> Vec<u8> {
    vec![3, 0, 0, 0, 10, 0, 0, 0]
}

#[test]
fn box_projection_owns_the_whole_allocation() {
    let bx = Box::new(image());
    let mut p = bx.project_to(field_y());
    assert_eq!(p.get(), &[10, 0, 0, 0]);
    p.set(1, 7);
    assert_eq!(p.get(), &[10, 7, 0, 0]);
    let whole = p.into_box();
    assert_eq!(*whole, vec![3, 0, 0, 0, 10, 7, 0, 0]);
}

#[test]
fn rc_clones_project_to_the_same_place() {
    let rc = Rc::new(image());
    let first = rc.clone().project_to(field_y());
    let second = rc.clone().project_to(field_y());
    assert!(std::ptr::eq(first.get(), second.get()));
    assert_eq!(first.start(), second.start());
    assert_eq!(Rc::strong_count(&rc), 3);
    drop(first);
    assert_eq!(Rc::strong_count(&rc), 2);
    assert_eq!(second.get(), &[10, 0, 0, 0]);
    drop(rc);
    assert_eq!(second.get(), &[10, 0, 0, 0]);
}

#[test]
fn arc_clones_project_to_the_same_place() {
    let arc = Arc::new(image());
    let first = arc.clone().project_to(field_x());
    let second = arc.clone().project_to(field_x());
    assert!(std::ptr::eq(first.get(), second.get()));
    drop(arc);
    drop(first);
    assert_eq!(second.get(), &[3]);
}

#[test]
fn rc_set_keeps_one_handle_for_all_fields() {
    let rc = Rc::new(image());
    let set = rc.clone().project_all((field_x(), field_y()));
    assert_eq!(Rc::strong_count(&rc), 2);
    let parts = set.get();
    assert_eq!(parts[0], &[3]);
    assert_eq!(parts[1], &[10, 0, 0, 0]);
}

#[test]
fn arc_set_keeps_one_handle_for_all_fields() {
    let arc = Arc::new(image());
    let set = arc.project_all((field_y(), field_x()));
    let parts = set.get();
    assert_eq!(parts[0], &[10, 0, 0, 0]);
    assert_eq!(parts[1], &[3]);
}

#[test]
fn pin_to_pin_stays_pinned() {
    let data = image();
    let pinned = Pinned::new(&data[..]);
    let y: Pinned<&[u8]> = pinned.project_to(PinToPin::new_unchecked(field_y()));
    assert_eq!(*y.as_inner(), &[10, 0, 0, 0]);
}

#[test]
fn pin_to_ptr_comes_out_unpinned() {
    let data = image();
    let pinned = Pinned::new(&data[..]);
    let x: &[u8] = pinned.project_to(PinToPtr::new(field_x()));
    assert_eq!(x, &[3]);
}

#[test]
fn pin_tags_keep_their_field() {
    let tag = PinToPin::new_unchecked(field_y());
    assert_eq!(tag.pin_dynamic().field().offset(), 4);
    assert_eq!(tag.field().offset(), 4);
    let plain = PinToPtr::new(field_x());
    assert_eq!(plain.as_ref().0.offset(), 0);
}

#[test]
fn pinned_box_projects_to_pinned_field() {
    let pinned = Pinned::new(Box::new(image()));
    let y = pinned.project_to(PinToPin::new_unchecked(field_y()));
    assert_eq!(y.as_inner().get(), &[10, 0, 0, 0]);
}
