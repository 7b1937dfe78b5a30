//! Generic field projection over a verified memory model.
//!
//! A field is described by the byte offset of a sub-object of type `Type`
//! inside its `Parent`. Fields compose (`Chain`), can be erased to a runtime
//! offset (`Dynamic`), and project:
//!
//! - address tokens (`Ptr`), forwards and backwards;
//! - the byte image of a parent held behind a shared or mutable borrow, a
//!   `Box`, an `Rc`, an `Arc` or a `Pinned` pointer;
//! - several fields at once, where mutable borrows are only handed out for
//!   fields that share no byte.

mod chain;
mod dynamic;
mod field;
mod intrusive;
mod overlap;
mod owner;
mod pin;
mod project;
mod set;
mod unchecked;

pub use chain::{chain_associative, chain_offset, Chain};
pub use dynamic::{dynamic, Dynamic};
pub use field::{
    inverse_projected, project_then_inverse, projected, wrap_add, wrap_sub,
    wrapping_project_then_inverse, Field, Identity, Invariant, Ptr,
};
pub use intrusive::{
    node_of, DoubleLink, DoubleLinkFields, Foo, Link, RedBlackTreeNode, RedBlackTreeNodeColor,
    SinglyLinkedListNode, TreeNode,
};
pub use overlap::{any_overlap, is_overlapping, range_empty, ranges_overlap, FindOverlap};
pub use owner::{
    arc_projections_agree, rc_projections_agree, BoxProjection, ProjectedArc, ProjectedArcSet,
    ProjectedRc, ProjectedRcSet,
};
pub use pin::{PinToPin, PinToPtr, PinnablePointer, Pinned};
pub use project::{
    field_bytes, field_fits, field_limit, project_mut, write_back_field, written_back, ProjectTo,
};
pub use set::{
    has_overlap, in_range, placed, project_pair_mut, ranges_fit, spec_range,
    try_project_pair_mut, write_back_pair, written_back_pair, FieldSet, ProjectAll,
};
pub use unchecked::{ProjectRaw, UncheckedInverseProjectTo, UncheckedProjectTo};
