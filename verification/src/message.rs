//! The pointer events that the canvas reacts to.

use vstd::prelude::*;

verus! {

/// A pointer event on the canvas, as a front end reports it.
///
/// Presses, releases, moves and the start of a drag carry the pointer's
/// position. The updates and the end of a drag carry the distance of the
/// pointer from where the drag began.
#[derive(Clone, Copy, Debug, PartialEq, Eq)]
pub enum CanvasWidgetsMsg {
    ButtonPressed((i64, i64)),
    ButtonRelease((i64, i64)),
    Move((i64, i64)),
    DragBegin((i64, i64)),
    DragUpdate((i64, i64)),
    DragEnd((i64, i64)),
}

} // verus!
