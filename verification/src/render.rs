//! What a front end has to draw for a canvas, and in which order.

use vstd::prelude::*;
use crate::canvas::{CanvasState, ItemCanvas};
use crate::item::Item;

verus! {

/// One item to draw on the cleared surface.
#[derive(Clone, Copy, Debug, PartialEq, Eq, Structural)]
pub struct PaintStep {
    /// The rectangle to fill.
    pub item: Item,
    /// Whether the rectangle also gets the outline that marks the selection.
    pub highlighted: bool,
}

/// The paint steps of a canvas: the unselected items in list order, none of
/// them highlighted, and after them the selected item, highlighted.
pub open spec fn paint_order(state: CanvasState) -> Seq<PaintStep> {
    let plain = Seq::new(
        state.items.len(),
        |at: int| PaintStep { item: state.items[at], highlighted: false },
    );
    match state.selected {
        Some(item) => plain.push(PaintStep { item, highlighted: true }),
        None => plain,
    }
}

impl ItemCanvas {
    /// Lists what to draw, bottom first.
    pub fn paint_order(&self) -> (steps: Vec<PaintStep>)
        ensures
            steps@ == paint_order(self@),
    {
        let list = self.items();
        let mut steps: Vec<PaintStep> = Vec::new();
        let mut at: usize = 0;
        while at < list.len()
            invariant
                at <= list.len(),
                steps@.len() == at,
                forall|done: int|
                    0 <= done < at ==> steps@[done] == (PaintStep {
                        item: list@[done],
                        highlighted: false,
                    }),
            decreases list.len() - at,
        {
            steps.push(PaintStep { item: list[at], highlighted: false });
            at = at + 1;
        }
        match self.selected() {
            Some(item) => {
                steps.push(PaintStep { item, highlighted: true });
            },
            None => {},
        }
        steps
    }
}

} // verus!
