//! The canvas: its items in paint order, the selection and the drag in
//! progress, and how pointer events change them.

use vstd::prelude::*;
use vstd::multiset::Multiset;
use crate::item::{clamp_coord, offset_coord, Item};
use crate::message::CanvasWidgetsMsg;

verus! {

/// The index of the topmost item of `items` whose bounding box contains the
/// point `(x, y)`: later items lie above earlier ones.
pub open spec fn topmost_at(items: Seq<Item>, x: int, y: int) -> Option<int>
    decreases items.len(),
{
    if items.len() == 0 {
        None
    } else if items.last().covers(x, y) {
        Some(items.len() - 1)
    } else {
        topmost_at(items.drop_last(), x, y)
    }
}

/// `topmost_at` finds an item exactly where some item contains the point, and
/// the item it finds is the last one in paint order that does.
pub proof fn lemma_topmost_at(items: Seq<Item>, x: int, y: int)
    ensures
        match topmost_at(items, x, y) {
            Some(index) => {
                &&& 0 <= index < items.len()
                &&& items[index].covers(x, y)
                &&& forall|above: int| index < above < items.len() ==> !items[above].covers(x, y)
            },
            None => forall|any: int| 0 <= any < items.len() ==> !items[any].covers(x, y),
        },
    decreases items.len(),
{
    if items.len() > 0 && !items.last().covers(x, y) {
        let below = items.drop_last();
        lemma_topmost_at(below, x, y);
        assert forall|at: int| 0 <= at < below.len() implies below[at].covers(x, y)
            == items[at].covers(x, y) by {}
    }
}

/// What a canvas holds, as mathematical values.
pub struct CanvasState {
    /// The items that are not selected, in paint order: a later item is drawn
    /// above an earlier one.
    pub items: Seq<Item>,
    /// The selected item. It is held apart from `items`.
    pub selected: Option<Item>,
    /// Where the selected item's corner was when the drag in progress began.
    pub drag_anchor: Option<(i64, i64)>,
    /// Where, on both axes, the corner of the next item goes that is added
    /// without a position.
    pub next_corner: i64,
}

/// The corner, on both axes, of the first item that is added without a
/// position.
pub const NEW_ITEM_ORIGIN: i64 = 1;

/// How far, on both axes, an item that is added without a position lies from
/// the one added that way before it.
pub const NEW_ITEM_STEP: i64 = 10;

/// The extent of a new item, on both axes.
pub const NEW_ITEM_SIZE: i64 = 100;

/// The item of the standard extent with its corner at `(x, y)`.
pub open spec fn new_item(x: i64, y: i64) -> Item {
    Item { coord_x: x, coord_y: y, width: NEW_ITEM_SIZE, height: NEW_ITEM_SIZE }
}

impl CanvasState {
    /// Every item on the canvas, the selected one included, each as often as
    /// the canvas holds it.
    pub open spec fn all_items(self) -> Multiset<Item> {
        match self.selected {
            Some(item) => self.items.to_multiset().insert(item),
            None => self.items.to_multiset(),
        }
    }

    /// The items from the bottom of the picture to its top: the unselected
    /// ones in list order, then the selected one.
    pub open spec fn stacked(self) -> Seq<Item> {
        match self.selected {
            Some(item) => self.items.push(item),
            None => self.items,
        }
    }

    /// The canvas after a new item with its corner at `(x, y)` was put on top
    /// of the unselected items.
    pub open spec fn add_item_at(self, x: i64, y: i64) -> CanvasState {
        CanvasState {
            items: self.items.push(new_item(x, y)),
            selected: self.selected,
            drag_anchor: self.drag_anchor,
            next_corner: self.next_corner,
        }
    }

    /// The canvas after a new item was added without a position: its corner
    /// is at `next_corner` on both axes, and the next such item goes
    /// `NEW_ITEM_STEP` further on both axes, as far as the coordinate range
    /// goes.
    pub open spec fn add_new_item(self) -> CanvasState {
        CanvasState {
            items: self.items.push(new_item(self.next_corner, self.next_corner)),
            selected: self.selected,
            drag_anchor: self.drag_anchor,
            next_corner: clamp_coord(self.next_corner + NEW_ITEM_STEP),
        }
    }

    /// The canvas after `count` items were added without a position, one
    /// after the other.
    pub open spec fn add_new_items(self, count: nat) -> CanvasState
        decreases count,
    {
        if count == 0 {
            self
        } else {
            self.add_new_items((count - 1) as nat).add_new_item()
        }
    }

    /// The canvas after a press at the point `(x, y)`.
    ///
    /// A selected item under the point stays selected, whatever lies in the
    /// list. Otherwise the topmost unselected item under the point becomes the
    /// selection and leaves the list, and the item that was selected goes back
    /// to the list, on top. Where no item is under the point, nothing is
    /// selected afterwards.
    pub open spec fn select(self, x: int, y: int) -> CanvasState {
        match self.selected {
            Some(current) => if current.covers(x, y) {
                self
            } else {
                match topmost_at(self.items, x, y) {
                    Some(index) => CanvasState {
                        items: self.items.remove(index).push(current),
                        selected: Some(self.items[index]),
                        drag_anchor: self.drag_anchor,
                        next_corner: self.next_corner,
                    },
                    None => CanvasState {
                        items: self.items.push(current),
                        selected: None,
                        drag_anchor: self.drag_anchor,
                        next_corner: self.next_corner,
                    },
                }
            },
            None => match topmost_at(self.items, x, y) {
                Some(index) => CanvasState {
                    items: self.items.remove(index),
                    selected: Some(self.items[index]),
                    drag_anchor: self.drag_anchor,
                    next_corner: self.next_corner,
                },
                None => self,
            },
        }
    }

    /// The canvas after a drag began at the point `(x, y)`: the selection
    /// changes as for a press there, and the corner of the item that is then
    /// selected becomes the anchor of the drag.
    pub open spec fn drag_begin(self, x: int, y: int) -> CanvasState {
        let pressed = self.select(x, y);
        match pressed.selected {
            Some(item) => CanvasState {
                items: pressed.items,
                selected: pressed.selected,
                drag_anchor: Some((item.coord_x, item.coord_y)),
                next_corner: pressed.next_corner,
            },
            None => pressed,
        }
    }

    /// The canvas after the pointer went `(delta_x, delta_y)` away from where
    /// the drag began: the selected item's corner is the anchor moved by that
    /// distance, as far as the coordinate range goes.
    pub open spec fn drag_update(self, delta_x: int, delta_y: int) -> CanvasState {
        match (self.drag_anchor, self.selected) {
            (Some(anchor), Some(item)) => CanvasState {
                items: self.items,
                selected: Some(
                    item.placed_at(
                        clamp_coord(anchor.0 + delta_x),
                        clamp_coord(anchor.1 + delta_y),
                    ),
                ),
                drag_anchor: self.drag_anchor,
                next_corner: self.next_corner,
            },
            _ => self,
        }
    }

    /// The canvas after the drag ended: there is no anchor any more.
    pub open spec fn drag_end(self) -> CanvasState {
        CanvasState {
            items: self.items,
            selected: self.selected,
            drag_anchor: None,
            next_corner: self.next_corner,
        }
    }

    /// The canvas without its selected item.
    pub open spec fn delete_selected_item(self) -> CanvasState {
        CanvasState {
            items: self.items,
            selected: None,
            drag_anchor: self.drag_anchor,
            next_corner: self.next_corner,
        }
    }

    /// The canvas after the event `message`.
    pub open spec fn update(self, message: CanvasWidgetsMsg) -> CanvasState {
        match message {
            CanvasWidgetsMsg::ButtonPressed(at) => self.select(at.0 as int, at.1 as int),
            CanvasWidgetsMsg::ButtonRelease(_) => self,
            CanvasWidgetsMsg::Move(_) => self,
            CanvasWidgetsMsg::DragBegin(at) => self.drag_begin(at.0 as int, at.1 as int),
            CanvasWidgetsMsg::DragUpdate(delta) => self.drag_update(
                delta.0 as int,
                delta.1 as int,
            ),
            CanvasWidgetsMsg::DragEnd(_) => self.drag_end(),
        }
    }
}

/// A canvas of rectangular items.
pub struct ItemCanvas {
    item_list: Vec<Item>,
    selected: Option<Item>,
    drag_anchor: Option<(i64, i64)>,
    next_corner: i64,
}

impl View for ItemCanvas {
    type V = CanvasState;

    closed spec fn view(&self) -> CanvasState {
        CanvasState {
            items: self.item_list@,
            selected: self.selected,
            drag_anchor: self.drag_anchor,
            next_corner: self.next_corner,
        }
    }
}

impl ItemCanvas {
    /// A canvas without items, selection or drag. The first item that is
    /// added to it without a position goes to `NEW_ITEM_ORIGIN`.
    pub fn new() -> (canvas: ItemCanvas)
        ensures
            canvas@ == (CanvasState {
                items: Seq::empty(),
                selected: None,
                drag_anchor: None,
                next_corner: NEW_ITEM_ORIGIN,
            }),
    {
        ItemCanvas {
            item_list: Vec::new(),
            selected: None,
            drag_anchor: None,
            next_corner: NEW_ITEM_ORIGIN,
        }
    }

    /// The unselected items, in paint order.
    pub fn items(&self) -> (list: &Vec<Item>)
        ensures
            list@ == self@.items,
    {
        &self.item_list
    }

    /// The selected item.
    pub fn selected(&self) -> (item: Option<Item>)
        ensures
            item == self@.selected,
    {
        self.selected
    }

    /// The corner that the selected item had when the drag in progress began.
    pub fn drag_anchor(&self) -> (anchor: Option<(i64, i64)>)
        ensures
            anchor == self@.drag_anchor,
    {
        self.drag_anchor
    }

    /// Where, on both axes, the corner of the next item goes that is added
    /// without a position.
    pub fn next_corner(&self) -> (corner: i64)
        ensures
            corner == self@.next_corner,
    {
        self.next_corner
    }

    /// Puts a new item of the standard extent on the canvas, its corner at
    /// `(x, y)`, above the other unselected items.
    pub fn add_item_at(&mut self, x: i64, y: i64)
        ensures
            final(self)@ == old(self)@.add_item_at(x, y),
    {
        let mitem = Item { coord_x: x, coord_y: y, width: NEW_ITEM_SIZE, height: NEW_ITEM_SIZE };
        self.item_list.push(mitem);
    }

    /// Puts a new item of the standard extent on the canvas, above the other
    /// unselected items. Its corner lies `NEW_ITEM_STEP` further on both axes
    /// than that of the item added this way before it, so that new items do
    /// not hide each other.
    pub fn add_new_item(&mut self)
        ensures
            final(self)@ == old(self)@.add_new_item(),
    {
        let corner = self.next_corner;
        self.add_item_at(corner, corner);
        self.next_corner = offset_coord(corner, NEW_ITEM_STEP);
    }

    /// Changes the selection for a press at the point `(x, y)`.
    pub fn select(&mut self, x: i64, y: i64)
        ensures
            final(self)@ == old(self)@.select(x as int, y as int),
    {
        match self.selected.take() {
            Some(item) => {
                if item.contains(x, y) {
                    self.selected = Some(item);
                } else {
                    match self.hit_test(x, y) {
                        Some(index) => {
                            let new_item = self.item_list.remove(index);
                            self.item_list.push(item);
                            self.selected = Some(new_item);
                        },
                        None => {
                            self.item_list.push(item);
                        },
                    }
                }
            },
            None => {
                match self.hit_test(x, y) {
                    Some(index) => {
                        let new_item = self.item_list.remove(index);
                        self.selected = Some(new_item);
                    },
                    None => {},
                }
            },
        }
    }

    /// Starts a drag at the point `(x, y)`.
    pub fn drag_begin(&mut self, x: i64, y: i64)
        ensures
            final(self)@ == old(self)@.drag_begin(x as int, y as int),
    {
        self.select(x, y);
        match self.selected {
            Some(item) => {
                self.drag_anchor = Some((item.coord_x, item.coord_y));
            },
            None => {},
        }
    }

    /// Moves the selected item to where the drag has taken it: its corner when
    /// the drag began, moved by `(delta_x, delta_y)`.
    pub fn drag_update(&mut self, delta_x: i64, delta_y: i64)
        ensures
            final(self)@ == old(self)@.drag_update(delta_x as int, delta_y as int),
    {
        match self.drag_anchor {
            Some((start_x, start_y)) => {
                match self.selected {
                    Some(item) => {
                        let mut moved = item;
                        moved.move_to(
                            offset_coord(start_x, delta_x),
                            offset_coord(start_y, delta_y),
                        );
                        self.selected = Some(moved);
                    },
                    None => {},
                }
            },
            None => {},
        }
    }

    /// Ends the drag.
    pub fn drag_end(&mut self)
        ensures
            final(self)@ == old(self)@.drag_end(),
    {
        self.drag_anchor = None;
    }

    /// Takes the selected item off the canvas and returns it. Where nothing is
    /// selected, nothing changes.
    pub fn delete_selected_item(&mut self) -> (deleted: Option<Item>)
        ensures
            deleted == old(self)@.selected,
            final(self)@ == old(self)@.delete_selected_item(),
            old(self)@.selected is None ==> final(self)@ == old(self)@,
    {
        self.selected.take()
    }

    /// Applies one pointer event.
    pub fn update(&mut self, message: CanvasWidgetsMsg)
        ensures
            final(self)@ == old(self)@.update(message),
    {
        match message {
            CanvasWidgetsMsg::ButtonPressed((x, y)) => {
                self.select(x, y);
            },
            CanvasWidgetsMsg::ButtonRelease(_) => {},
            CanvasWidgetsMsg::Move(_) => {},
            CanvasWidgetsMsg::DragBegin((x, y)) => {
                self.drag_begin(x, y);
            },
            CanvasWidgetsMsg::DragUpdate((delta_x, delta_y)) => {
                self.drag_update(delta_x, delta_y);
            },
            CanvasWidgetsMsg::DragEnd(_) => {
                self.drag_end();
            },
        }
    }

    /// Finds the topmost unselected item under the point `(x, y)` and returns
    /// its place in the paint order.
    pub fn hit_test(&self, x: i64, y: i64) -> (found: Option<usize>)
        ensures
            match found {
                Some(index) => {
                    &&& index < self@.items.len()
                    &&& topmost_at(self@.items, x as int, y as int) == Some(index as int)
                },
                None => topmost_at(self@.items, x as int, y as int) is None,
            },
    {
        let mut index: usize = self.item_list.len();
        assert(self.item_list@.take(index as int) =~= self.item_list@);
        while index > 0
            invariant
                index <= self.item_list.len(),
                topmost_at(self.item_list@, x as int, y as int) == topmost_at(
                    self.item_list@.take(index as int),
                    x as int,
                    y as int,
                ),
            decreases index,
        {
            let ghost prefix = self.item_list@.take(index as int);
            assert(prefix.last() == self.item_list@[index - 1]);
            assert(prefix.drop_last() =~= self.item_list@.take(index - 1));
            index = index - 1;
            if self.item_list[index].contains(x, y) {
                return Some(index);
            }
        }
        None
    }
}

} // verus!
