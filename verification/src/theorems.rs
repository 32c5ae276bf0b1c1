//! What holds of the canvas whatever the events are.

use vstd::prelude::*;
use vstd::seq_lib::{to_multiset_build, to_multiset_remove};
use crate::canvas::{lemma_topmost_at, new_item, topmost_at, CanvasState, NEW_ITEM_STEP};
use crate::item::Item;
use crate::render::paint_order;

verus! {

/// A new item is found before every other unselected item: under a point that
/// it contains it is the hit, and under any other point the hit is the one
/// from before it was added.
pub proof fn lemma_new_item_is_hit_first(state: CanvasState, at_x: i64, at_y: i64, x: int, y: int)
    ensures
        state.add_item_at(at_x, at_y).items.len() == state.items.len() + 1,
        state.add_item_at(at_x, at_y).all_items() == state.all_items().insert(
            new_item(at_x, at_y),
        ),
        new_item(at_x, at_y).covers(x, y) ==> topmost_at(state.add_item_at(at_x, at_y).items, x, y)
            == Some(state.items.len() as int),
        !new_item(at_x, at_y).covers(x, y) ==> topmost_at(
            state.add_item_at(at_x, at_y).items,
            x,
            y,
        ) == topmost_at(state.items, x, y),
{
    let after = state.add_item_at(at_x, at_y).items;
    assert(after.drop_last() =~= state.items);
    to_multiset_build(state.items, new_item(at_x, at_y));
    match state.selected {
        Some(current) => {
            assert(state.items.to_multiset().insert(new_item(at_x, at_y)).insert(current)
                =~= state.items.to_multiset().insert(current).insert(new_item(at_x, at_y)));
        },
        None => {},
    }
}

/// An item that is added without a position is put like one that is added at
/// the place then due, and it moves that place on by one step. Two items that
/// are added this way in a row have the same extent and different corners, as
/// long as the first is not at the very end of the coordinate range: the
/// second lies one step further on both axes, or at the end of the range.
pub proof fn lemma_new_items_do_not_stack(state: CanvasState)
    ensures
        state.add_new_item().items == state.add_item_at(
            state.next_corner,
            state.next_corner,
        ).items,
        state.add_new_item().selected == state.selected,
        state.add_new_item().drag_anchor == state.drag_anchor,
        state.add_new_item().add_new_item().items == state.items.push(
            new_item(state.next_corner, state.next_corner),
        ).push(
            new_item(
                state.add_new_item().next_corner,
                state.add_new_item().next_corner,
            ),
        ),
        state.next_corner + NEW_ITEM_STEP <= i64::MAX ==> state.add_new_item().next_corner
            == state.next_corner + NEW_ITEM_STEP,
        state.next_corner < i64::MAX ==> state.add_new_item().next_corner > state.next_corner,
        state.next_corner < i64::MAX ==> new_item(
            state.add_new_item().next_corner,
            state.add_new_item().next_corner,
        ) != new_item(state.next_corner, state.next_corner),
{
}

/// The items that are added without a position lie on a diagonal: the one
/// that is added after `before` others lies `before` steps from where the
/// first went, on both axes, as long as that is in the coordinate range. The
/// items that were there stay, and so do the selection and the drag.
pub proof fn lemma_new_items_step_along(state: CanvasState, count: nat)
    requires
        state.next_corner + NEW_ITEM_STEP * count <= i64::MAX,
    ensures
        state.add_new_items(count).next_corner == state.next_corner + NEW_ITEM_STEP * count,
        state.add_new_items(count).items.len() == state.items.len() + count,
        forall|at: int|
            0 <= at < state.items.len() ==> #[trigger] state.add_new_items(count).items[at]
                == state.items[at],
        forall|before: int|
            0 <= before < count ==> #[trigger] state.add_new_items(count).items[state.items.len()
                + before] == new_item(
                (state.next_corner + NEW_ITEM_STEP * before) as i64,
                (state.next_corner + NEW_ITEM_STEP * before) as i64,
            ),
        state.add_new_items(count).selected == state.selected,
        state.add_new_items(count).drag_anchor == state.drag_anchor,
    decreases count,
{
    if count > 0 {
        lemma_new_items_step_along(state, (count - 1) as nat);
    }
}

/// After a press, the selection is the topmost item of the picture under the
/// pointer, the selected item counting as the top of the picture; where no
/// item is under the pointer, nothing is selected.
pub proof fn lemma_select_takes_topmost(state: CanvasState, x: int, y: int)
    ensures
        match topmost_at(state.stacked(), x, y) {
            Some(index) => state.select(x, y).selected == Some(state.stacked()[index]),
            None => state.select(x, y).selected is None,
        },
{
    let stack = state.stacked();
    match state.selected {
        Some(current) => {
            assert(stack.last() == current);
            assert(stack.drop_last() =~= state.items);
        },
        None => {},
    }
    lemma_topmost_at(state.items, x, y);
}

/// A press neither loses an item nor makes a second one of it, and it leaves
/// alone the anchor of a drag and the place of the next new item.
pub proof fn lemma_select_keeps_items(state: CanvasState, x: int, y: int)
    ensures
        state.select(x, y).all_items() == state.all_items(),
        state.select(x, y).drag_anchor == state.drag_anchor,
        state.select(x, y).next_corner == state.next_corner,
{
    lemma_topmost_at(state.items, x, y);
    match topmost_at(state.items, x, y) {
        Some(index) => {
            let hit = state.items[index];
            let rest = state.items.remove(index);
            to_multiset_remove(state.items, index);
            assert(state.items.to_multiset().count(hit) > 0) by {
                state.items.to_multiset_ensures();
                assert(state.items.contains(hit));
            }
            assert(rest.to_multiset().insert(hit) =~= state.items.to_multiset());
            match state.selected {
                Some(current) => {
                    to_multiset_build(rest, current);
                    assert(rest.to_multiset().insert(current).insert(hit)
                        =~= state.items.to_multiset().insert(current));
                },
                None => {},
            }
        },
        None => {
            match state.selected {
                Some(current) => {
                    to_multiset_build(state.items, current);
                },
                None => {},
            }
        },
    }
}

/// While a drag is on and an item is selected, the item's corner is the
/// anchor moved by exactly the pointer's distance, as long as that point is in
/// the coordinate range; its extent, the other items and the anchor stay.
pub proof fn lemma_drag_moves_by_delta(
    state: CanvasState,
    anchor: (i64, i64),
    item: Item,
    delta_x: int,
    delta_y: int,
)
    requires
        state.drag_anchor == Some(anchor),
        state.selected == Some(item),
        i64::MIN <= anchor.0 + delta_x <= i64::MAX,
        i64::MIN <= anchor.1 + delta_y <= i64::MAX,
    ensures
        state.drag_update(delta_x, delta_y) == (CanvasState {
            items: state.items,
            selected: Some(
                Item {
                    coord_x: (anchor.0 + delta_x) as i64,
                    coord_y: (anchor.1 + delta_y) as i64,
                    width: item.width,
                    height: item.height,
                },
            ),
            drag_anchor: state.drag_anchor,
            next_corner: state.next_corner,
        }),
{
}

/// A drag that begins on an item takes that item along: after the drag began
/// at a point and the pointer went on by some distance, the selected item lies
/// that distance from where it lay when the drag began.
pub proof fn lemma_drag_from_begin(
    state: CanvasState,
    x: int,
    y: int,
    delta_x: int,
    delta_y: int,
)
    requires
        state.drag_begin(x, y).selected is Some,
        i64::MIN <= state.drag_begin(x, y).selected->0.coord_x + delta_x <= i64::MAX,
        i64::MIN <= state.drag_begin(x, y).selected->0.coord_y + delta_y <= i64::MAX,
    ensures
        state.drag_begin(x, y).selected == state.select(x, y).selected,
        state.drag_begin(x, y).drag_update(delta_x, delta_y).selected == Some(
            (Item {
                coord_x: (state.drag_begin(x, y).selected->0.coord_x + delta_x) as i64,
                coord_y: (state.drag_begin(x, y).selected->0.coord_y + delta_y) as i64,
                width: state.drag_begin(x, y).selected->0.width,
                height: state.drag_begin(x, y).selected->0.height,
            }),
        ),
{
}

/// The distances of a drag are taken from where it began and do not add up:
/// only the last update counts.
pub proof fn lemma_drag_update_replaces(
    state: CanvasState,
    first_x: int,
    first_y: int,
    then_x: int,
    then_y: int,
)
    ensures
        state.drag_update(first_x, first_y).drag_update(then_x, then_y) == state.drag_update(
            then_x,
            then_y,
        ),
{
}

/// A drag changes no item but the selected one, and adds or removes none.
pub proof fn lemma_drag_keeps_list(state: CanvasState, delta_x: int, delta_y: int)
    ensures
        state.drag_update(delta_x, delta_y).items == state.items,
        state.drag_update(delta_x, delta_y).selected is Some <==> state.selected is Some,
        state.drag_end().items == state.items,
        state.drag_end().selected == state.selected,
{
}

/// Deleting takes exactly the selected item off the canvas; with nothing
/// selected it changes nothing.
pub proof fn lemma_delete_removes_selected(state: CanvasState)
    ensures
        state.selected is None ==> state.delete_selected_item() == state,
        state.selected is Some ==> state.delete_selected_item().all_items()
            == state.all_items().remove(state.selected->0),
        state.delete_selected_item().items == state.items,
{
    match state.selected {
        Some(item) => {
            assert(state.items.to_multiset().insert(item).remove(item)
                =~= state.items.to_multiset());
        },
        None => {},
    }
}

/// The picture is painted in the order in which presses look for an item,
/// read backwards: the steps hold the stacked items one for one, and only the
/// selected item is highlighted.
pub proof fn lemma_paint_order_is_stack(state: CanvasState)
    ensures
        paint_order(state).len() == state.stacked().len(),
        forall|at: int|
            0 <= at < state.stacked().len() ==> (#[trigger] paint_order(state)[at]).item
                == state.stacked()[at],
        forall|at: int|
            0 <= at < state.stacked().len() ==> ((#[trigger] paint_order(state)[at]).highlighted
                <==> (state.selected is Some && at == state.items.len())),
{
}

} // verus!
