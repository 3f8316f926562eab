//! Shift-clicks only change the slots they name (the clicked slot, the
//! ranges its plan moves the stack into, and, when a craft is taken, the
//! crafting grid and the player slots that receive crafting remainders), and
//! never fill a slot past its limits.
use vstd::prelude::*;

use crate::conservation::{lemma_move_stack_to_conserves, lemma_plan_avoids_source};
use crate::item::{
    CraftingRemainderExt, DataComponentPatch, ItemStack, ItemStackData, MaxStackSizeExt,
};
use crate::menu::{MenuKind, SlotRange};
use crate::operations::{
    plan_fits, spec_add_to_player_inventory, spec_apply_quick_move, spec_crafting_grid,
    spec_crafting_result_on_take, spec_fill_pass, spec_inventory_scan_order, spec_merge_into,
    spec_merge_pass, spec_move_stack_to, spec_place_first, spec_place_into, spec_quick_move_plan,
    spec_take_from_grid, spec_take_from_grid_cell, spec_toggle_targets, present_data,
    lemma_plan_fits, QuickMovePlan, slots_valid, spec_slot_max_stack_size, min,
};

verus! {

/// `order` never visits slot `j`, and only visits slots below `len`.
pub open spec fn avoids(order: Seq<usize>, j: int, len: int) -> bool {
    forall|k: int| 0 <= k < order.len() ==> #[trigger] order[k] != j && order[k] < len
}

/// Whether a shift-click of slot `i` carried out by `plan` may change slot
/// `j` of a menu of kind `kind`.
pub open spec fn quick_move_may_change(kind: MenuKind, i: int, plan: QuickMovePlan, j: int) -> bool {
    j == i || match plan {
        QuickMovePlan::Stay => false,
        QuickMovePlan::Move { targets, .. } => targets.spec_contains(j),
        QuickMovePlan::MoveAndTake { targets } => targets.spec_contains(j)
            || kind.spec_player_slots().spec_contains(j) || (spec_crafting_grid(kind, i) matches Some(
            g,
        ) && g.spec_contains(j)),
        QuickMovePlan::MoveOrToggle { targets } => targets.spec_contains(j) || spec_toggle_targets(
            kind,
            i,
        ).spec_contains(j),
        QuickMovePlan::Toggle => spec_toggle_targets(kind, i).spec_contains(j),
        QuickMovePlan::EnchantOne => j == 0,
    }
}

proof fn lemma_order_in_range(r: SlotRange, reverse: bool, k: int)
    requires
        0 <= k < r.order(reverse).len(),
    ensures
        r.spec_contains(r.order(reverse)[k] as int),
{
}

/// A range that lies in the menu and leaves out `j` is walked without
/// visiting `j`.
pub(crate) proof fn lemma_range_avoids(r: SlotRange, reverse: bool, j: int, len: int)
    requires
        !r.spec_contains(j),
        r.end < len,
    ensures
        avoids(r.order(reverse), j, len),
{
    assert forall|k: int| 0 <= k < r.order(reverse).len() implies #[trigger] r.order(reverse)[k]
        != j && r.order(reverse)[k] < len by {
        lemma_order_in_range(r, reverse, k);
    }
}

proof fn lemma_merge_pass_local(
    kind: MenuKind,
    slots: Seq<ItemStack>,
    item: ItemStack,
    order: Seq<usize>,
    j: int,
)
    requires
        avoids(order, j, slots.len() as int),
        0 <= j < slots.len(),
    ensures
        spec_merge_pass(kind, slots, item, order).0.len() == slots.len(),
        spec_merge_pass(kind, slots, item, order).0[j] == slots[j],
    decreases order.len(),
{
    if order.len() > 0 && !item.spec_is_empty() {
        let r = spec_merge_into(kind, slots, item, order[0] as int);
        assert(order[0] != j && order[0] < slots.len());
        assert(r.0[j] == slots[j]);
        assert(avoids(order.drop_first(), j, r.0.len() as int)) by {
            assert forall|k: int| 0 <= k < order.drop_first().len() implies #[trigger] order.drop_first()[k]
                != j && order.drop_first()[k] < r.0.len() by {
                assert(order.drop_first()[k] == order[k + 1]);
            }
        }
        lemma_merge_pass_local(kind, r.0, r.1, order.drop_first(), j);
    }
}

proof fn lemma_place_first_local(
    kind: MenuKind,
    slots: Seq<ItemStack>,
    item: ItemStack,
    order: Seq<usize>,
    j: int,
)
    requires
        avoids(order, j, slots.len() as int),
        0 <= j < slots.len(),
    ensures
        spec_place_first(kind, slots, item, order).0.len() == slots.len(),
        spec_place_first(kind, slots, item, order).0[j] == slots[j],
    decreases order.len(),
{
    if order.len() > 0 {
        let r = spec_place_into(kind, slots, item, order[0] as int);
        assert(order[0] != j && order[0] < slots.len());
        if !r.2 {
            assert(avoids(order.drop_first(), j, slots.len() as int)) by {
                assert forall|k: int| 0 <= k < order.drop_first().len() implies #[trigger] order.drop_first()[k]
                    != j && order.drop_first()[k] < slots.len() by {
                    assert(order.drop_first()[k] == order[k + 1]);
                }
            }
            lemma_place_first_local(kind, slots, item, order.drop_first(), j);
        }
    }
}

proof fn lemma_fill_pass_local(
    kind: MenuKind,
    slots: Seq<ItemStack>,
    item: ItemStack,
    order: Seq<usize>,
    j: int,
)
    requires
        avoids(order, j, slots.len() as int),
        0 <= j < slots.len(),
    ensures
        spec_fill_pass(kind, slots, item, order).0.len() == slots.len(),
        spec_fill_pass(kind, slots, item, order).0[j] == slots[j],
    decreases order.len(),
{
    if order.len() > 0 && !item.spec_is_empty() {
        let r = spec_place_into(kind, slots, item, order[0] as int);
        assert(order[0] != j && order[0] < slots.len());
        assert(r.0[j] == slots[j]);
        assert(avoids(order.drop_first(), j, r.0.len() as int)) by {
            assert forall|k: int| 0 <= k < order.drop_first().len() implies #[trigger] order.drop_first()[k]
                != j && order.drop_first()[k] < r.0.len() by {
                assert(order.drop_first()[k] == order[k + 1]);
            }
        }
        lemma_fill_pass_local(kind, r.0, r.1, order.drop_first(), j);
    }
}

/// Moving the stack of `src` into `targets` changes no slot but `src` and
/// the targets.
pub proof fn lemma_move_stack_to_local(
    kind: MenuKind,
    slots: Seq<ItemStack>,
    src: int,
    targets: SlotRange,
    reverse: bool,
    j: int,
)
    requires
        0 <= src < slots.len(),
        0 <= j < slots.len(),
        targets.end < slots.len(),
        j != src,
        !targets.spec_contains(j),
    ensures
        spec_move_stack_to(kind, slots, src, targets, reverse).0.len() == slots.len(),
        spec_move_stack_to(kind, slots, src, targets, reverse).0[j] == slots[j],
{
    let order = targets.order(reverse);
    lemma_range_avoids(targets, reverse, j, slots.len() as int);
    let item = slots[src];
    let m = if item is Present && present_data(item).spec_max_stack_size() > 1 {
        spec_merge_pass(kind, slots, item, order)
    } else {
        (slots, item, false)
    };
    lemma_merge_pass_local(kind, slots, item, order, j);
    lemma_place_first_local(kind, m.0, m.1, order, j);
}

/// Adding a stack to the player inventory changes no slot outside the
/// player slots.
pub(crate) proof fn lemma_add_to_player_inventory_local(kind: MenuKind, slots: Seq<ItemStack>, stack: ItemStack, j: int)
    requires
        slots.len() == kind.spec_len(),
        0 <= j < slots.len(),
        !kind.spec_player_slots().spec_contains(j),
    ensures
        spec_add_to_player_inventory(kind, slots, stack).len() == slots.len(),
        spec_add_to_player_inventory(kind, slots, stack)[j] == slots[j],
{
    kind.lemma_player_slots();
    let order = spec_inventory_scan_order(kind);
    let hot = kind.spec_hotbar_slots();
    let main = SlotRange { start: kind.spec_player_slots().start, end: (hot.start - 1) as usize };
    lemma_range_avoids(hot, false, j, slots.len() as int);
    lemma_range_avoids(main, false, j, slots.len() as int);
    assert(avoids(order, j, slots.len() as int)) by {
        assert forall|k: int| 0 <= k < order.len() implies #[trigger] order[k] != j && order[k]
            < slots.len() by {
            if k < hot.order(false).len() {
                assert(order[k] == hot.order(false)[k]);
            } else {
                assert(order[k] == main.order(false)[k - hot.order(false).len()]);
            }
        }
    }
    let m = spec_merge_pass(kind, slots, stack, order);
    lemma_merge_pass_local(kind, slots, stack, order, j);
    lemma_fill_pass_local(kind, m.0, m.1, order, j);
}

/// Taking from one grid cell changes no slot but that cell and the player
/// slots.
pub(crate) proof fn lemma_take_from_grid_cell_local(kind: MenuKind, slots: Seq<ItemStack>, g: int, j: int)
    requires
        slots.len() == kind.spec_len(),
        0 <= g < slots.len(),
        0 <= j < slots.len(),
        j != g,
        !kind.spec_player_slots().spec_contains(j),
    ensures
        spec_take_from_grid_cell(kind, slots, g).len() == slots.len(),
        spec_take_from_grid_cell(kind, slots, g)[j] == slots[j],
{
    match slots[g] {
        ItemStack::Empty => {},
        ItemStack::Present(gi) => {
            let after = ItemStack::Present(
                ItemStackData { count: (gi.count - min(1, gi.count as int)) as i32, ..gi },
            ).spec_normalized();
            let s1 = slots.update(g, after);
            match gi.kind.spec_crafting_remainder() {
                None => {},
                Some(rk) => {
                    let remainder = ItemStackData {
                        kind: rk,
                        count: 1,
                        component_patch: DataComponentPatch::spec_empty(),
                    };
                    lemma_add_to_player_inventory_local(kind, s1, ItemStack::Present(remainder), j);
                },
            }
        },
    }
}

pub(crate) proof fn lemma_take_from_grid_local(kind: MenuKind, slots: Seq<ItemStack>, order: Seq<usize>, j: int)
    requires
        slots.len() == kind.spec_len(),
        avoids(order, j, slots.len() as int),
        0 <= j < slots.len(),
        !kind.spec_player_slots().spec_contains(j),
    ensures
        spec_take_from_grid(kind, slots, order).len() == slots.len(),
        spec_take_from_grid(kind, slots, order)[j] == slots[j],
    decreases order.len(),
{
    if order.len() > 0 {
        assert(order[0] != j && order[0] < slots.len());
        lemma_take_from_grid_cell_local(kind, slots, order[0] as int, j);
        let s1 = spec_take_from_grid_cell(kind, slots, order[0] as int);
        assert(avoids(order.drop_first(), j, s1.len() as int)) by {
            assert forall|k: int| 0 <= k < order.drop_first().len() implies #[trigger] order.drop_first()[k]
                != j && order.drop_first()[k] < s1.len() by {
                assert(order.drop_first()[k] == order[k + 1]);
            }
        }
        lemma_take_from_grid_local(kind, s1, order.drop_first(), j);
    }
}

/// A shift-click changes only the slots its plan names: the clicked slot,
/// the ranges it moves the stack into (the toggle range too, when the plan
/// may fall back to it), the enchanting slot for a single enchanting move,
/// and, when a craft is taken, the crafting grid and the player slots that
/// receive crafting remainders. Every other slot keeps its stack.
pub proof fn lemma_quick_move_is_local(kind: MenuKind, slots: Seq<ItemStack>, i: int, j: int)
    requires
        slots.len() == kind.spec_len(),
        0 <= i < slots.len(),
        0 <= j < slots.len(),
        !slots[i].spec_is_empty(),
        !quick_move_may_change(
            kind,
            i,
            spec_quick_move_plan(kind, slots, i, present_data(slots[i])),
            j,
        ),
    ensures
        spec_apply_quick_move(kind, slots, i, spec_quick_move_plan(kind, slots, i, present_data(slots[i])))[j]
            == slots[j],
{
    let plan = spec_quick_move_plan(kind, slots, i, present_data(slots[i]));
    lemma_plan_fits(kind, slots, i, present_data(slots[i]));
    kind.lemma_player_slots();
    kind.lemma_location_kind(i);
    let toggle = spec_toggle_targets(kind, i);
    assert(toggle.end < slots.len());
    match plan {
        QuickMovePlan::Stay => {},
        QuickMovePlan::Move { targets, reverse } => {
            lemma_move_stack_to_local(kind, slots, i, targets, reverse, j);
        },
        QuickMovePlan::MoveAndTake { targets } => {
            lemma_move_stack_to_local(kind, slots, i, targets, true, j);
            let r = spec_move_stack_to(kind, slots, i, targets, true);
            if r.1 {
                match spec_crafting_grid(kind, i) {
                    Some(grid) => {
                        assert(grid.end < slots.len());
                        lemma_range_avoids(grid, false, j, slots.len() as int);
                        lemma_take_from_grid_local(kind, r.0, grid.order(false), j);
                    },
                    None => {},
                }
            }
        },
        QuickMovePlan::MoveOrToggle { targets } => {
            lemma_move_stack_to_local(kind, slots, i, targets, false, j);
            let r = spec_move_stack_to(kind, slots, i, targets, false);
            if !r.1 {
                lemma_move_stack_to_local(kind, r.0, i, toggle, false, j);
            }
        },
        QuickMovePlan::Toggle => {
            lemma_move_stack_to_local(kind, slots, i, toggle, false, j);
        },
        QuickMovePlan::EnchantOne => {},
    }
}

/// A stack is within the limits of slot `t`: no more items than the slot
/// holds, nor than the item stacks to.
pub open spec fn within_limit(kind: MenuKind, s: ItemStack, t: int) -> bool {
    s matches ItemStack::Present(d) ==> d.count <= spec_slot_max_stack_size(kind, t) && d.count
        <= d.spec_max_stack_size()
}

/// Every slot holds a stack within its limits.
pub open spec fn slots_within_limits(kind: MenuKind, s: Seq<ItemStack>) -> bool {
    forall|j: int| 0 <= j < s.len() ==> within_limit(kind, #[trigger] s[j], j)
}

/// What is left of a moving stack: nothing, or some of the same item, no
/// more than there was.
pub open spec fn remainder_of(r: ItemStack, item: ItemStack) -> bool {
    r matches ItemStack::Present(e) ==> (item matches ItemStack::Present(d) && e.same_item(d)
        && 0 <= e.count <= d.count)
}

proof fn lemma_merge_into_limits(kind: MenuKind, slots: Seq<ItemStack>, item: ItemStack, t: int)
    requires
        0 <= t < slots.len(),
        item.valid(),
        slots_within_limits(kind, slots),
    ensures
        slots_within_limits(kind, spec_merge_into(kind, slots, item, t).0),
        spec_merge_into(kind, slots, item, t).0.len() == slots.len(),
        remainder_of(spec_merge_into(kind, slots, item, t).1, item),
{
    let r = spec_merge_into(kind, slots, item, t);
    assert forall|j: int| 0 <= j < r.0.len() implies within_limit(kind, #[trigger] r.0[j], j) by {
        if j != t {
            assert(r.0[j] == slots[j]);
        }
    }
}

proof fn lemma_place_into_limits(kind: MenuKind, slots: Seq<ItemStack>, item: ItemStack, t: int)
    requires
        0 <= t < slots.len(),
        item.valid(),
        slots_within_limits(kind, slots),
    ensures
        slots_within_limits(kind, spec_place_into(kind, slots, item, t).0),
        spec_place_into(kind, slots, item, t).0.len() == slots.len(),
        remainder_of(spec_place_into(kind, slots, item, t).1, item),
{
    let r = spec_place_into(kind, slots, item, t);
    assert forall|j: int| 0 <= j < r.0.len() implies within_limit(kind, #[trigger] r.0[j], j) by {
        if j != t {
            assert(r.0[j] == slots[j]);
        }
    }
}

/// A remainder of a remainder is a remainder.
proof fn lemma_remainder_trans(a: ItemStack, b: ItemStack, c: ItemStack)
    requires
        remainder_of(a, b),
        remainder_of(b, c),
    ensures
        remainder_of(a, c),
{
}

/// Slots that `order` visits all lie in the menu.
pub open spec fn in_menu(order: Seq<usize>, len: int) -> bool {
    forall|k: int| 0 <= k < order.len() ==> #[trigger] order[k] < len
}

proof fn lemma_merge_pass_limits(kind: MenuKind, slots: Seq<ItemStack>, item: ItemStack, order: Seq<usize>)
    requires
        in_menu(order, slots.len() as int),
        item.valid(),
        slots_within_limits(kind, slots),
    ensures
        slots_within_limits(kind, spec_merge_pass(kind, slots, item, order).0),
        spec_merge_pass(kind, slots, item, order).0.len() == slots.len(),
        remainder_of(spec_merge_pass(kind, slots, item, order).1, item),
    decreases order.len(),
{
    if order.len() > 0 && !item.spec_is_empty() {
        assert(order[0] < slots.len());
        let r = spec_merge_into(kind, slots, item, order[0] as int);
        lemma_merge_into_limits(kind, slots, item, order[0] as int);
        assert(in_menu(order.drop_first(), r.0.len() as int)) by {
            assert forall|k: int| 0 <= k < order.drop_first().len() implies #[trigger] order.drop_first()[k]
                < r.0.len() by {
                assert(order.drop_first()[k] == order[k + 1]);
            }
        }
        assert(r.1.valid());
        lemma_merge_pass_limits(kind, r.0, r.1, order.drop_first());
        lemma_remainder_trans(spec_merge_pass(kind, r.0, r.1, order.drop_first()).1, r.1, item);
    }
}

proof fn lemma_place_first_limits(kind: MenuKind, slots: Seq<ItemStack>, item: ItemStack, order: Seq<usize>)
    requires
        in_menu(order, slots.len() as int),
        item.valid(),
        slots_within_limits(kind, slots),
    ensures
        slots_within_limits(kind, spec_place_first(kind, slots, item, order).0),
        spec_place_first(kind, slots, item, order).0.len() == slots.len(),
        remainder_of(spec_place_first(kind, slots, item, order).1, item),
    decreases order.len(),
{
    if order.len() > 0 {
        assert(order[0] < slots.len());
        lemma_place_into_limits(kind, slots, item, order[0] as int);
        let r = spec_place_into(kind, slots, item, order[0] as int);
        if !r.2 {
            assert(in_menu(order.drop_first(), slots.len() as int)) by {
                assert forall|k: int| 0 <= k < order.drop_first().len() implies #[trigger] order.drop_first()[k]
                    < slots.len() by {
                    assert(order.drop_first()[k] == order[k + 1]);
                }
            }
            lemma_place_first_limits(kind, slots, item, order.drop_first());
        }
    }
}

proof fn lemma_fill_pass_limits(kind: MenuKind, slots: Seq<ItemStack>, item: ItemStack, order: Seq<usize>)
    requires
        in_menu(order, slots.len() as int),
        item.valid(),
        slots_within_limits(kind, slots),
    ensures
        slots_within_limits(kind, spec_fill_pass(kind, slots, item, order).0),
        spec_fill_pass(kind, slots, item, order).0.len() == slots.len(),
    decreases order.len(),
{
    if order.len() > 0 && !item.spec_is_empty() {
        assert(order[0] < slots.len());
        let r = spec_place_into(kind, slots, item, order[0] as int);
        lemma_place_into_limits(kind, slots, item, order[0] as int);
        assert(in_menu(order.drop_first(), r.0.len() as int)) by {
            assert forall|k: int| 0 <= k < order.drop_first().len() implies #[trigger] order.drop_first()[k]
                < r.0.len() by {
                assert(order.drop_first()[k] == order[k + 1]);
            }
        }
        assert(r.1.valid());
        lemma_fill_pass_limits(kind, r.0, r.1, order.drop_first());
    }
}

pub(crate) proof fn lemma_range_in_menu(r: SlotRange, reverse: bool, len: int)
    requires
        r.end < len,
    ensures
        in_menu(r.order(reverse), len),
{
    assert forall|k: int| 0 <= k < r.order(reverse).len() implies #[trigger] r.order(reverse)[k] < len by {
        lemma_order_in_range(r, reverse, k);
    }
}

/// Moving a stack into a range keeps every slot within its limits.
pub proof fn lemma_move_stack_to_limits(
    kind: MenuKind,
    slots: Seq<ItemStack>,
    src: int,
    targets: SlotRange,
    reverse: bool,
)
    requires
        0 <= src < slots.len(),
        targets.end < slots.len(),
        slots_valid(slots),
        slots_within_limits(kind, slots),
    ensures
        slots_within_limits(kind, spec_move_stack_to(kind, slots, src, targets, reverse).0),
        spec_move_stack_to(kind, slots, src, targets, reverse).0.len() == slots.len(),
{
    let order = targets.order(reverse);
    lemma_range_in_menu(targets, reverse, slots.len() as int);
    let item = slots[src];
    let m = if item is Present && present_data(item).spec_max_stack_size() > 1 {
        spec_merge_pass(kind, slots, item, order)
    } else {
        (slots, item, false)
    };
    assert(item.valid());
    lemma_merge_pass_limits(kind, slots, item, order);
    let p = if !m.1.spec_is_empty() {
        spec_place_first(kind, m.0, m.1, order)
    } else {
        (m.0, m.1, false)
    };
    lemma_place_first_limits(kind, m.0, m.1, order);
    lemma_remainder_trans(p.1, m.1, item);
    assert(within_limit(kind, item, src));
    let r = p.0.update(src, p.1);
    assert forall|j: int| 0 <= j < r.len() implies within_limit(kind, #[trigger] r[j], j) by {
        if j != src {
            assert(r[j] == p.0[j]);
        }
    }
}

proof fn lemma_add_to_player_inventory_limits(kind: MenuKind, slots: Seq<ItemStack>, stack: ItemStack)
    requires
        slots.len() == kind.spec_len(),
        stack.valid(),
        slots_within_limits(kind, slots),
    ensures
        slots_within_limits(kind, spec_add_to_player_inventory(kind, slots, stack)),
        spec_add_to_player_inventory(kind, slots, stack).len() == slots.len(),
{
    kind.lemma_player_slots();
    let order = spec_inventory_scan_order(kind);
    let hot = kind.spec_hotbar_slots();
    let main = SlotRange { start: kind.spec_player_slots().start, end: (hot.start - 1) as usize };
    lemma_range_in_menu(hot, false, slots.len() as int);
    lemma_range_in_menu(main, false, slots.len() as int);
    assert(in_menu(order, slots.len() as int)) by {
        assert forall|k: int| 0 <= k < order.len() implies #[trigger] order[k] < slots.len() by {
            if k < hot.order(false).len() {
                assert(order[k] == hot.order(false)[k]);
            } else {
                assert(order[k] == main.order(false)[k - hot.order(false).len()]);
            }
        }
    }
    let m = spec_merge_pass(kind, slots, stack, order);
    lemma_merge_pass_limits(kind, slots, stack, order);
    assert(m.1.valid());
    lemma_fill_pass_limits(kind, m.0, m.1, order);
}

proof fn lemma_take_from_grid_cell_limits(kind: MenuKind, slots: Seq<ItemStack>, g: int)
    requires
        slots.len() == kind.spec_len(),
        0 <= g < slots.len(),
        slots_within_limits(kind, slots),
    ensures
        slots_within_limits(kind, spec_take_from_grid_cell(kind, slots, g)),
        spec_take_from_grid_cell(kind, slots, g).len() == slots.len(),
{
    match slots[g] {
        ItemStack::Empty => {},
        ItemStack::Present(gi) => {
            let after = ItemStack::Present(
                ItemStackData { count: (gi.count - min(1, gi.count as int)) as i32, ..gi },
            ).spec_normalized();
            let s1 = slots.update(g, after);
            assert(within_limit(kind, slots[g], g));
            assert forall|j: int| 0 <= j < s1.len() implies within_limit(kind, #[trigger] s1[j], j) by {
                if j != g {
                    assert(s1[j] == slots[j]);
                }
            }
            match gi.kind.spec_crafting_remainder() {
                None => {},
                Some(rk) => {
                    let remainder = ItemStackData {
                        kind: rk,
                        count: 1,
                        component_patch: DataComponentPatch::spec_empty(),
                    };
                    match after {
                        ItemStack::Empty => {
                            let s2 = s1.update(g, ItemStack::Present(remainder));
                            assert forall|j: int| 0 <= j < s2.len() implies within_limit(kind, #[trigger] s2[j], j) by {
                                if j != g {
                                    assert(s2[j] == s1[j]);
                                }
                            }
                        },
                        ItemStack::Present(leftover) => {
                            assert(!leftover.same_item(remainder));
                            assert(ItemStack::Present(remainder).valid());
                            lemma_add_to_player_inventory_limits(kind, s1, ItemStack::Present(remainder));
                        },
                    }
                },
            }
        },
    }
}

proof fn lemma_take_from_grid_limits(kind: MenuKind, slots: Seq<ItemStack>, order: Seq<usize>)
    requires
        slots.len() == kind.spec_len(),
        in_menu(order, slots.len() as int),
        slots_within_limits(kind, slots),
    ensures
        slots_within_limits(kind, spec_take_from_grid(kind, slots, order)),
        spec_take_from_grid(kind, slots, order).len() == slots.len(),
    decreases order.len(),
{
    if order.len() > 0 {
        assert(order[0] < slots.len());
        lemma_take_from_grid_cell_limits(kind, slots, order[0] as int);
        let s1 = spec_take_from_grid_cell(kind, slots, order[0] as int);
        assert(in_menu(order.drop_first(), s1.len() as int)) by {
            assert forall|k: int| 0 <= k < order.drop_first().len() implies #[trigger] order.drop_first()[k]
                < s1.len() by {
                assert(order.drop_first()[k] == order[k + 1]);
            }
        }
        lemma_take_from_grid_limits(kind, s1, order.drop_first());
    }
}

/// A shift-click never fills a slot past its limits: when every slot of a
/// valid menu holds no more than the slot holds and its item stacks to,
/// that still holds after the click.
#[verifier::rlimit(50)]
#[verifier::spinoff_prover]
pub proof fn lemma_quick_move_respects_limits(kind: MenuKind, slots: Seq<ItemStack>, i: int)
    requires
        slots_valid(slots),
        slots.len() == kind.spec_len(),
        0 <= i < slots.len(),
        !slots[i].spec_is_empty(),
        slots_within_limits(kind, slots),
    ensures
        slots_within_limits(
            kind,
            spec_apply_quick_move(kind, slots, i, spec_quick_move_plan(kind, slots, i, present_data(slots[i]))),
        ),
{
    let plan = spec_quick_move_plan(kind, slots, i, present_data(slots[i]));
    lemma_plan_fits(kind, slots, i, present_data(slots[i]));
    kind.lemma_player_slots();
    kind.lemma_location_kind(i);
    let toggle = spec_toggle_targets(kind, i);
    assert(toggle.end < slots.len());
    match plan {
        QuickMovePlan::Stay => {},
        QuickMovePlan::Move { targets, reverse } => {
            lemma_move_stack_to_limits(kind, slots, i, targets, reverse);
        },
        QuickMovePlan::MoveAndTake { targets } => {
            lemma_move_stack_to_limits(kind, slots, i, targets, true);
            let r = spec_move_stack_to(kind, slots, i, targets, true);
            if r.1 {
                match spec_crafting_grid(kind, i) {
                    Some(grid) => {
                        assert(grid.end < slots.len());
                        lemma_range_in_menu(grid, false, slots.len() as int);
                        lemma_take_from_grid_limits(kind, r.0, grid.order(false));
                    },
                    None => {},
                }
            }
        },
        QuickMovePlan::MoveOrToggle { targets } => {
            lemma_move_stack_to_limits(kind, slots, i, targets, false);
            let r = spec_move_stack_to(kind, slots, i, targets, false);
            if !r.1 {
                lemma_plan_avoids_source(kind, slots, i);
                lemma_move_stack_to_conserves(
                    kind,
                    slots,
                    i,
                    targets,
                    false,
                    present_data(slots[i]),
                );
                lemma_move_stack_to_limits(kind, r.0, i, toggle, false);
            }
        },
        QuickMovePlan::Toggle => {
            lemma_move_stack_to_limits(kind, slots, i, toggle, false);
        },
        QuickMovePlan::EnchantOne => {
            let d = present_data(slots[i]);
            assert(slots[i].valid());
            let s1 = slots.update(
                i,
                ItemStack::Present(ItemStackData { count: (d.count - min(1, d.count as int)) as i32, ..d }).spec_normalized(),
            );
            let s2 = s1.update(0, ItemStack::spec_from_data(ItemStackData { count: min(1, d.count as int) as i32, ..d }));
            assert(within_limit(kind, slots[i], i));
            assert forall|j: int| 0 <= j < s2.len() implies within_limit(kind, #[trigger] s2[j], j) by {
                if j != 0 && j != i {
                    assert(s2[j] == slots[j]);
                } else if j != 0 {
                    assert(s2[j] == s1[i]);
                }
            }
        },
    }
}

} // verus!
