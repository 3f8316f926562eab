//! Shift-clicks move items around a menu without creating or destroying any,
//! and never add items to the clicked slot.
use vstd::prelude::*;

use crate::item::{ItemStack, ItemStackData, MaxStackSizeExt};
use crate::locality::{
    in_menu, lemma_range_avoids, lemma_range_in_menu, lemma_take_from_grid_local, remainder_of,
};
use crate::menu::{MenuKind, SlotRange};
use crate::operations::{
    present_data, slots_valid, spec_apply_quick_move, spec_fill_pass, spec_merge_into,
    spec_merge_pass, spec_move_stack_to, spec_place_first, spec_place_into,
    spec_quick_move_plan, spec_toggle_targets, QuickMovePlan, spec_crafting_grid,
    spec_add_to_player_inventory, spec_inventory_scan_order,
    lemma_plan_fits,
};

verus! {

/// How many items of the kind and components of `x` the stack holds.
pub open spec fn contribution(s: ItemStack, x: ItemStackData) -> int {
    match s {
        ItemStack::Present(d) => if !d.spec_is_empty() && d.same_item(x) {
            d.count as int
        } else {
            0
        },
        ItemStack::Empty => 0,
    }
}

/// How many items of the kind and components of `x` the slots hold in all.
pub open spec fn amount_of(slots: Seq<ItemStack>, x: ItemStackData) -> int
    decreases slots.len(),
{
    if slots.len() == 0 {
        0
    } else {
        amount_of(slots.drop_last(), x) + contribution(slots.last(), x)
    }
}

pub proof fn lemma_amount_update(slots: Seq<ItemStack>, i: int, v: ItemStack, x: ItemStackData)
    requires
        0 <= i < slots.len(),
    ensures
        amount_of(slots.update(i, v), x) == amount_of(slots, x) - contribution(slots[i], x)
            + contribution(v, x),
    decreases slots.len(),
{
    let u = slots.update(i, v);
    if i == slots.len() - 1 {
        assert(u.drop_last() =~= slots.drop_last());
    } else {
        assert(u.drop_last() =~= slots.drop_last().update(i, v));
        lemma_amount_update(slots.drop_last(), i, v, x);
    }
}

/// The slots with the moving stack put back in its source slot.
pub open spec fn pending(slots: Seq<ItemStack>, item: ItemStack, src: int) -> Seq<ItemStack> {
    slots.update(src, item)
}

/// The order never visits the source slot, and stays inside the slots.
pub open spec fn order_avoids(order: Seq<usize>, src: int, len: int) -> bool {
    forall|k: int| 0 <= k < order.len() ==> #[trigger] order[k] != src && order[k] < len
}

proof fn lemma_merge_into_conserves(
    kind: MenuKind,
    slots: Seq<ItemStack>,
    item: ItemStack,
    t: int,
    src: int,
    x: ItemStackData,
)
    requires
        slots_valid(slots),
        item.valid(),
        0 <= t < slots.len(),
        0 <= src < slots.len(),
        t != src,
    ensures
        ({
            let r = spec_merge_into(kind, slots, item, t);
            &&& slots_valid(r.0)
            &&& r.1.valid()
            &&& r.0.len() == slots.len()
            &&& amount_of(pending(r.0, r.1, src), x) == amount_of(pending(slots, item, src), x)
        }),
{
    let r = spec_merge_into(kind, slots, item, t);
    assert(slots[t].valid());
    lemma_amount_update(slots, src, item, x);
    if r.2 {
        lemma_amount_update(slots, t, r.0[t], x);
        lemma_amount_update(r.0, src, r.1, x);
        assert(r.0[src] == slots[src]);
        assert forall|j: int| 0 <= j < r.0.len() implies #[trigger] r.0[j].valid() by {
            if j != t {
                assert(slots[j].valid());
            }
        }
    } else {
        lemma_amount_update(r.0, src, r.1, x);
    }
}

proof fn lemma_place_into_conserves(
    kind: MenuKind,
    slots: Seq<ItemStack>,
    item: ItemStack,
    t: int,
    src: int,
    x: ItemStackData,
)
    requires
        slots_valid(slots),
        item.valid(),
        0 <= t < slots.len(),
        0 <= src < slots.len(),
        t != src,
    ensures
        ({
            let r = spec_place_into(kind, slots, item, t);
            &&& slots_valid(r.0)
            &&& r.1.valid()
            &&& r.0.len() == slots.len()
            &&& amount_of(pending(r.0, r.1, src), x) == amount_of(pending(slots, item, src), x)
        }),
{
    let r = spec_place_into(kind, slots, item, t);
    assert(slots[t].valid());
    lemma_amount_update(slots, src, item, x);
    if r.2 {
        lemma_amount_update(slots, t, r.0[t], x);
        lemma_amount_update(r.0, src, r.1, x);
        assert(r.0[src] == slots[src]);
        assert forall|j: int| 0 <= j < r.0.len() implies #[trigger] r.0[j].valid() by {
            if j != t {
                assert(slots[j].valid());
            }
        }
    } else {
        lemma_amount_update(r.0, src, r.1, x);
    }
}

proof fn lemma_merge_pass_conserves(
    kind: MenuKind,
    slots: Seq<ItemStack>,
    item: ItemStack,
    order: Seq<usize>,
    src: int,
    x: ItemStackData,
)
    requires
        slots_valid(slots),
        item.valid(),
        0 <= src < slots.len(),
        order_avoids(order, src, slots.len() as int),
    ensures
        ({
            let r = spec_merge_pass(kind, slots, item, order);
            &&& slots_valid(r.0)
            &&& r.1.valid()
            &&& r.0.len() == slots.len()
            &&& amount_of(pending(r.0, r.1, src), x) == amount_of(pending(slots, item, src), x)
        }),
    decreases order.len(),
{
    if order.len() == 0 || item.spec_is_empty() {
    } else {
        assert(order[0] != src && order[0] < slots.len());
        lemma_merge_into_conserves(kind, slots, item, order[0] as int, src, x);
        let r = spec_merge_into(kind, slots, item, order[0] as int);
        assert(order_avoids(order.drop_first(), src, slots.len() as int)) by {
            assert forall|k: int| 0 <= k < order.drop_first().len() implies #[trigger] order.drop_first()[k]
                != src && order.drop_first()[k] < slots.len() by {
                assert(order.drop_first()[k] == order[k + 1]);
            }
        }
        lemma_merge_pass_conserves(kind, r.0, r.1, order.drop_first(), src, x);
    }
}

proof fn lemma_place_first_conserves(
    kind: MenuKind,
    slots: Seq<ItemStack>,
    item: ItemStack,
    order: Seq<usize>,
    src: int,
    x: ItemStackData,
)
    requires
        slots_valid(slots),
        item.valid(),
        0 <= src < slots.len(),
        order_avoids(order, src, slots.len() as int),
    ensures
        ({
            let r = spec_place_first(kind, slots, item, order);
            &&& slots_valid(r.0)
            &&& r.1.valid()
            &&& r.0.len() == slots.len()
            &&& amount_of(pending(r.0, r.1, src), x) == amount_of(pending(slots, item, src), x)
        }),
    decreases order.len(),
{
    if order.len() == 0 {
    } else {
        assert(order[0] != src && order[0] < slots.len());
        lemma_place_into_conserves(kind, slots, item, order[0] as int, src, x);
        let r = spec_place_into(kind, slots, item, order[0] as int);
        if !r.2 {
            assert(order_avoids(order.drop_first(), src, slots.len() as int)) by {
                assert forall|k: int| 0 <= k < order.drop_first().len() implies #[trigger] order.drop_first()[k]
                    != src && order.drop_first()[k] < slots.len() by {
                    assert(order.drop_first()[k] == order[k + 1]);
                }
            }
            lemma_place_first_conserves(kind, slots, item, order.drop_first(), src, x);
        }
    }
}

/// The walk of a range avoids the source when the range does not contain
/// it.
pub proof fn lemma_range_order_avoids(targets: SlotRange, reverse: bool, src: int, len: int)
    requires
        !targets.spec_contains(src),
        targets.end < len,
    ensures
        order_avoids(targets.order(reverse), src, len),
{
    let order = targets.order(reverse);
    assert forall|k: int| 0 <= k < order.len() implies #[trigger] order[k] != src && order[k] < len by {
    }
}

/// Moving a stack into a range that does not contain its slot keeps every
/// kind of item at the same total, and keeps the menu valid.
pub proof fn lemma_move_stack_to_conserves(
    kind: MenuKind,
    slots: Seq<ItemStack>,
    src: int,
    targets: SlotRange,
    reverse: bool,
    x: ItemStackData,
)
    requires
        slots_valid(slots),
        0 <= src < slots.len(),
        targets.end < slots.len(),
        !targets.spec_contains(src),
    ensures
        slots_valid(spec_move_stack_to(kind, slots, src, targets, reverse).0),
        spec_move_stack_to(kind, slots, src, targets, reverse).0.len() == slots.len(),
        amount_of(spec_move_stack_to(kind, slots, src, targets, reverse).0, x) == amount_of(
            slots,
            x,
        ),
{
    let order = targets.order(reverse);
    let item = slots[src];
    assert(item.valid());
    lemma_range_order_avoids(targets, reverse, src, slots.len() as int);
    assert(pending(slots, item, src) =~= slots);
    let m = if item is Present && present_data(item).spec_max_stack_size() > 1 {
        lemma_merge_pass_conserves(kind, slots, item, order, src, x);
        spec_merge_pass(kind, slots, item, order)
    } else {
        (slots, item, false)
    };
    let p = if !m.1.spec_is_empty() {
        lemma_place_first_conserves(kind, m.0, m.1, order, src, x);
        spec_place_first(kind, m.0, m.1, order)
    } else {
        (m.0, m.1, false)
    };
    assert(spec_move_stack_to(kind, slots, src, targets, reverse).0 == pending(p.0, p.1, src));
    assert forall|j: int| 0 <= j < p.0.len() implies #[trigger] p.0.update(src, p.1)[j].valid() by {
        if j != src {
            assert(p.0[j].valid());
        }
    }
}

/// The ranges of a shift-click plan never contain the clicked slot, and a
/// single enchanting move lands in an empty slot other than the source.
pub open spec fn plan_avoids_source(kind: MenuKind, slots: Seq<ItemStack>, i: int, plan: QuickMovePlan) -> bool {
    match plan {
        QuickMovePlan::Move { targets, .. } => !targets.spec_contains(i) && targets.end < slots.len(),
        QuickMovePlan::MoveAndTake { targets } => !targets.spec_contains(i) && targets.end < slots.len(),
        QuickMovePlan::MoveOrToggle { targets } => {
            &&& !targets.spec_contains(i)
            &&& targets.end < slots.len()
            &&& !spec_toggle_targets(kind, i).spec_contains(i)
            &&& spec_toggle_targets(kind, i).end < slots.len()
        },
        QuickMovePlan::Toggle => !spec_toggle_targets(kind, i).spec_contains(i)
            && spec_toggle_targets(kind, i).end < slots.len(),
        QuickMovePlan::EnchantOne => i != 0 && slots[0].spec_is_empty(),
        QuickMovePlan::Stay => true,
    }
}

#[verifier::rlimit(100)]
#[verifier::spinoff_prover]
pub proof fn lemma_plan_avoids_source(kind: MenuKind, slots: Seq<ItemStack>, i: int)
    requires
        slots.len() == kind.spec_len(),
        0 <= i < slots.len(),
        !slots[i].spec_is_empty(),
    ensures
        plan_avoids_source(kind, slots, i, spec_quick_move_plan(kind, slots, i, present_data(slots[i]))),
{
    kind.lemma_player_slots();
    kind.lemma_location_kind(i);
    match kind {
        MenuKind::Player => {},
        MenuKind::Generic9x1 => {},
        MenuKind::Generic9x2 => {},
        MenuKind::Generic9x3 => {},
        MenuKind::Generic9x4 => {},
        MenuKind::Generic9x5 => {},
        MenuKind::Generic9x6 => {},
        MenuKind::Generic3x3 => {},
        MenuKind::Crafter3x3 => {},
        MenuKind::Anvil => {},
        MenuKind::Beacon => {},
        MenuKind::BlastFurnace => {},
        MenuKind::BrewingStand => {},
        MenuKind::Crafting => {},
        MenuKind::Enchantment => {},
        MenuKind::Furnace => {},
        MenuKind::Grindstone => {},
        MenuKind::Hopper => {},
        MenuKind::Lectern => {},
        MenuKind::Loom => {},
        MenuKind::Merchant => {},
        MenuKind::ShulkerBox => {},
        MenuKind::Smithing => {},
        MenuKind::Smoker => {},
        MenuKind::CartographyTable => {},
        MenuKind::Stonecutter => {},
    }
}

/// A shift-click never creates or destroys items: for every kind of item
/// (with its components), the menu holds as many after the click as before.
/// Taking a craft out of a crafting result slot is the exception, since it
/// consumes the grid.
pub proof fn lemma_quick_move_conserves_items(kind: MenuKind, slots: Seq<ItemStack>, i: int, x: ItemStackData)
    requires
        slots_valid(slots),
        slots.len() == kind.spec_len(),
        0 <= i < slots.len(),
        !slots[i].spec_is_empty(),
        !(spec_quick_move_plan(kind, slots, i, present_data(slots[i])) is MoveAndTake),
    ensures
        amount_of(
            spec_apply_quick_move(kind, slots, i, spec_quick_move_plan(kind, slots, i, present_data(slots[i]))),
            x,
        ) == amount_of(slots, x),
{
    let plan = spec_quick_move_plan(kind, slots, i, present_data(slots[i]));
    {
        lemma_plan_avoids_source(kind, slots, i);
        match plan {
            QuickMovePlan::Stay => {},
            QuickMovePlan::Move { targets, reverse } => {
                lemma_move_stack_to_conserves(kind, slots, i, targets, reverse, x);
            },
            QuickMovePlan::MoveAndTake { .. } => {},
            QuickMovePlan::MoveOrToggle { targets } => {
                lemma_move_stack_to_conserves(kind, slots, i, targets, false, x);
                let r = spec_move_stack_to(kind, slots, i, targets, false);
                if !r.1 {
                    lemma_move_stack_to_conserves(kind, r.0, i, spec_toggle_targets(kind, i), false, x);
                }
            },
            QuickMovePlan::Toggle => {
                lemma_move_stack_to_conserves(kind, slots, i, spec_toggle_targets(kind, i), false, x);
            },
            QuickMovePlan::EnchantOne => {
                let d = present_data(slots[i]);
                let s1 = slots.update(
                    i,
                    ItemStack::Present(ItemStackData { count: (d.count - 1) as i32, ..d }).spec_normalized(),
                );
                lemma_amount_update(slots, i, s1[i], x);
                lemma_amount_update(s1, 0, ItemStack::spec_from_data(ItemStackData { count: 1, ..d }), x);
            },
        }
    }
}

/// What is left of a valid stack is valid.
proof fn lemma_remainder_valid(r: ItemStack, item: ItemStack)
    requires
        remainder_of(r, item),
        item.valid(),
    ensures
        r.valid(),
{
}

proof fn lemma_merge_pass_remainder(kind: MenuKind, slots: Seq<ItemStack>, item: ItemStack, order: Seq<usize>)
    requires
        item.valid(),
    ensures
        remainder_of(spec_merge_pass(kind, slots, item, order).1, item),
    decreases order.len(),
{
    if order.len() > 0 && !item.spec_is_empty() {
        let r = spec_merge_into(kind, slots, item, order[0] as int);
        assert(remainder_of(r.1, item));
        lemma_remainder_valid(r.1, item);
        lemma_merge_pass_remainder(kind, r.0, r.1, order.drop_first());
    }
}

proof fn lemma_place_first_remainder(kind: MenuKind, slots: Seq<ItemStack>, item: ItemStack, order: Seq<usize>)
    requires
        item.valid(),
    ensures
        remainder_of(spec_place_first(kind, slots, item, order).1, item),
    decreases order.len(),
{
    if order.len() > 0 {
        let r = spec_place_into(kind, slots, item, order[0] as int);
        assert(remainder_of(r.1, item));
        if !r.2 {
            lemma_place_first_remainder(kind, slots, item, order.drop_first());
        }
    }
}

/// After moving the stack of `src` into a range, `src` holds what is left of
/// it.
proof fn lemma_move_stack_to_source(
    kind: MenuKind,
    slots: Seq<ItemStack>,
    src: int,
    targets: SlotRange,
    reverse: bool,
)
    requires
        0 <= src < slots.len(),
        targets.end < slots.len(),
        slots[src].valid(),
    ensures
        spec_move_stack_to(kind, slots, src, targets, reverse).0[src] == {
            let order = targets.order(reverse);
            let item = slots[src];
            let m = if item is Present && present_data(item).spec_max_stack_size() > 1 {
                spec_merge_pass(kind, slots, item, order)
            } else {
                (slots, item, false)
            };
            if !m.1.spec_is_empty() {
                spec_place_first(kind, m.0, m.1, order).1
            } else {
                m.1
            }
        },
        remainder_of(spec_move_stack_to(kind, slots, src, targets, reverse).0[src], slots[src]),
{
    let order = targets.order(reverse);
    let item = slots[src];
    let m = if item is Present && present_data(item).spec_max_stack_size() > 1 {
        spec_merge_pass(kind, slots, item, order)
    } else {
        (slots, item, false)
    };
    lemma_merge_pass_remainder(kind, slots, item, order);
    lemma_remainder_valid(m.1, item);
    lemma_place_first_remainder(kind, m.0, m.1, order);
    lemma_range_in_menu(targets, reverse, slots.len() as int);
    lemma_merge_pass_len(kind, slots, item, order);
    lemma_place_first_len(kind, m.0, m.1, order);
}

proof fn lemma_merge_pass_len(kind: MenuKind, slots: Seq<ItemStack>, item: ItemStack, order: Seq<usize>)
    requires
        in_menu(order, slots.len() as int),
    ensures
        spec_merge_pass(kind, slots, item, order).0.len() == slots.len(),
    decreases order.len(),
{
    if order.len() > 0 && !item.spec_is_empty() {
        let r = spec_merge_into(kind, slots, item, order[0] as int);
        assert(order[0] < slots.len());
        assert(in_menu(order.drop_first(), r.0.len() as int)) by {
            assert forall|k: int| 0 <= k < order.drop_first().len() implies #[trigger] order.drop_first()[k]
                < r.0.len() by {
                assert(order.drop_first()[k] == order[k + 1]);
            }
        }
        lemma_merge_pass_len(kind, r.0, r.1, order.drop_first());
    }
}

proof fn lemma_place_first_len(kind: MenuKind, slots: Seq<ItemStack>, item: ItemStack, order: Seq<usize>)
    requires
        in_menu(order, slots.len() as int),
    ensures
        spec_place_first(kind, slots, item, order).0.len() == slots.len(),
    decreases order.len(),
{
    if order.len() > 0 {
        let r = spec_place_into(kind, slots, item, order[0] as int);
        assert(order[0] < slots.len());
        if !r.2 {
            assert(in_menu(order.drop_first(), slots.len() as int)) by {
                assert forall|k: int| 0 <= k < order.drop_first().len() implies #[trigger] order.drop_first()[k]
                    < slots.len() by {
                    assert(order.drop_first()[k] == order[k + 1]);
                }
            }
            lemma_place_first_len(kind, slots, item, order.drop_first());
        }
    }
}

/// A shift-click never adds items to the clicked slot: afterwards it is
/// empty or holds the same item (with the same components), no more of it
/// than before.
#[verifier::rlimit(50)]
#[verifier::spinoff_prover]
pub proof fn lemma_quick_move_source_never_grows(kind: MenuKind, slots: Seq<ItemStack>, i: int)
    requires
        slots_valid(slots),
        slots.len() == kind.spec_len(),
        0 <= i < slots.len(),
        !slots[i].spec_is_empty(),
    ensures
        remainder_of(
            spec_apply_quick_move(kind, slots, i, spec_quick_move_plan(kind, slots, i, present_data(slots[i])))[i],
            slots[i],
        ),
{
    let plan = spec_quick_move_plan(kind, slots, i, present_data(slots[i]));
    assert(slots[i].valid());
    lemma_plan_avoids_source(kind, slots, i);
    lemma_plan_fits(kind, slots, i, present_data(slots[i]));
    kind.lemma_player_slots();
    kind.lemma_location_kind(i);
    match plan {
        QuickMovePlan::Stay => {},
        QuickMovePlan::Move { targets, reverse } => {
            lemma_move_stack_to_source(kind, slots, i, targets, reverse);
        },
        QuickMovePlan::MoveAndTake { targets } => {
            lemma_move_stack_to_source(kind, slots, i, targets, true);
            lemma_move_stack_to_conserves(kind, slots, i, targets, true, present_data(slots[i]));
            let r = spec_move_stack_to(kind, slots, i, targets, true);
            if r.1 {
                match spec_crafting_grid(kind, i) {
                    Some(grid) => {
                        assert(i == 0);
                        assert(!kind.spec_player_slots().spec_contains(i));
                        lemma_range_avoids(grid, false, i, slots.len() as int);
                        lemma_take_from_grid_local(kind, r.0, grid.order(false), i);
                    },
                    None => {},
                }
            }
        },
        QuickMovePlan::MoveOrToggle { targets } => {
            lemma_move_stack_to_source(kind, slots, i, targets, false);
            lemma_move_stack_to_conserves(kind, slots, i, targets, false, present_data(slots[i]));
            let r = spec_move_stack_to(kind, slots, i, targets, false);
            if !r.1 {
                lemma_remainder_valid(r.0[i], slots[i]);
                lemma_move_stack_to_source(kind, r.0, i, spec_toggle_targets(kind, i), false);
            }
        },
        QuickMovePlan::Toggle => {
            lemma_move_stack_to_source(kind, slots, i, spec_toggle_targets(kind, i), false);
        },
        QuickMovePlan::EnchantOne => {},
    }
}

proof fn lemma_fill_pass_conserves(
    kind: MenuKind,
    slots: Seq<ItemStack>,
    item: ItemStack,
    order: Seq<usize>,
    src: int,
    x: ItemStackData,
)
    requires
        slots_valid(slots),
        item.valid(),
        0 <= src < slots.len(),
        order_avoids(order, src, slots.len() as int),
    ensures
        ({
            let r = spec_fill_pass(kind, slots, item, order);
            &&& slots_valid(r.0)
            &&& r.0.len() == slots.len()
            &&& r.0[src] == slots[src]
            &&& amount_of(pending(r.0, r.1, src), x) == amount_of(pending(slots, item, src), x)
        }),
    decreases order.len(),
{
    if order.len() > 0 && !item.spec_is_empty() {
        assert(order[0] != src && order[0] < slots.len());
        lemma_place_into_conserves(kind, slots, item, order[0] as int, src, x);
        let r = spec_place_into(kind, slots, item, order[0] as int);
        assert(r.0[src] == slots[src]);
        assert(order_avoids(order.drop_first(), src, slots.len() as int)) by {
            assert forall|k: int| 0 <= k < order.drop_first().len() implies #[trigger] order.drop_first()[k]
                != src && order.drop_first()[k] < slots.len() by {
                assert(order.drop_first()[k] == order[k + 1]);
            }
        }
        lemma_fill_pass_conserves(kind, r.0, r.1, order.drop_first(), src, x);
    }
}

proof fn lemma_merge_pass_keeps(
    kind: MenuKind,
    slots: Seq<ItemStack>,
    item: ItemStack,
    order: Seq<usize>,
    src: int,
)
    requires
        0 <= src < slots.len(),
        order_avoids(order, src, slots.len() as int),
    ensures
        spec_merge_pass(kind, slots, item, order).0[src] == slots[src],
    decreases order.len(),
{
    if order.len() > 0 && !item.spec_is_empty() {
        assert(order[0] != src && order[0] < slots.len());
        let r = spec_merge_into(kind, slots, item, order[0] as int);
        assert(r.0[src] == slots[src]);
        assert(order_avoids(order.drop_first(), src, slots.len() as int)) by {
            assert forall|k: int| 0 <= k < order.drop_first().len() implies #[trigger] order.drop_first()[k]
                != src && order.drop_first()[k] < slots.len() by {
                assert(order.drop_first()[k] == order[k + 1]);
            }
        }
        lemma_merge_pass_keeps(kind, r.0, r.1, order.drop_first(), src);
    }
}

/// What finds no home when a stack is added to the player inventory.
pub open spec fn spec_add_to_player_inventory_leftover(
    kind: MenuKind,
    slots: Seq<ItemStack>,
    stack: ItemStack,
) -> ItemStack {
    let order = spec_inventory_scan_order(kind);
    let m = spec_merge_pass(kind, slots, stack, order);
    spec_fill_pass(kind, m.0, m.1, order).1
}

/// Adding a stack to the player inventory creates no items and discards
/// exactly what finds no home: the items the menu holds afterwards, together
/// with the leftover, are those it held before plus the added stack.
pub proof fn lemma_add_to_player_inventory_conserves(
    kind: MenuKind,
    slots: Seq<ItemStack>,
    stack: ItemStack,
    x: ItemStackData,
)
    requires
        slots_valid(slots),
        stack.valid(),
        slots.len() == kind.spec_len(),
    ensures
        amount_of(spec_add_to_player_inventory(kind, slots, stack), x) + contribution(
            spec_add_to_player_inventory_leftover(kind, slots, stack),
            x,
        ) == amount_of(slots, x) + contribution(stack, x),
        amount_of(spec_add_to_player_inventory(kind, slots, stack), x) <= amount_of(slots, x)
            + contribution(stack, x),
{
    kind.lemma_player_slots();
    let order = spec_inventory_scan_order(kind);
    let hot = kind.spec_hotbar_slots();
    let main = SlotRange { start: kind.spec_player_slots().start, end: (hot.start - 1) as usize };
    lemma_range_order_avoids(hot, false, 0, slots.len() as int);
    lemma_range_order_avoids(main, false, 0, slots.len() as int);
    assert(order_avoids(order, 0, slots.len() as int)) by {
        assert forall|k: int| 0 <= k < order.len() implies #[trigger] order[k] != 0 && order[k]
            < slots.len() by {
            if k < hot.order(false).len() {
                assert(order[k] == hot.order(false)[k]);
            } else {
                assert(order[k] == main.order(false)[k - hot.order(false).len()]);
            }
        }
    }
    let m = spec_merge_pass(kind, slots, stack, order);
    lemma_merge_pass_conserves(kind, slots, stack, order, 0, x);
    lemma_merge_pass_keeps(kind, slots, stack, order, 0);
    lemma_fill_pass_conserves(kind, m.0, m.1, order, 0, x);
    let f = spec_fill_pass(kind, m.0, m.1, order);
    lemma_amount_update(slots, 0, stack, x);
    lemma_amount_update(m.0, 0, m.1, x);
    lemma_amount_update(f.0, 0, f.1, x);
}

} // verus!
