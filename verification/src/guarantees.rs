//! What the main operations are for, stated over all their inputs: where a
//! shift-click in an enchanting table puts lapis lazuli, which grid cells
//! taking a craft consumes, when a craft fails for missing ingredients, what
//! a recipe makes, and how a throw click tells one item from a stack.
use vstd::prelude::*;

use crate::click::{ClickOperation, PickupClick, QuickCraftClick, QuickMoveClick, ThrowClick};
use crate::crafting::{spec_craft_step, CraftError, CraftPhase, CraftSnapshot, CraftState, CraftStep};
use crate::item::{
    CraftingRemainderExt, DataComponentPatch, ItemKind, ItemStack, ItemStackData, MaxStackSizeExt,
    LAPIS_LAZULI,
};
use crate::locality::{
    avoids, lemma_add_to_player_inventory_local, lemma_quick_move_is_local, lemma_range_avoids, lemma_take_from_grid_cell_local,
    lemma_take_from_grid_local, quick_move_may_change,
};
use crate::menu::{MenuKind, SlotRange};
use crate::operations::{
    present_data, slots_valid, spec_apply_quick_move, spec_crafting_result_on_take,
    spec_quick_move_plan, spec_take_from_grid, spec_take_from_grid_cell, QuickMovePlan,
    spec_merge_into, spec_merge_pass, spec_place_first, spec_place_into, min,
};
use crate::recipe::{recipe_display_equal, ItemSlotDisplay, RecipeDisplayData, RecipeDisplayEntry, SlotDisplayData};
use crate::recipe_book::entry_result;

verus! {

/// A craft fails for missing ingredients only when the server showed a ghost
/// recipe after the craft's baseline (its ghost revision moved past the
/// baseline's) while the recipe was being placed, or when the snapshot
/// itself could not be taken for that reason. A ghost recipe that was
/// already there at the baseline never fails the craft.
pub proof fn lemma_missing_ingredients_needs_a_new_ghost_recipe(
    s: CraftState,
    event: Option<Result<CraftSnapshot, CraftError>>,
)
    requires
        s.elapsed_ticks < usize::MAX,
    ensures
        (spec_craft_step(s, event) matches CraftStep::Done(Err(e)) && e
            == CraftError::MissingIngredients) ==> ((event matches Some(Err(f)) && f
            == CraftError::MissingIngredients) || (event matches Some(Ok(cur))
            && cur.ghost_revision > s.baseline.ghost_revision && s.phase == CraftPhase::Placing
            && (cur.ghost_recipe matches Some(g) && g.container_id == s.container_id
            && recipe_display_equal(g.recipe, s.recipe.spec_entry().display)))),
{
}

/// A craft is rejected only once the server has sent the menu's full
/// contents since the baseline, and then only when they show something else
/// than the step expects: while placing, a result slot without the result;
/// while taking, a cursor without the result; while depositing, a cursor
/// that did not shrink. It times out only once its ticks reach the timeout.
pub proof fn lemma_craft_fails_only_for_its_reasons(
    s: CraftState,
    event: Option<Result<CraftSnapshot, CraftError>>,
)
    requires
        s.elapsed_ticks < usize::MAX,
    ensures
        (spec_craft_step(s, event) matches CraftStep::Done(Err(e)) && e == CraftError::Rejected)
            ==> ((event matches Some(Err(f)) && f == CraftError::Rejected) || (event matches Some(
            Ok(cur),
        ) && cur.full_content_revision > s.baseline.full_content_revision && match s.phase {
            CraftPhase::Placing => cur.result != s.expected,
            CraftPhase::Taking => cur.carried != s.expected,
            CraftPhase::Depositing => cur.carried.spec_count() >= s.baseline.carried.spec_count(),
        })),
        (spec_craft_step(s, event) matches CraftStep::Done(Err(e)) && e == CraftError::Timeout)
            ==> ((event matches Some(Err(f)) && f == CraftError::Timeout) || (s.timeout_ticks matches Some(t)
            && s.elapsed_ticks + 1 >= t)),
{
}

/// One item of kind `k`, with no component changes.
pub open spec fn one_of(k: ItemKind) -> ItemStack {
    ItemStack::Present(
        ItemStackData { kind: k, count: 1, component_patch: DataComponentPatch::spec_empty() },
    )
}

/// The display of one item of kind `k`.
pub open spec fn item_display(k: ItemKind) -> SlotDisplayData {
    SlotDisplayData::Item(ItemSlotDisplay { item: k })
}

/// Whatever the kind of recipe, what it makes is what its `result` display
/// shows: a result display of an item makes one of that item, whatever the
/// ingredients and crafting station are.
pub proof fn lemma_result_is_what_the_result_display_shows(e: RecipeDisplayEntry, k: ItemKind)
    ensures
        (e.display matches RecipeDisplayData::Shapeless(x) && x.result == item_display(k))
            ==> entry_result(e) == Some(one_of(k)),
        (e.display matches RecipeDisplayData::Shaped(x) && x.result == item_display(k))
            ==> entry_result(e) == Some(one_of(k)),
        (e.display matches RecipeDisplayData::Furnace(x) && x.result == item_display(k))
            ==> entry_result(e) == Some(one_of(k)),
        (e.display matches RecipeDisplayData::Stonecutter(x) && x.result == item_display(k))
            ==> entry_result(e) == Some(one_of(k)),
        (e.display matches RecipeDisplayData::Smithing(x) && x.result == item_display(k))
            ==> entry_result(e) == Some(one_of(k)),
{
}

/// Two recipes of the same kind with the same `result` display make the
/// same thing, however their ingredients, crafting stations and other
/// fields differ.
pub proof fn lemma_result_depends_only_on_the_result_display(a: RecipeDisplayEntry, b: RecipeDisplayEntry)
    requires
        (a.display matches RecipeDisplayData::Shapeless(x) && b.display matches RecipeDisplayData::Shapeless(y)
            && x.result == y.result) || (a.display matches RecipeDisplayData::Shaped(x)
            && b.display matches RecipeDisplayData::Shaped(y) && x.result == y.result)
            || (a.display matches RecipeDisplayData::Furnace(x) && b.display matches RecipeDisplayData::Furnace(y)
            && x.result == y.result) || (a.display matches RecipeDisplayData::Stonecutter(x)
            && b.display matches RecipeDisplayData::Stonecutter(y) && x.result == y.result)
            || (a.display matches RecipeDisplayData::Smithing(x) && b.display matches RecipeDisplayData::Smithing(y)
            && x.result == y.result),
    ensures
        entry_result(a) == entry_result(b),
{
}

/// Each step and button of a drag has its own button number: drags that
/// differ in their mouse button or in their step differ in their number.
pub proof fn lemma_drag_buttons_tell_drags_apart(a: QuickCraftClick, b: QuickCraftClick)
    requires
        a.kind != b.kind || a.status.spec_index() != b.status.spec_index(),
    ensures
        ClickOperation::QuickCraft(a).spec_button_num() != ClickOperation::QuickCraft(b).spec_button_num(),
{
}

/// Within a click mode, clicks that do different things carry different
/// button numbers: a throw of one item and a throw of the whole stack, a
/// left and a right click, a left and a right shift-click. Dropping a
/// single item is button 0 and dropping the stack button 1, whatever the
/// slots.
pub proof fn lemma_buttons_tell_clicks_apart(a: u16, b: u16, c: Option<u16>, d: Option<u16>)
    ensures
        ClickOperation::Throw(ThrowClick::Single { slot: a }).spec_button_num()
            != ClickOperation::Throw(ThrowClick::All { slot: b }).spec_button_num(),
        ClickOperation::Throw(ThrowClick::Single { slot: a }).spec_button_num() == 0,
        ClickOperation::Throw(ThrowClick::All { slot: b }).spec_button_num() == 1,
        ClickOperation::Pickup(PickupClick::Left { slot: c }).spec_button_num()
            != ClickOperation::Pickup(PickupClick::Right { slot: d }).spec_button_num(),
        ClickOperation::QuickMove(QuickMoveClick::Left { slot: a }).spec_button_num()
            != ClickOperation::QuickMove(QuickMoveClick::Right { slot: b }).spec_button_num(),
        ClickOperation::Pickup(PickupClick::LeftOutside).spec_button_num()
            != ClickOperation::Pickup(PickupClick::RightOutside).spec_button_num(),
        ClickOperation::Throw(ThrowClick::Single { slot: a }).spec_slot_num() == Some(a),
        ClickOperation::Throw(ThrowClick::All { slot: b }).spec_slot_num() == Some(b),
{
}

/// In an enchanting table, shift-clicking a stack of lapis lazuli in a
/// player slot changes only that slot and the lapis slot (1); the
/// enchanting item slot (0) and every other slot keep their stacks. When the
/// lapis slot is empty and the stack is within its limits, the whole stack
/// moves there and the source slot empties.
pub proof fn lemma_lapis_goes_to_the_lapis_slot(slots: Seq<ItemStack>, i: int)
    requires
        slots.len() == MenuKind::Enchantment.spec_len(),
        slots_valid(slots),
        2 <= i <= 37,
        slots[i] matches ItemStack::Present(d) && d.kind.id == LAPIS_LAZULI,
        !slots[i].spec_is_empty(),
    ensures
        ({
            let kind = MenuKind::Enchantment;
            let r = spec_apply_quick_move(kind, slots, i, spec_quick_move_plan(kind, slots, i, present_data(slots[i])));
            &&& forall|j: int| 0 <= j < slots.len() && j != i && j != 1 ==> r[j] == slots[j]
            &&& r[0] == slots[0]
            &&& (slots[1] == ItemStack::Empty && present_data(slots[i]).count
                <= present_data(slots[i]).spec_max_stack_size() && present_data(slots[i]).count <= 99)
                ==> r[1] == slots[i] && r[i] == ItemStack::Empty
        }),
{
    let kind = MenuKind::Enchantment;
    let d = present_data(slots[i]);
    let plan = spec_quick_move_plan(kind, slots, i, d);
    assert(kind.spec_location(i) == Some(
        crate::menu::MenuLocation::Enchantment(crate::menu::EnchantmentMenuLocation::Player),
    ));
    assert(plan == QuickMovePlan::Move { targets: SlotRange { start: 1, end: 1 }, reverse: true });
    let r = spec_apply_quick_move(kind, slots, i, plan);
    assert forall|j: int| 0 <= j < slots.len() && j != i && j != 1 implies r[j] == slots[j] by {
        assert(!quick_move_may_change(kind, i, plan, j));
        lemma_quick_move_is_local(kind, slots, i, j);
    }
    assert(r[0] == slots[0]);
    if slots[1] == ItemStack::Empty && d.count <= d.spec_max_stack_size() && d.count <= 99 {
        let order = SlotRange { start: 1, end: 1 }.order(true);
        assert(order =~= seq![1usize]);
        let item = slots[i];
        assert(d.same_item(d));
        let m0 = spec_merge_into(kind, slots, item, 1);
        assert(m0 == (slots, item, false));
        assert(order.drop_first() =~= Seq::<usize>::empty());
        assert(order[0] == 1);
        assert(spec_merge_pass(kind, slots, item, order.drop_first()) == (slots, item, false));
        assert(spec_merge_pass(kind, slots, item, order).0 == slots);
        assert(spec_merge_pass(kind, slots, item, order).1 == item);
        assert(crate::operations::spec_slot_max_stack_size(kind, 1) == 99);
        let p = spec_place_into(kind, slots, item, 1);
        assert(p.2);
        assert(p.0[1] == item);
        assert(p.1 == ItemStack::Empty);
        assert(spec_place_first(kind, slots, item, order) == p);
    }
}

/// In an enchanting table, shift-clicking a stack of anything but lapis
/// lazuli in a player slot moves exactly one item into the empty enchanting
/// item slot (0) and nothing else; with that slot occupied, nothing moves.
/// The lapis slot (1) is never touched.
pub proof fn lemma_one_item_goes_to_the_enchanting_slot(slots: Seq<ItemStack>, i: int)
    requires
        slots.len() == MenuKind::Enchantment.spec_len(),
        slots_valid(slots),
        2 <= i <= 37,
        slots[i] matches ItemStack::Present(d) && d.kind.id != LAPIS_LAZULI,
        !slots[i].spec_is_empty(),
    ensures
        ({
            let kind = MenuKind::Enchantment;
            let d = present_data(slots[i]);
            let r = spec_apply_quick_move(kind, slots, i, spec_quick_move_plan(kind, slots, i, d));
            &&& r[1] == slots[1]
            &&& forall|j: int| 0 <= j < slots.len() && j != i && j != 0 ==> r[j] == slots[j]
            &&& slots[0].spec_is_empty() ==> {
                &&& r[0] == ItemStack::Present(ItemStackData { count: 1, ..d })
                &&& r[i] == ItemStack::Present(ItemStackData { count: (d.count - 1) as i32, ..d }).spec_normalized()
            }
            &&& !slots[0].spec_is_empty() ==> r == slots
        }),
{
    let kind = MenuKind::Enchantment;
    assert(kind.spec_location(i) == Some(
        crate::menu::MenuLocation::Enchantment(crate::menu::EnchantmentMenuLocation::Player),
    ));
}

/// Taking a craft from the result slot of a crafting table takes once from
/// every grid cell, 1 to 9: each cell ends as taking from it alone would
/// leave it. So a cell holding an item that leaves no crafting remainder
/// ends with exactly one item fewer (empty when it held one), and a cell
/// whose single item leaves a remainder ends holding one of the remainder.
pub proof fn lemma_taking_a_craft_consumes_every_grid_cell(slots: Seq<ItemStack>, j: int)
    requires
        slots.len() == MenuKind::Crafting.spec_len(),
        1 <= j <= 9,
    ensures
        spec_crafting_result_on_take(MenuKind::Crafting, slots, 0)[j] == spec_take_from_grid_cell(
            MenuKind::Crafting,
            slots,
            j,
        )[j],
        (slots[j] matches ItemStack::Present(g) && g.count >= 1
            && g.kind.spec_crafting_remainder() is None) ==> spec_crafting_result_on_take(
            MenuKind::Crafting,
            slots,
            0,
        )[j] == ItemStack::Present(
            ItemStackData { count: (present_data(slots[j]).count - 1) as i32, ..present_data(slots[j]) },
        ).spec_normalized(),
        (slots[j] matches ItemStack::Present(g) && g.count == 1
            && g.kind.spec_crafting_remainder() matches Some(rk)) ==> spec_crafting_result_on_take(
            MenuKind::Crafting,
            slots,
            0,
        )[j] == ItemStack::Present(
            ItemStackData {
                kind: present_data(slots[j]).kind.spec_crafting_remainder()->0,
                count: 1,
                component_patch: DataComponentPatch::spec_empty(),
            },
        ),
{
    let kind = MenuKind::Crafting;
    kind.lemma_player_slots();
    let grid = SlotRange { start: 1, end: 9 };
    let order = grid.order(false);
    assert(kind.spec_location(0) == Some(
        crate::menu::MenuLocation::Crafting(crate::menu::CraftingMenuLocation::Result),
    ));
    assert(order.len() == 9);
    assert(order[j - 1] == j);
    lemma_take_from_grid_reaches(kind, slots, order, j, j - 1);
}

/// Taking a craft from the player's own crafting result takes once from
/// every cell of its 2x2 grid, 1 to 4: each cell ends as taking from it
/// alone would leave it.
pub proof fn lemma_taking_a_player_craft_consumes_every_grid_cell(slots: Seq<ItemStack>, j: int)
    requires
        slots.len() == MenuKind::Player.spec_len(),
        1 <= j <= 4,
    ensures
        spec_crafting_result_on_take(MenuKind::Player, slots, 0)[j] == spec_take_from_grid_cell(
            MenuKind::Player,
            slots,
            j,
        )[j],
{
    let kind = MenuKind::Player;
    kind.lemma_player_slots();
    let grid = SlotRange { start: 1, end: 4 };
    let order = grid.order(false);
    assert(kind.spec_location(0) == Some(
        crate::menu::MenuLocation::Player(crate::menu::PlayerMenuLocation::CraftResult),
    ));
    assert(order.len() == 4);
    assert(order[j - 1] == j);
    lemma_take_from_grid_reaches(kind, slots, order, j, j - 1);
}

proof fn lemma_take_from_grid_reaches(kind: MenuKind, slots: Seq<ItemStack>, order: Seq<usize>, j: int, k: int)
    requires
        slots.len() == kind.spec_len(),
        0 <= k < order.len(),
        order[k] == j,
        0 <= j < slots.len(),
        !kind.spec_player_slots().spec_contains(j),
        forall|a: int| 0 <= a < order.len() ==> #[trigger] order[a] < slots.len()
            && !kind.spec_player_slots().spec_contains(order[a] as int),
        forall|a: int, b: int| 0 <= a < order.len() && 0 <= b < order.len() && #[trigger] order[a]
            == #[trigger] order[b] ==> a == b,
    ensures
        spec_take_from_grid(kind, slots, order)[j] == spec_take_from_grid_cell(kind, slots, j)[j],
    decreases order.len(),
{
    let rest = order.drop_first();
    let s1 = spec_take_from_grid_cell(kind, slots, order[0] as int);
    if k == 0 {
        lemma_take_from_grid_cell_only_reads_its_cell(kind, slots, slots, j);
        assert(avoids(rest, j, s1.len() as int)) by {
            assert forall|a: int| 0 <= a < rest.len() implies #[trigger] rest[a] != j && rest[a]
                < s1.len() by {
                assert(rest[a] == order[a + 1]);
            }
        }
        lemma_take_from_grid_local(kind, s1, rest, j);
    } else {
        lemma_take_from_grid_cell_local(kind, slots, order[0] as int, j);
        assert(s1[j] == slots[j]);
        lemma_take_from_grid_cell_only_reads_its_cell(kind, slots, s1, j);
        lemma_take_from_grid_cell_only_reads_its_cell(kind, s1, slots, j);
        assert(rest[k - 1] == order[k]);
        assert forall|a: int| 0 <= a < rest.len() implies #[trigger] rest[a] < s1.len()
            && !kind.spec_player_slots().spec_contains(rest[a] as int) by {
            assert(rest[a] == order[a + 1]);
        }
        assert forall|a: int, b: int| 0 <= a < rest.len() && 0 <= b < rest.len() && #[trigger] rest[a]
            == #[trigger] rest[b] implies a == b by {
            assert(rest[a] == order[a + 1]);
            assert(rest[b] == order[b + 1]);
        }
        lemma_take_from_grid_reaches(kind, s1, rest, j, k - 1);
    }
}

/// Taking from a grid cell keeps the menu's size, and leaves the cell as
/// what it held alone decides.
proof fn lemma_take_from_grid_cell_only_reads_its_cell(
    kind: MenuKind,
    slots: Seq<ItemStack>,
    other: Seq<ItemStack>,
    j: int,
)
    requires
        slots.len() == kind.spec_len(),
        slots.len() == other.len(),
        0 <= j < slots.len(),
        slots[j] == other[j],
        !kind.spec_player_slots().spec_contains(j),
    ensures
        spec_take_from_grid_cell(kind, slots, j).len() == slots.len(),
        spec_take_from_grid_cell(kind, slots, j)[j] == spec_take_from_grid_cell(kind, other, j)[j],
{
    lemma_take_from_grid_cell_at(kind, slots, j);
    lemma_take_from_grid_cell_at(kind, other, j);
}

/// What taking from cell `j` leaves in it, and that the menu keeps its size.
proof fn lemma_take_from_grid_cell_at(kind: MenuKind, slots: Seq<ItemStack>, j: int)
    requires
        slots.len() == kind.spec_len(),
        0 <= j < slots.len(),
        !kind.spec_player_slots().spec_contains(j),
    ensures
        spec_take_from_grid_cell(kind, slots, j).len() == slots.len(),
        spec_take_from_grid_cell(kind, slots, j)[j] == match slots[j] {
            ItemStack::Empty => ItemStack::Empty,
            ItemStack::Present(gi) => {
                let after = ItemStack::Present(
                    ItemStackData { count: (gi.count - min(1, gi.count as int)) as i32, ..gi },
                ).spec_normalized();
                match gi.kind.spec_crafting_remainder() {
                    None => after,
                    Some(rk) => {
                        let remainder = ItemStackData {
                            kind: rk,
                            count: 1,
                            component_patch: DataComponentPatch::spec_empty(),
                        };
                        match after {
                            ItemStack::Empty => ItemStack::Present(remainder),
                            ItemStack::Present(leftover) => if leftover.same_item(remainder) {
                                ItemStack::Present(
                                    ItemStackData { count: (1 + leftover.count) as i32, ..remainder },
                                )
                            } else {
                                after
                            },
                        }
                    },
                }
            },
        },
{
    match slots[j] {
        ItemStack::Empty => {},
        ItemStack::Present(gi) => {
            let after = ItemStack::Present(
                ItemStackData { count: (gi.count - min(1, gi.count as int)) as i32, ..gi },
            ).spec_normalized();
            let s1 = slots.update(j, after);
            match gi.kind.spec_crafting_remainder() {
                None => {},
                Some(rk) => {
                    let remainder = ItemStackData {
                        kind: rk,
                        count: 1,
                        component_patch: DataComponentPatch::spec_empty(),
                    };
                    match after {
                        ItemStack::Empty => {},
                        ItemStack::Present(leftover) => {
                            if !leftover.same_item(remainder) {
                                lemma_add_to_player_inventory_local(kind, s1, ItemStack::Present(remainder), j);
                            }
                        },
                    }
                },
            }
        },
    }
}

} // verus!
