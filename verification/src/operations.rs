//! What clicks do to a menu: slot rules, merging stacks, and shift-clicks.
use vstd::prelude::*;

use crate::item::{
    CraftingRemainderExt, DataComponentPatch, EquipmentSlot, ItemKind, ItemStack, ItemStackData,
    MaxStackSizeExt, BLACK_SHULKER_BOX, BLAZE_POWDER, DIAMOND, EMERALD, GLASS_BOTTLE, GLASS_PANE,
    GOLD_INGOT, IRON_INGOT, LAPIS_LAZULI, LINGERING_POTION, MAP, NETHERITE_INGOT, PAPER, POTION,
    SHULKER_BOX, SPLASH_POTION,
};
use crate::menu::{
    AnvilMenuLocation, BeaconMenuLocation, BlastFurnaceMenuLocation, BrewingStandMenuLocation,
    CartographyTableMenuLocation, Crafter3x3MenuLocation, CraftingMenuLocation,
    EnchantmentMenuLocation, FurnaceMenuLocation, Generic3x3MenuLocation, Generic9x1MenuLocation,
    Generic9x2MenuLocation, Generic9x3MenuLocation, Generic9x4MenuLocation, Generic9x5MenuLocation,
    Generic9x6MenuLocation, GrindstoneMenuLocation, HopperMenuLocation, LecternMenuLocation,
    LoomMenuLocation, Menu, MenuKind, MenuLocation, MerchantMenuLocation, PlayerMenuLocation,
    ShulkerBoxMenuLocation, SlotRange, SmithingMenuLocation, SmokerMenuLocation,
    StonecutterMenuLocation,
};

verus! {

/// Every stack of the sequence is valid.
pub open spec fn slots_valid(s: Seq<ItemStack>) -> bool {
    forall|i: int| 0 <= i < s.len() ==> #[trigger] s[i].valid()
}

pub open spec fn min(a: int, b: int) -> int {
    if a < b {
        a
    } else {
        b
    }
}

/// The contents of a present stack (arbitrary for an empty one).
pub open spec fn present_data(s: ItemStack) -> ItemStackData {
    match s {
        ItemStack::Present(d) => d,
        ItemStack::Empty => ItemStackData {
            kind: ItemKind { id: 0, default_max_stack_size: None, default_equippable: None },
            count: 0,
            component_patch: DataComponentPatch::spec_empty(),
        },
    }
}

/// Whether the location is a menu's crafted or processed output.
pub open spec fn is_result_location(loc: Option<MenuLocation>) -> bool {
    match loc {
        Some(MenuLocation::Player(PlayerMenuLocation::CraftResult)) => true,
        Some(MenuLocation::Anvil(AnvilMenuLocation::Result)) => true,
        Some(MenuLocation::BlastFurnace(BlastFurnaceMenuLocation::Result)) => true,
        Some(MenuLocation::CartographyTable(CartographyTableMenuLocation::Result)) => true,
        Some(MenuLocation::Crafting(CraftingMenuLocation::Result)) => true,
        Some(MenuLocation::Furnace(FurnaceMenuLocation::Result)) => true,
        Some(MenuLocation::Grindstone(GrindstoneMenuLocation::Result)) => true,
        Some(MenuLocation::Loom(LoomMenuLocation::Result)) => true,
        Some(MenuLocation::Merchant(MerchantMenuLocation::Result)) => true,
        Some(MenuLocation::Smithing(SmithingMenuLocation::Result)) => true,
        Some(MenuLocation::Smoker(SmokerMenuLocation::Result)) => true,
        Some(MenuLocation::Stonecutter(StonecutterMenuLocation::Result)) => true,
        _ => false,
    }
}

pub open spec fn spec_is_result_slot(kind: MenuKind, i: int) -> bool {
    is_result_location(kind.spec_location(i))
}

/// The most items a slot holds: 1 in the armor, beacon payment, brewing
/// bottle, enchanting item and lectern book slots, 99 everywhere else.
pub open spec fn spec_slot_max_stack_size(kind: MenuKind, i: int) -> int {
    match kind.spec_location(i) {
        Some(MenuLocation::Player(PlayerMenuLocation::Armor)) => 1,
        Some(MenuLocation::Beacon(BeaconMenuLocation::Payment)) => 1,
        Some(MenuLocation::BrewingStand(BrewingStandMenuLocation::Bottles)) => 1,
        Some(MenuLocation::Enchantment(EnchantmentMenuLocation::Item)) => 1,
        Some(MenuLocation::Lectern(LecternMenuLocation::Book)) => 1,
        _ => 99,
    }
}

/// One merge step: when slot `t` holds the same item as `item` with room
/// left under both its slot's and the item's limit, the target is topped up
/// (by at most what `item` holds) and `item` keeps the rest.
pub open spec fn spec_merge_into(kind: MenuKind, slots: Seq<ItemStack>, item: ItemStack, t: int) -> (
    Seq<ItemStack>,
    ItemStack,
    bool,
) {
    match item {
        ItemStack::Empty => (slots, item, false),
        ItemStack::Present(d) => match slots[t] {
            ItemStack::Empty => (slots, item, false),
            ItemStack::Present(td) => {
                let limit = min(spec_slot_max_stack_size(kind, t), d.spec_max_stack_size());
                if !td.same_item(d) || td.count >= limit {
                    (slots, item, false)
                } else {
                    let moved = min(d.count as int, limit - td.count);
                    (
                        slots.update(
                            t,
                            ItemStack::Present(ItemStackData { count: (td.count + moved) as i32, ..td }),
                        ),
                        ItemStack::Present(
                            ItemStackData { count: (d.count - moved) as i32, ..d },
                        ).spec_normalized(),
                        true,
                    )
                }
            },
        },
    }
}

/// One placing step: when slot `t` is empty and accepts items, it takes as
/// much of `item` as both limits allow.
pub open spec fn spec_place_into(kind: MenuKind, slots: Seq<ItemStack>, item: ItemStack, t: int) -> (
    Seq<ItemStack>,
    ItemStack,
    bool,
) {
    match item {
        ItemStack::Empty => (slots, item, false),
        ItemStack::Present(d) => {
            if !slots[t].spec_is_empty() || spec_is_result_slot(kind, t) {
                (slots, item, false)
            } else {
                let limit = min(spec_slot_max_stack_size(kind, t), d.spec_max_stack_size());
                let amount = min(limit, d.count as int);
                (
                    slots.update(
                        t,
                        ItemStack::spec_from_data(ItemStackData { count: amount as i32, ..d }),
                    ),
                    ItemStack::Present(
                        ItemStackData { count: (d.count - amount) as i32, ..d },
                    ).spec_normalized(),
                    true,
                )
            }
        },
    }
}

/// Merge steps over `order` until `item` runs out; also says whether any
/// step moved items.
pub open spec fn spec_merge_pass(
    kind: MenuKind,
    slots: Seq<ItemStack>,
    item: ItemStack,
    order: Seq<usize>,
) -> (Seq<ItemStack>, ItemStack, bool)
    decreases order.len(),
{
    if order.len() == 0 || item.spec_is_empty() {
        (slots, item, false)
    } else {
        let r = spec_merge_into(kind, slots, item, order[0] as int);
        let rest = spec_merge_pass(kind, r.0, r.1, order.drop_first());
        (rest.0, rest.1, r.2 || rest.2)
    }
}

/// The first placing step over `order` that succeeds, if any.
pub open spec fn spec_place_first(
    kind: MenuKind,
    slots: Seq<ItemStack>,
    item: ItemStack,
    order: Seq<usize>,
) -> (Seq<ItemStack>, ItemStack, bool)
    decreases order.len(),
{
    if order.len() == 0 {
        (slots, item, false)
    } else {
        let r = spec_place_into(kind, slots, item, order[0] as int);
        if r.2 {
            r
        } else {
            spec_place_first(kind, slots, item, order.drop_first())
        }
    }
}

/// Placing steps over `order` until `item` runs out.
pub open spec fn spec_fill_pass(
    kind: MenuKind,
    slots: Seq<ItemStack>,
    item: ItemStack,
    order: Seq<usize>,
) -> (Seq<ItemStack>, ItemStack)
    decreases order.len(),
{
    if order.len() == 0 || item.spec_is_empty() {
        (slots, item)
    } else {
        let r = spec_place_into(kind, slots, item, order[0] as int);
        spec_fill_pass(kind, r.0, r.1, order.drop_first())
    }
}

/// Moving the stack in slot `src` into `targets` (the menu's
/// `moveItemStackTo`): a stackable item first merges into matching stacks in
/// target order, then what is left goes into the first empty slot that takes
/// it; the source keeps the remainder. Also says whether anything moved.
pub open spec fn spec_move_stack_to(
    kind: MenuKind,
    slots: Seq<ItemStack>,
    src: int,
    targets: SlotRange,
    reverse: bool,
) -> (Seq<ItemStack>, bool) {
    let order = targets.order(reverse);
    let item = slots[src];
    let m = if item is Present && present_data(item).spec_max_stack_size() > 1 {
        spec_merge_pass(kind, slots, item, order)
    } else {
        (slots, item, false)
    };
    let p = if !m.1.spec_is_empty() {
        spec_place_first(kind, m.0, m.1, order)
    } else {
        (m.0, m.1, false)
    };
    (p.0.update(src, p.1), m.2 || p.2)
}


/// The slot an item auto-equips into from its `equippable` component (the
/// patched value, else its kind's default); none for the main hand, body and
/// saddle, which a player can't wear.
pub open spec fn spec_equipment_slot_for_item(d: ItemStackData) -> Option<EquipmentSlot> {
    let slot = match d.component_patch.equippable {
        Some(Some(s)) => Some(s),
        Some(None) => None,
        None => d.kind.default_equippable,
    };
    match slot {
        Some(EquipmentSlot::Mainhand) => None,
        Some(EquipmentSlot::Body) => None,
        Some(EquipmentSlot::Saddle) => None,
        _ => slot,
    }
}

/// The player-menu index of the equipment slot an item auto-equips into:
/// 5 to 8 for head, chest, legs and feet, 45 for the offhand.
pub open spec fn spec_equip_slot_index(d: ItemStackData) -> Option<usize> {
    match spec_equipment_slot_for_item(d) {
        Some(EquipmentSlot::Head) => Some(5usize),
        Some(EquipmentSlot::Chest) => Some(6usize),
        Some(EquipmentSlot::Legs) => Some(7usize),
        Some(EquipmentSlot::Feet) => Some(8usize),
        Some(EquipmentSlot::Offhand) => Some(45usize),
        _ => None,
    }
}

/// Shulker boxes (the seventeen kinds with ids `582..=598`) refuse to nest
/// inside item containers; everything else fits.
pub open spec fn spec_can_fit_inside_container_items(kind: ItemKind) -> bool {
    !(SHULKER_BOX <= kind.id <= BLACK_SHULKER_BOX)
}

/// The `beacon_payment_items` tag: emerald, diamond, gold, iron and
/// netherite ingots.
pub open spec fn spec_is_beacon_payment_item(kind: ItemKind) -> bool {
    kind.id == EMERALD || kind.id == DIAMOND || kind.id == GOLD_INGOT || kind.id == IRON_INGOT
        || kind.id == NETHERITE_INGOT
}

/// What the brewing bottle slots accept: potions of the three kinds and
/// glass bottles.
pub open spec fn spec_is_potion_slot_item(kind: ItemKind) -> bool {
    kind.id == POTION || kind.id == SPLASH_POTION || kind.id == LINGERING_POTION || kind.id
        == GLASS_BOTTLE
}

/// Whether the stack carries a `map_id` (no kind has one by default).
pub open spec fn spec_has_map_id(d: ItemStackData) -> bool {
    d.component_patch.map_id matches Some(Some(_))
}

/// What a shift-click does.
#[derive(Clone, Copy, Debug, PartialEq, Eq, Structural)]
pub enum QuickMovePlan {
    /// Nothing moves.
    Stay,
    /// Move the stack into the range, walking it backwards when `reverse` is
    /// set.
    Move { targets: SlotRange, reverse: bool },
    /// Move the stack backwards into the range, then, when anything moved,
    /// consume the crafting grid.
    MoveAndTake { targets: SlotRange },
    /// Move the stack forwards into the range; when nothing moved, move it
    /// between the main inventory and the hotbar instead.
    MoveOrToggle { targets: SlotRange },
    /// Move the stack between the main inventory and the hotbar.
    Toggle,
    /// Move one item into the enchanting slot.
    EnchantOne,
}

pub open spec fn range(start: usize, end: usize) -> SlotRange {
    SlotRange { start, end }
}

/// The shift-click of slot `i`, holding `d`, in a menu of kind `kind` with
/// contents `slots`: results, grids and inputs go out to the player slots,
/// player items go into the menu where the menu's rules say they go.
pub open spec fn spec_quick_move_plan(kind: MenuKind, slots: Seq<ItemStack>, i: int, d: ItemStackData) -> QuickMovePlan {
    match kind.spec_location(i) {
        None => QuickMovePlan::Stay,
        Some(location) => spec_location_plan(location, kind.spec_player_slots(), slots, i, d),
    }
}

/// The shift-click of slot `i` at `location`, where the menu's player slots
/// are `player`.
pub open spec fn spec_location_plan(location: MenuLocation, player: SlotRange, slots: Seq<ItemStack>, i: int, d: ItemStackData) -> QuickMovePlan {
    let out = QuickMovePlan::Move { targets: player, reverse: true };
    match location {
            MenuLocation::Player(l) => match l {
                PlayerMenuLocation::CraftResult => QuickMovePlan::MoveAndTake { targets: range(9, 44) },
                PlayerMenuLocation::Craft => QuickMovePlan::Move { targets: range(9, 44), reverse: false },
                PlayerMenuLocation::Armor => QuickMovePlan::Move { targets: range(9, 44), reverse: false },
                _ => {
                    let equip = spec_equip_slot_index(d);
                    if equip is Some && slots[equip->0 as int].spec_is_empty() {
                        QuickMovePlan::Move { targets: range(equip->0, equip->0), reverse: false }
                    } else if l == PlayerMenuLocation::Inventory {
                        if 36 <= i <= 44 {
                            QuickMovePlan::Move { targets: range(9, 35), reverse: false }
                        } else {
                            QuickMovePlan::Move { targets: range(36, 44), reverse: false }
                        }
                    } else {
                        QuickMovePlan::Move { targets: range(9, 44), reverse: false }
                    }
                },
            },
            MenuLocation::Generic9x1(Generic9x1MenuLocation::Contents) => out,
            MenuLocation::Generic9x1(Generic9x1MenuLocation::Player) => QuickMovePlan::Move { targets: range(0, 8), reverse: false },
            MenuLocation::Generic9x2(Generic9x2MenuLocation::Contents) => out,
            MenuLocation::Generic9x2(Generic9x2MenuLocation::Player) => QuickMovePlan::Move { targets: range(0, 17), reverse: false },
            MenuLocation::Generic9x3(Generic9x3MenuLocation::Contents) => out,
            MenuLocation::Generic9x3(Generic9x3MenuLocation::Player) => QuickMovePlan::Move { targets: range(0, 26), reverse: false },
            MenuLocation::Generic9x4(Generic9x4MenuLocation::Contents) => out,
            MenuLocation::Generic9x4(Generic9x4MenuLocation::Player) => QuickMovePlan::Move { targets: range(0, 35), reverse: false },
            MenuLocation::Generic9x5(Generic9x5MenuLocation::Contents) => out,
            MenuLocation::Generic9x5(Generic9x5MenuLocation::Player) => QuickMovePlan::Move { targets: range(0, 44), reverse: false },
            MenuLocation::Generic9x6(Generic9x6MenuLocation::Contents) => out,
            MenuLocation::Generic9x6(Generic9x6MenuLocation::Player) => QuickMovePlan::Move { targets: range(0, 53), reverse: false },
            MenuLocation::Generic3x3(Generic3x3MenuLocation::Contents) => out,
            MenuLocation::Generic3x3(Generic3x3MenuLocation::Player) => QuickMovePlan::Move { targets: range(0, 8), reverse: false },
            MenuLocation::Crafter3x3(Crafter3x3MenuLocation::Contents) => out,
            MenuLocation::Crafter3x3(Crafter3x3MenuLocation::Player) => QuickMovePlan::Move { targets: range(0, 8), reverse: false },
            MenuLocation::Anvil(AnvilMenuLocation::Result) => out,
            MenuLocation::Anvil(AnvilMenuLocation::Player) => QuickMovePlan::Move { targets: range(0, 1), reverse: false },
            MenuLocation::Anvil(_) => out,
            MenuLocation::Beacon(BeaconMenuLocation::Payment) => out,
            MenuLocation::Beacon(BeaconMenuLocation::Player) => {
                if d.count == 1 && spec_is_beacon_payment_item(d.kind) && slots[0].spec_is_empty() {
                    QuickMovePlan::Move { targets: range(0, 0), reverse: false }
                } else {
                    QuickMovePlan::Toggle
                }
            },
            MenuLocation::BlastFurnace(BlastFurnaceMenuLocation::Result) => out,
            MenuLocation::BlastFurnace(BlastFurnaceMenuLocation::Player) => QuickMovePlan::Stay,
            MenuLocation::BlastFurnace(_) => out,
            MenuLocation::BrewingStand(BrewingStandMenuLocation::Player) => {
                if d.kind.id == BLAZE_POWDER {
                    QuickMovePlan::Move { targets: range(4, 4), reverse: false }
                } else if spec_is_potion_slot_item(d.kind) {
                    QuickMovePlan::Move { targets: range(0, 2), reverse: false }
                } else {
                    QuickMovePlan::Stay
                }
            },
            MenuLocation::BrewingStand(_) => out,
            MenuLocation::Crafting(CraftingMenuLocation::Result) => QuickMovePlan::MoveAndTake { targets: player },
            MenuLocation::Crafting(CraftingMenuLocation::Grid) => out,
            MenuLocation::Crafting(CraftingMenuLocation::Player) => QuickMovePlan::MoveOrToggle { targets: range(1, 9) },
            MenuLocation::Enchantment(EnchantmentMenuLocation::Player) => {
                if d.kind.id == LAPIS_LAZULI {
                    QuickMovePlan::Move { targets: range(1, 1), reverse: true }
                } else if slots[0].spec_is_empty() {
                    QuickMovePlan::EnchantOne
                } else {
                    QuickMovePlan::Stay
                }
            },
            MenuLocation::Enchantment(_) => out,
            MenuLocation::Furnace(FurnaceMenuLocation::Result) => out,
            MenuLocation::Furnace(FurnaceMenuLocation::Player) => QuickMovePlan::Stay,
            MenuLocation::Furnace(_) => out,
            MenuLocation::Grindstone(GrindstoneMenuLocation::Result) => out,
            MenuLocation::Grindstone(GrindstoneMenuLocation::Player) => {
                if slots[0].spec_is_empty() || slots[1].spec_is_empty() {
                    QuickMovePlan::Move { targets: range(0, 1), reverse: false }
                } else {
                    QuickMovePlan::Toggle
                }
            },
            MenuLocation::Grindstone(_) => out,
            MenuLocation::Hopper(HopperMenuLocation::Contents) => out,
            MenuLocation::Hopper(HopperMenuLocation::Player) => QuickMovePlan::Move { targets: range(0, 4), reverse: false },
            MenuLocation::Lectern(_) => QuickMovePlan::Stay,
            MenuLocation::Loom(LoomMenuLocation::Result) => out,
            MenuLocation::Loom(LoomMenuLocation::Player) => QuickMovePlan::Stay,
            MenuLocation::Loom(_) => out,
            MenuLocation::Merchant(MerchantMenuLocation::Result) => out,
            MenuLocation::Merchant(MerchantMenuLocation::Player) => QuickMovePlan::Toggle,
            MenuLocation::Merchant(_) => out,
            MenuLocation::ShulkerBox(ShulkerBoxMenuLocation::Contents) => out,
            MenuLocation::ShulkerBox(ShulkerBoxMenuLocation::Player) => {
                if spec_can_fit_inside_container_items(d.kind) {
                    QuickMovePlan::Move { targets: range(0, 26), reverse: false }
                } else {
                    QuickMovePlan::Stay
                }
            },
            MenuLocation::Smithing(SmithingMenuLocation::Result) => out,
            MenuLocation::Smithing(SmithingMenuLocation::Player) => QuickMovePlan::Stay,
            MenuLocation::Smithing(_) => out,
            MenuLocation::Smoker(SmokerMenuLocation::Result) => out,
            MenuLocation::Smoker(SmokerMenuLocation::Player) => QuickMovePlan::Stay,
            MenuLocation::Smoker(_) => out,
            MenuLocation::CartographyTable(CartographyTableMenuLocation::Result) => out,
            MenuLocation::CartographyTable(CartographyTableMenuLocation::Player) => {
                if spec_has_map_id(d) {
                    QuickMovePlan::Move { targets: range(0, 0), reverse: false }
                } else if d.kind.id == PAPER || d.kind.id == MAP || d.kind.id == GLASS_PANE {
                    QuickMovePlan::Move { targets: range(1, 1), reverse: false }
                } else {
                    QuickMovePlan::Toggle
                }
            },
            MenuLocation::CartographyTable(_) => out,
            MenuLocation::Stonecutter(StonecutterMenuLocation::Result) => out,
            MenuLocation::Stonecutter(StonecutterMenuLocation::Player) => QuickMovePlan::Stay,
            MenuLocation::Stonecutter(_) => out,
    }
}

/// Where a toggle moves slot `i`: from the hotbar to the rest of the player
/// slots, and from anywhere else to the hotbar.
pub open spec fn spec_toggle_targets(kind: MenuKind, i: int) -> SlotRange {
    if kind.spec_hotbar_slots().spec_contains(i) {
        kind.spec_player_slots_without_hotbar()
    } else {
        kind.spec_hotbar_slots()
    }
}

/// Taking one item from the grid cell `g` as part of taking a craft: the
/// cell loses an item, and an ingredient with a crafting remainder leaves it
/// in the cell when the cell emptied, merges it into a matching leftover, and
/// otherwise hands it to the player inventory.
pub open spec fn spec_take_from_grid_cell(kind: MenuKind, slots: Seq<ItemStack>, g: int) -> Seq<ItemStack> {
    match slots[g] {
        ItemStack::Empty => slots,
        ItemStack::Present(gi) => {
            let after = ItemStack::Present(
                ItemStackData { count: (gi.count - min(1, gi.count as int)) as i32, ..gi },
            ).spec_normalized();
            let s1 = slots.update(g, after);
            match gi.kind.spec_crafting_remainder() {
                None => s1,
                Some(rk) => {
                    let remainder = ItemStackData {
                        kind: rk,
                        count: 1,
                        component_patch: DataComponentPatch::spec_empty(),
                    };
                    match after {
                        ItemStack::Empty => s1.update(g, ItemStack::Present(remainder)),
                        ItemStack::Present(leftover) => {
                            if leftover.same_item(remainder) {
                                s1.update(
                                    g,
                                    ItemStack::Present(
                                        ItemStackData { count: (1 + leftover.count) as i32, ..remainder },
                                    ),
                                )
                            } else {
                                spec_add_to_player_inventory(kind, s1, ItemStack::Present(remainder))
                            }
                        },
                    }
                },
            }
        },
    }
}

pub open spec fn spec_take_from_grid(kind: MenuKind, slots: Seq<ItemStack>, order: Seq<usize>) -> Seq<ItemStack>
    decreases order.len(),
{
    if order.len() == 0 {
        slots
    } else {
        spec_take_from_grid(kind, spec_take_from_grid_cell(kind, slots, order[0] as int), order.drop_first())
    }
}

/// The crafting grid that taking from slot `i` consumes: `1..=4` for the
/// player's craft result, `1..=9` for a crafting table's result.
pub open spec fn spec_crafting_grid(kind: MenuKind, i: int) -> Option<SlotRange> {
    match kind.spec_location(i) {
        Some(MenuLocation::Player(PlayerMenuLocation::CraftResult)) => Some(range(1, 4)),
        Some(MenuLocation::Crafting(CraftingMenuLocation::Result)) => Some(range(1, 9)),
        _ => None,
    }
}

/// Taking a craft from slot `i`: every grid cell in order gives up one item
/// (see [`spec_take_from_grid_cell`]); other slots take nothing.
pub open spec fn spec_crafting_result_on_take(kind: MenuKind, slots: Seq<ItemStack>, i: int) -> Seq<ItemStack> {
    match spec_crafting_grid(kind, i) {
        Some(grid) => spec_take_from_grid(kind, slots, grid.order(false)),
        None => slots,
    }
}

/// The order in which the player inventory takes items: the hotbar, then
/// the main rows.
pub open spec fn spec_inventory_scan_order(kind: MenuKind) -> Seq<usize> {
    kind.spec_hotbar_slots().order(false) + range(
        kind.spec_player_slots().start,
        (kind.spec_hotbar_slots().start - 1) as usize,
    ).order(false)
}

/// Adding a stack to the player inventory: merge into matching stacks in
/// scan order, then fill empty slots in scan order; what finds no home is
/// dropped.
pub open spec fn spec_add_to_player_inventory(kind: MenuKind, slots: Seq<ItemStack>, stack: ItemStack) -> Seq<ItemStack> {
    let order = spec_inventory_scan_order(kind);
    let m = spec_merge_pass(kind, slots, stack, order);
    spec_fill_pass(kind, m.0, m.1, order).0
}

/// The menu after carrying out `plan` for slot `i`.
pub open spec fn spec_apply_quick_move(kind: MenuKind, slots: Seq<ItemStack>, i: int, plan: QuickMovePlan) -> Seq<ItemStack> {
    match plan {
        QuickMovePlan::Stay => slots,
        QuickMovePlan::Move { targets, reverse } => spec_move_stack_to(kind, slots, i, targets, reverse).0,
        QuickMovePlan::MoveAndTake { targets } => {
            let r = spec_move_stack_to(kind, slots, i, targets, true);
            if r.1 {
                spec_crafting_result_on_take(kind, r.0, i)
            } else {
                r.0
            }
        },
        QuickMovePlan::MoveOrToggle { targets } => {
            let r = spec_move_stack_to(kind, slots, i, targets, false);
            if r.1 {
                r.0
            } else {
                spec_move_stack_to(kind, r.0, i, spec_toggle_targets(kind, i), false).0
            }
        },
        QuickMovePlan::Toggle => spec_move_stack_to(kind, slots, i, spec_toggle_targets(kind, i), false).0,
        QuickMovePlan::EnchantOne => match slots[i] {
            ItemStack::Present(d) => slots.update(
                i,
                ItemStack::Present(ItemStackData { count: (d.count - min(1, d.count as int)) as i32, ..d }).spec_normalized(),
            ).update(0, ItemStack::spec_from_data(ItemStackData { count: min(1, d.count as int) as i32, ..d })),
            ItemStack::Empty => slots,
        },
    }
}

/// The ranges of a plan lie inside the menu, and a single enchanting move
/// only happens in an enchanting table, away from its item slot.
pub open spec fn plan_fits(kind: MenuKind, i: int, plan: QuickMovePlan) -> bool {
    match plan {
        QuickMovePlan::Move { targets, .. } => targets.start <= targets.end < kind.spec_len(),
        QuickMovePlan::MoveAndTake { targets } => targets.start <= targets.end < kind.spec_len(),
        QuickMovePlan::MoveOrToggle { targets } => targets.start <= targets.end < kind.spec_len(),
        QuickMovePlan::EnchantOne => i != 0 && kind.spec_len() > 0,
        _ => true,
    }
}

/// The equipment slot an item would auto-equip into for a player, from its
/// `equippable` component.
///
/// Returns `None` for `Mainhand`, `Body` and `Saddle`.
fn equipment_slot_for_item(item: &ItemStackData) -> (r: Option<EquipmentSlot>)
    ensures
        r == spec_equipment_slot_for_item(*item),
{
    let slot = match item.component_patch.equippable {
        Some(Some(s)) => Some(s),
        Some(None) => None,
        None => item.kind.default_equippable,
    };
    match slot {
        Some(EquipmentSlot::Mainhand) | Some(EquipmentSlot::Body) | Some(EquipmentSlot::Saddle) => None,
        _ => slot,
    }
}

/// Shulker boxes refuse to nest inside item containers.
fn can_fit_inside_container_items(kind: &ItemKind) -> (b: bool)
    ensures
        b == spec_can_fit_inside_container_items(*kind),
{
    !(SHULKER_BOX <= kind.id && kind.id <= BLACK_SHULKER_BOX)
}

/// The `beacon_payment_items` item tag.
fn is_beacon_payment_item(kind: &ItemKind) -> (b: bool)
    ensures
        b == spec_is_beacon_payment_item(*kind),
{
    kind.id == EMERALD || kind.id == DIAMOND || kind.id == GOLD_INGOT || kind.id == IRON_INGOT
        || kind.id == NETHERITE_INGOT
}

/// What the brewing stand's bottle slots accept.
fn is_potion_slot_item(kind: &ItemKind) -> (b: bool)
    ensures
        b == spec_is_potion_slot_item(*kind),
{
    kind.id == POTION || kind.id == SPLASH_POTION || kind.id == LINGERING_POTION || kind.id
        == GLASS_BOTTLE
}

fn to_range(start: usize, end: usize) -> (r: SlotRange)
    ensures
        r == range(start, end),
{
    SlotRange { start, end }
}

/// Every range a shift-click plan names lies inside its menu.
pub proof fn lemma_plan_fits(kind: MenuKind, slots: Seq<ItemStack>, i: int, d: ItemStackData)
    ensures
        plan_fits(kind, i, spec_quick_move_plan(kind, slots, i, d)),
{
    kind.lemma_location_kind(i);
    kind.lemma_player_slots();
}

impl Menu {
    /// Every slot holds a valid stack.
    pub open spec fn valid(&self) -> bool {
        slots_valid(self@)
    }

    /// Whether the slot is a menu's crafted/processed output. Every one of
    /// these refuses all items.
    pub fn is_result_slot(&self, slot_index: usize) -> (b: bool)
        ensures
            b == spec_is_result_slot(self.spec_kind(), slot_index as int),
    {
        let location = match self.location_for_slot(slot_index) {
            Some(location) => location,
            None => return false,
        };
        matches!(
            location,
            MenuLocation::Player(PlayerMenuLocation::CraftResult) | MenuLocation::Anvil(
                AnvilMenuLocation::Result,
            ) | MenuLocation::BlastFurnace(BlastFurnaceMenuLocation::Result)
                | MenuLocation::CartographyTable(CartographyTableMenuLocation::Result)
                | MenuLocation::Crafting(CraftingMenuLocation::Result) | MenuLocation::Furnace(
                FurnaceMenuLocation::Result,
            ) | MenuLocation::Grindstone(GrindstoneMenuLocation::Result) | MenuLocation::Loom(
                LoomMenuLocation::Result,
            ) | MenuLocation::Merchant(MerchantMenuLocation::Result) | MenuLocation::Smithing(
                SmithingMenuLocation::Result,
            ) | MenuLocation::Smoker(SmokerMenuLocation::Result) | MenuLocation::Stonecutter(
                StonecutterMenuLocation::Result,
            )
        )
    }

    /// Whether the given item could be placed in this menu.
    ///
    /// Result slots refuse everything; other placement restrictions (armor
    /// slots, furnace fuel, beacon payment, ...) are not modeled and allow
    /// the placement.
    pub fn may_place(&self, target_slot_index: usize, _item: &ItemStackData) -> (b: bool)
        ensures
            b == !spec_is_result_slot(self.spec_kind(), target_slot_index as int),
    {
        !self.is_result_slot(target_slot_index)
    }

    /// Whether the item in the given slot could be clicked and picked up;
    /// always true.
    pub fn may_pickup(&self, _source_slot_index: usize) -> (b: bool)
        ensures
            b,
    {
        true
    }

    /// Whether the item in the slot can be picked up and placed: the slot
    /// holds a stack and is not a result slot.
    pub fn allow_modification(&self, target_slot_index: usize) -> (b: bool)
        requires
            target_slot_index < self@.len(),
        ensures
            b == (self@[target_slot_index as int] is Present && !spec_is_result_slot(
                self.spec_kind(),
                target_slot_index as int,
            )),
    {
        if !self.may_pickup(target_slot_index) {
            return false;
        }
        let item = self.slot(target_slot_index).unwrap();
        match item.as_present() {
            Some(item) => self.may_place(target_slot_index, item),
            None => false,
        }
    }

    /// Get the maximum number of items that can be placed in this slot.
    pub fn max_stack_size(&self, target_slot_index: usize) -> (n: i32)
        ensures
            n == spec_slot_max_stack_size(self.spec_kind(), target_slot_index as int),
    {
        match self.location_for_slot(target_slot_index) {
            Some(MenuLocation::Player(PlayerMenuLocation::Armor)) | Some(
                MenuLocation::Beacon(BeaconMenuLocation::Payment),
            ) | Some(MenuLocation::BrewingStand(BrewingStandMenuLocation::Bottles)) | Some(
                MenuLocation::Enchantment(EnchantmentMenuLocation::Item),
            ) | Some(MenuLocation::Lectern(LecternMenuLocation::Book)) => 1,
            _ => 99,
        }
    }

    /// Merge this item slot into the target item slot, only if the target
    /// holds a matching stack with room left: the target is topped up to its
    /// limit and the remainder stays in the source.
    ///
    /// Returns whether any items were moved.
    fn move_item_to_slot_if_stackable(&mut self, item_slot: &mut ItemStack, target_slot_index: usize) -> (moved: bool)
        requires
            old(self).valid(),
            old(item_slot).valid(),
            target_slot_index < old(self)@.len(),
        ensures
            final(self).spec_kind() == old(self).spec_kind(),
            final(self).valid(),
            final(self)@.len() == old(self)@.len(),
            final(item_slot).valid(),
            final(self)@ == spec_merge_into(
                old(self).spec_kind(),
                old(self)@,
                *old(item_slot),
                target_slot_index as int,
            ).0,
            *final(item_slot) == spec_merge_into(
                old(self).spec_kind(),
                old(self)@,
                *old(item_slot),
                target_slot_index as int,
            ).1,
            moved == spec_merge_into(
                old(self).spec_kind(),
                old(self)@,
                *old(item_slot),
                target_slot_index as int,
            ).2,
    {
        let item = match *item_slot {
            ItemStack::Present(d) => d,
            ItemStack::Empty => return false,
        };
        let target_item = match *self.slot(target_slot_index).unwrap() {
            ItemStack::Present(d) => d,
            ItemStack::Empty => return false,
        };
        proof {
            assert(self@[target_slot_index as int].valid());
        }
        if !target_item.is_same_item_and_components(&item) {
            return false;
        }
        let target_count = target_item.count;
        let slot_limit = self.max_stack_size(target_slot_index);
        let item_limit = item.max_stack_size();
        let limit = if slot_limit < item_limit {
            slot_limit
        } else {
            item_limit
        };
        if target_count >= limit {
            return false;
        }
        let moved = if item.count < limit - target_count {
            item.count
        } else {
            limit - target_count
        };
        let mut rest = item;
        rest.count = item.count - moved;
        *item_slot = ItemStack::Present(rest);
        let mut topped_up = target_item;
        topped_up.count = target_count + moved;
        self.set_slot(target_slot_index, ItemStack::Present(topped_up));
        item_slot.update_empty();
        true
    }

    /// Place the source stack into the target slot if that slot is empty and
    /// accepts it.
    ///
    /// Returns whether any items were moved.
    fn move_item_to_slot_if_empty(&mut self, source_item: &mut ItemStack, target_slot_index: usize) -> (moved: bool)
        requires
            old(self).valid(),
            old(source_item).valid(),
            target_slot_index < old(self)@.len(),
        ensures
            final(self).spec_kind() == old(self).spec_kind(),
            final(self).valid(),
            final(self)@.len() == old(self)@.len(),
            final(source_item).valid(),
            final(self)@ == spec_place_into(
                old(self).spec_kind(),
                old(self)@,
                *old(source_item),
                target_slot_index as int,
            ).0,
            *final(source_item) == spec_place_into(
                old(self).spec_kind(),
                old(self)@,
                *old(source_item),
                target_slot_index as int,
            ).1,
            moved == spec_place_into(
                old(self).spec_kind(),
                old(self)@,
                *old(source_item),
                target_slot_index as int,
            ).2,
    {
        let source_item_data = match *source_item {
            ItemStack::Present(d) => d,
            ItemStack::Empty => return false,
        };
        let target_slot = self.slot(target_slot_index).unwrap();
        if !target_slot.is_empty() || !self.may_place(target_slot_index, &source_item_data) {
            return false;
        }
        let slot_limit = self.max_stack_size(target_slot_index);
        let item_limit = source_item_data.max_stack_size();
        let limit = if slot_limit < item_limit {
            slot_limit
        } else {
            item_limit
        };
        let amount = if limit < source_item_data.count {
            limit
        } else {
            source_item_data.count
        };
        let mut rest = source_item_data;
        let new_target_slot_data = rest.split(amount as u32);
        *source_item = ItemStack::Present(rest);
        source_item.update_empty();
        self.set_slot(target_slot_index, ItemStack::from(new_target_slot_data));
        true
    }

    /// Try moving an item to a set of slots in this menu, walking the slots
    /// backwards when `reverse` is set: a first pass merges into existing
    /// matching stacks until the source runs out, then a second pass places
    /// the remainder into a single empty slot.
    ///
    /// Returns whether any items were moved.
    fn try_move_item_to_slots(&mut self, item_slot_index: usize, target_slot_indexes: SlotRange, reverse: bool) -> (moved: bool)
        requires
            old(self).valid(),
            item_slot_index < old(self)@.len(),
            target_slot_indexes.start <= target_slot_indexes.end < old(self)@.len(),
        ensures
            final(self).spec_kind() == old(self).spec_kind(),
            final(self).valid(),
            final(self)@.len() == old(self)@.len(),
            final(self)@ == spec_move_stack_to(
                old(self).spec_kind(),
                old(self)@,
                item_slot_index as int,
                target_slot_indexes,
                reverse,
            ).0,
            moved == spec_move_stack_to(
                old(self).spec_kind(),
                old(self)@,
                item_slot_index as int,
                target_slot_indexes,
                reverse,
            ).1,
    {
        let ghost kind = self.spec_kind();
        let ghost s0 = self@;
        let ghost order = target_slot_indexes.order(reverse);
        let mut item_slot = *self.slot(item_slot_index).unwrap();
        let ghost i0 = item_slot;
        proof {
            self.lemma_len();
            assert(order.skip(0) =~= order);
        }
        let mut moved_anything = false;
        let n: usize = target_slot_indexes.end - target_slot_indexes.start + 1;
        let stackable = match item_slot {
            ItemStack::Present(d) => d.stackable(),
            ItemStack::Empty => false,
        };

        // first see if we can stack it with other items
        if stackable {
            let mut k: usize = 0;
            while k < n && item_slot.is_present()
                invariant
                    self.spec_kind() == kind,
                    self.valid(),
                    item_slot.valid(),
                    order == target_slot_indexes.order(reverse),
                    n == order.len(),
                    self@.len() == s0.len(),
                    item_slot_index < s0.len(),
                    k <= n,
                    target_slot_indexes.start <= target_slot_indexes.end < self@.len(),
                    spec_merge_pass(kind, s0, i0, order) == ({
                        let r = spec_merge_pass(kind, self@, item_slot, order.skip(k as int));
                        (r.0, r.1, moved_anything || r.2)
                    }),
                decreases n - k,
            {
                let t = if reverse {
                    target_slot_indexes.end - k
                } else {
                    target_slot_indexes.start + k
                };
                proof {
                    assert(order.skip(k as int)[0] == t);
                    assert(order.skip(k as int).drop_first() =~= order.skip(k + 1));
                }
                let m = self.move_item_to_slot_if_stackable(&mut item_slot, t);
                moved_anything = moved_anything || m;
                k = k + 1;
            }
            proof {
                if k == n {
                    assert(order.skip(k as int).len() == 0);
                }
            }
        }
        let ghost s1 = self@;
        let ghost i1 = item_slot;
        let ghost m1 = moved_anything;

        // and then put the remainder into the first empty slot that accepts
        // it (at most one empty slot per move)
        if item_slot.is_present() {
            let mut k: usize = 0;
            let mut placed = false;
            proof {
                assert(order.skip(0) =~= order);
            }
            while k < n && !placed
                invariant
                    self.spec_kind() == kind,
                    self.valid(),
                    item_slot.valid(),
                    order == target_slot_indexes.order(reverse),
                    n == order.len(),
                    self@.len() == s0.len(),
                    item_slot_index < s0.len(),
                    k <= n,
                    target_slot_indexes.start <= target_slot_indexes.end < self@.len(),
                    !placed ==> self@ == s1 && item_slot == i1 && spec_place_first(
                        kind,
                        s1,
                        i1,
                        order,
                    ) == spec_place_first(kind, s1, i1, order.skip(k as int)),
                    placed ==> spec_place_first(kind, s1, i1, order) == (self@, item_slot, true),
                    moved_anything == (m1 || placed),
                decreases n - k,
            {
                let t = if reverse {
                    target_slot_indexes.end - k
                } else {
                    target_slot_indexes.start + k
                };
                proof {
                    assert(order.skip(k as int)[0] == t);
                    assert(order.skip(k as int).drop_first() =~= order.skip(k + 1));
                }
                if self.move_item_to_slot_if_empty(&mut item_slot, t) {
                    moved_anything = true;
                    placed = true;
                }
                k = k + 1;
            }
            proof {
                if !placed {
                    assert(order.skip(k as int).len() == 0);
                }
            }
        }
        proof {
            assert(s0[item_slot_index as int].valid());
        }
        self.set_slot(item_slot_index, item_slot);
        proof {
            assert forall|j: int| 0 <= j < self@.len() implies #[trigger] self@[j].valid() by {
                if j != item_slot_index {
                    assert(s1[j].valid());
                }
            }
        }
        moved_anything
    }

    /// The shift-click plan for the non-empty stack `d` in slot `slot_index`.
    fn quick_move_plan(&self, slot_index: usize, d: &ItemStackData) -> (plan: QuickMovePlan)
        requires
            slot_index < self@.len(),
        ensures
            plan == spec_quick_move_plan(self.spec_kind(), self@, slot_index as int, *d),
            plan_fits(self.spec_kind(), slot_index as int, plan),
    {
        proof {
            self.lemma_len();
            self.spec_kind().lemma_player_slots();
            self.spec_kind().lemma_location_kind(slot_index as int);
            lemma_plan_fits(self.spec_kind(), self@, slot_index as int, *d);
        }
        let player = self.player_slots_range();
        match self.location_for_slot(slot_index) {
            Some(location) => self.location_plan(location, player, slot_index, d),
            None => QuickMovePlan::Stay,
        }
    }

    /// The shift-click plan for the stack `d` in slot `slot_index` at
    /// `location`.
    #[verifier::rlimit(60)]
    #[verifier::spinoff_prover]
    fn location_plan(&self, location: MenuLocation, player: SlotRange, slot_index: usize, d: &ItemStackData) -> (plan: QuickMovePlan)
        requires
            self@.len() >= 37,
            location is Player ==> self@.len() == 46,
        ensures
            plan == spec_location_plan(location, player, self@, slot_index as int, *d),
    {
        let out = QuickMovePlan::Move { targets: player, reverse: true };
        match location {
            MenuLocation::Player(l) => match l {
                PlayerMenuLocation::CraftResult => QuickMovePlan::MoveAndTake { targets: to_range(9, 44) },
                PlayerMenuLocation::Craft => QuickMovePlan::Move { targets: to_range(9, 44), reverse: false },
                PlayerMenuLocation::Armor => QuickMovePlan::Move { targets: to_range(9, 44), reverse: false },
                _ => {
                    // inventory, hotbar, and offhand slots: gear auto-equips
                    // into its empty equipment slot before anything else
                    let equip_slot_index = match equipment_slot_for_item(d) {
                        Some(EquipmentSlot::Head) => Some(5usize),
                        Some(EquipmentSlot::Chest) => Some(6usize),
                        Some(EquipmentSlot::Legs) => Some(7usize),
                        Some(EquipmentSlot::Feet) => Some(8usize),
                        Some(EquipmentSlot::Offhand) => Some(crate::menu::PLAYER_OFFHAND_SLOT),
                        _ => None,
                    };
                    let equip_free = match equip_slot_index {
                        Some(e) => self.slot(e).unwrap().is_empty(),
                        None => false,
                    };
                    if equip_free {
                        let e = equip_slot_index.unwrap();
                        QuickMovePlan::Move { targets: to_range(e, e), reverse: false }
                    } else if l == PlayerMenuLocation::Inventory {
                        // shift-clicking in hotbar moves to inventory, and
                        // vice versa
                        if crate::menu::Player::is_hotbar_slot(slot_index) {
                            QuickMovePlan::Move { targets: to_range(9, 35), reverse: false }
                        } else {
                            QuickMovePlan::Move { targets: to_range(36, 44), reverse: false }
                        }
                    } else {
                        // offhand
                        QuickMovePlan::Move { targets: to_range(9, 44), reverse: false }
                    }
                },
            },
            // plain containers: player items go into the container or
            // nowhere (there is no inventory/hotbar fallback in these)
            MenuLocation::Generic9x1(Generic9x1MenuLocation::Contents) => out,
            MenuLocation::Generic9x1(Generic9x1MenuLocation::Player) => QuickMovePlan::Move { targets: to_range(0, 8), reverse: false },
            MenuLocation::Generic9x2(Generic9x2MenuLocation::Contents) => out,
            MenuLocation::Generic9x2(Generic9x2MenuLocation::Player) => QuickMovePlan::Move { targets: to_range(0, 17), reverse: false },
            MenuLocation::Generic9x3(Generic9x3MenuLocation::Contents) => out,
            MenuLocation::Generic9x3(Generic9x3MenuLocation::Player) => QuickMovePlan::Move { targets: to_range(0, 26), reverse: false },
            MenuLocation::Generic9x4(Generic9x4MenuLocation::Contents) => out,
            MenuLocation::Generic9x4(Generic9x4MenuLocation::Player) => QuickMovePlan::Move { targets: to_range(0, 35), reverse: false },
            MenuLocation::Generic9x5(Generic9x5MenuLocation::Contents) => out,
            MenuLocation::Generic9x5(Generic9x5MenuLocation::Player) => QuickMovePlan::Move { targets: to_range(0, 44), reverse: false },
            MenuLocation::Generic9x6(Generic9x6MenuLocation::Contents) => out,
            MenuLocation::Generic9x6(Generic9x6MenuLocation::Player) => QuickMovePlan::Move { targets: to_range(0, 53), reverse: false },
            MenuLocation::Generic3x3(Generic3x3MenuLocation::Contents) => out,
            MenuLocation::Generic3x3(Generic3x3MenuLocation::Player) => QuickMovePlan::Move { targets: to_range(0, 8), reverse: false },
            MenuLocation::Crafter3x3(Crafter3x3MenuLocation::Contents) => out,
            MenuLocation::Crafter3x3(Crafter3x3MenuLocation::Player) => QuickMovePlan::Move { targets: to_range(0, 8), reverse: false },
            MenuLocation::Anvil(AnvilMenuLocation::Result) => out,
            // both anvil inputs accept any item (that's how renaming
            // works), and there is no inventory/hotbar fallback when they're
            // occupied
            MenuLocation::Anvil(AnvilMenuLocation::Player) => QuickMovePlan::Move { targets: to_range(0, 1), reverse: false },
            MenuLocation::Anvil(_) => out,
            MenuLocation::Beacon(BeaconMenuLocation::Payment) => out,
            MenuLocation::Beacon(BeaconMenuLocation::Player) => {
                // a single payment item moves into the empty payment slot
                if d.count == 1 && is_beacon_payment_item(&d.kind) && self.slot(0).unwrap().is_empty() {
                    QuickMovePlan::Move { targets: to_range(0, 0), reverse: false }
                } else {
                    QuickMovePlan::Toggle
                }
            },
            MenuLocation::BlastFurnace(BlastFurnaceMenuLocation::Result) => out,
            // smeltables and fuels are routed by recipe data we don't have
            MenuLocation::BlastFurnace(BlastFurnaceMenuLocation::Player) => QuickMovePlan::Stay,
            MenuLocation::BlastFurnace(_) => out,
            MenuLocation::BrewingStand(BrewingStandMenuLocation::Player) => {
                // blaze powder is fuel, and potions or bottles go into the
                // one-item bottle slots; anything else may or may not be a
                // brewing ingredient, so it stays put
                if d.kind.id == BLAZE_POWDER {
                    QuickMovePlan::Move { targets: to_range(4, 4), reverse: false }
                } else if is_potion_slot_item(&d.kind) {
                    QuickMovePlan::Move { targets: to_range(0, 2), reverse: false }
                } else {
                    QuickMovePlan::Stay
                }
            },
            MenuLocation::BrewingStand(_) => out,
            // shift-crafting consumes the grid after a successful move
            MenuLocation::Crafting(CraftingMenuLocation::Result) => QuickMovePlan::MoveAndTake { targets: player },
            MenuLocation::Crafting(CraftingMenuLocation::Grid) => out,
            // the crafting grid first
            MenuLocation::Crafting(CraftingMenuLocation::Player) => QuickMovePlan::MoveOrToggle { targets: to_range(1, 9) },
            MenuLocation::Enchantment(EnchantmentMenuLocation::Player) => {
                if d.kind.id == LAPIS_LAZULI {
                    QuickMovePlan::Move { targets: to_range(1, 1), reverse: true }
                } else if self.slot(0).unwrap().is_empty() {
                    // exactly one item moves into the enchanting slot, with
                    // no inventory/hotbar fallback when it's occupied
                    QuickMovePlan::EnchantOne
                } else {
                    QuickMovePlan::Stay
                }
            },
            MenuLocation::Enchantment(_) => out,
            MenuLocation::Furnace(FurnaceMenuLocation::Result) => out,
            MenuLocation::Furnace(FurnaceMenuLocation::Player) => QuickMovePlan::Stay,
            MenuLocation::Furnace(_) => out,
            MenuLocation::Grindstone(GrindstoneMenuLocation::Result) => out,
            MenuLocation::Grindstone(GrindstoneMenuLocation::Player) => {
                // into the grindstone while either input is empty
                if self.slot(0).unwrap().is_empty() || self.slot(1).unwrap().is_empty() {
                    QuickMovePlan::Move { targets: to_range(0, 1), reverse: false }
                } else {
                    QuickMovePlan::Toggle
                }
            },
            MenuLocation::Grindstone(_) => out,
            MenuLocation::Hopper(HopperMenuLocation::Contents) => out,
            MenuLocation::Hopper(HopperMenuLocation::Player) => QuickMovePlan::Move { targets: to_range(0, 4), reverse: false },
            // the lectern has no quick moves at all
            MenuLocation::Lectern(_) => QuickMovePlan::Stay,
            MenuLocation::Loom(LoomMenuLocation::Result) => out,
            // banners, dyes and patterns are not told apart yet
            MenuLocation::Loom(LoomMenuLocation::Player) => QuickMovePlan::Stay,
            MenuLocation::Loom(_) => out,
            MenuLocation::Merchant(MerchantMenuLocation::Result) => out,
            // trades are filled by selecting them, never by shift-clicking
            MenuLocation::Merchant(MerchantMenuLocation::Player) => QuickMovePlan::Toggle,
            MenuLocation::Merchant(_) => out,
            MenuLocation::ShulkerBox(ShulkerBoxMenuLocation::Contents) => out,
            MenuLocation::ShulkerBox(ShulkerBoxMenuLocation::Player) => {
                if can_fit_inside_container_items(&d.kind) {
                    QuickMovePlan::Move { targets: to_range(0, 26), reverse: false }
                } else {
                    QuickMovePlan::Stay
                }
            },
            MenuLocation::Smithing(SmithingMenuLocation::Result) => out,
            // gated on smithing recipes we don't have
            MenuLocation::Smithing(SmithingMenuLocation::Player) => QuickMovePlan::Stay,
            MenuLocation::Smithing(_) => out,
            MenuLocation::Smoker(SmokerMenuLocation::Result) => out,
            MenuLocation::Smoker(SmokerMenuLocation::Player) => QuickMovePlan::Stay,
            MenuLocation::Smoker(_) => out,
            MenuLocation::CartographyTable(CartographyTableMenuLocation::Result) => out,
            MenuLocation::CartographyTable(CartographyTableMenuLocation::Player) => {
                // filled maps go into the map slot, paper-likes into the
                // additional slot, everything else toggles
                let has_map_id = match d.component_patch.map_id {
                    Some(Some(_)) => true,
                    _ => false,
                };
                if has_map_id {
                    QuickMovePlan::Move { targets: to_range(0, 0), reverse: false }
                } else if d.kind.id == PAPER || d.kind.id == MAP || d.kind.id == GLASS_PANE {
                    QuickMovePlan::Move { targets: to_range(1, 1), reverse: false }
                } else {
                    QuickMovePlan::Toggle
                }
            },
            MenuLocation::CartographyTable(_) => out,
            MenuLocation::Stonecutter(StonecutterMenuLocation::Result) => out,
            // recipe data we don't have
            MenuLocation::Stonecutter(StonecutterMenuLocation::Player) => QuickMovePlan::Stay,
            MenuLocation::Stonecutter(_) => out,
        }
    }

    /// Move an item from the player's main inventory to the hotbar, or the
    /// other way around, depending on where it currently is.
    fn toggle_between_inventory_and_hotbar(&mut self, slot_index: usize)
        requires
            old(self).valid(),
            slot_index < old(self)@.len(),
        ensures
            final(self).spec_kind() == old(self).spec_kind(),
            final(self).valid(),
            final(self)@.len() == old(self)@.len(),
            final(self)@ == spec_move_stack_to(
                old(self).spec_kind(),
                old(self)@,
                slot_index as int,
                spec_toggle_targets(old(self).spec_kind(), slot_index as int),
                false,
            ).0,
    {
        proof {
            self.lemma_len();
            self.spec_kind().lemma_player_slots();
        }
        let targets = if self.is_hotbar_slot(slot_index) {
            self.player_slots_without_hotbar_range()
        } else {
            self.hotbar_slots_range()
        };
        self.try_move_item_to_slots(slot_index, targets, false);
    }

    /// Try moving an item to the given slots, and toggle it between the
    /// inventory and hotbar if nothing moved.
    fn try_move_item_to_slots_or_toggle_hotbar(&mut self, slot_index: usize, target_slot_indexes: SlotRange)
        requires
            old(self).valid(),
            slot_index < old(self)@.len(),
            target_slot_indexes.start <= target_slot_indexes.end < old(self)@.len(),
        ensures
            final(self).spec_kind() == old(self).spec_kind(),
            final(self).valid(),
            final(self)@.len() == old(self)@.len(),
            final(self)@ == spec_apply_quick_move(
                old(self).spec_kind(),
                old(self)@,
                slot_index as int,
                QuickMovePlan::MoveOrToggle { targets: target_slot_indexes },
            ),
    {
        if !self.try_move_item_to_slots(slot_index, target_slot_indexes, false) {
            self.toggle_between_inventory_and_hotbar(slot_index);
        }
    }

    /// Add a stack to the player inventory: merge into partially filled
    /// matching stacks first, then place into free slots, scanning the
    /// hotbar before the main rows. Whatever finds no home is discarded.
    pub fn add_to_player_inventory(&mut self, stack: ItemStack)
        requires
            old(self).valid(),
            stack.valid(),
        ensures
            final(self).spec_kind() == old(self).spec_kind(),
            final(self).valid(),
            final(self)@.len() == old(self)@.len(),
            final(self)@ == spec_add_to_player_inventory(old(self).spec_kind(), old(self)@, stack),
    {
        let ghost kind = self.spec_kind();
        let ghost s0 = self@;
        let ghost order = spec_inventory_scan_order(kind);
        proof {
            self.lemma_len();
            kind.lemma_player_slots();
        }
        let hotbar_slots = self.hotbar_slots_range();
        let player_slots = self.player_slots_range();
        let mut scan_order: Vec<usize> = Vec::new();
        let mut j = hotbar_slots.start;
        while j <= hotbar_slots.end
            invariant
                hotbar_slots == kind.spec_hotbar_slots(),
                hotbar_slots.start <= j <= hotbar_slots.end + 1,
                hotbar_slots.end < 100,
                scan_order@ =~= hotbar_slots.order(false).take(j - hotbar_slots.start),
            decreases hotbar_slots.end + 1 - j,
        {
            scan_order.push(j);
            j = j + 1;
        }
        let ghost first = scan_order@;
        proof {
            assert(first =~= hotbar_slots.order(false));
        }
        let main_slots = to_range(player_slots.start, hotbar_slots.start - 1);
        let mut j = player_slots.start;
        while j < hotbar_slots.start
            invariant
                player_slots == kind.spec_player_slots(),
                hotbar_slots == kind.spec_hotbar_slots(),
                main_slots == range(player_slots.start, (hotbar_slots.start - 1) as usize),
                player_slots.start <= j <= hotbar_slots.start,
                first == hotbar_slots.order(false),
                scan_order@ =~= first + main_slots.order(false).take(j - player_slots.start),
            decreases hotbar_slots.start - j,
        {
            scan_order.push(j);
            j = j + 1;
        }
        proof {
            assert(scan_order@ =~= order);
        }
        let n = scan_order.len();
        let mut stack = stack;
        let ghost st0 = stack;
        proof {
            assert(order.skip(0) =~= order);
        }
        let mut k: usize = 0;
        while k < n && stack.is_present()
            invariant
                self.spec_kind() == kind,
                self.valid(),
                stack.valid(),
                self@.len() == s0.len(),
                scan_order@ == order,
                n == order.len(),
                k <= n,
                forall|x: int| 0 <= x < n ==> #[trigger] order[x] < s0.len(),
                spec_merge_pass(kind, s0, st0, order).0 == spec_merge_pass(kind, self@, stack, order.skip(k as int)).0,
                spec_merge_pass(kind, s0, st0, order).1 == spec_merge_pass(kind, self@, stack, order.skip(k as int)).1,
            decreases n - k,
        {
            let t = scan_order[k];
            proof {
                assert(order.skip(k as int)[0] == t);
                assert(order.skip(k as int).drop_first() =~= order.skip(k + 1));
            }
            self.move_item_to_slot_if_stackable(&mut stack, t);
            k = k + 1;
        }
        proof {
            if k == n {
                assert(order.skip(k as int).len() == 0);
            }
        }
        let ghost s1 = self@;
        let ghost st1 = stack;
        proof {
            assert(order.skip(0) =~= order);
        }
        let mut k: usize = 0;
        while k < n && stack.is_present()
            invariant
                self.spec_kind() == kind,
                self.valid(),
                stack.valid(),
                self@.len() == s0.len(),
                scan_order@ == order,
                n == order.len(),
                k <= n,
                forall|x: int| 0 <= x < n ==> #[trigger] order[x] < s0.len(),
                spec_fill_pass(kind, s1, st1, order).0 == spec_fill_pass(kind, self@, stack, order.skip(k as int)).0,
            decreases n - k,
        {
            let t = scan_order[k];
            proof {
                assert(order.skip(k as int)[0] == t);
                assert(order.skip(k as int).drop_first() =~= order.skip(k + 1));
            }
            self.move_item_to_slot_if_empty(&mut stack, t);
            k = k + 1;
        }
        proof {
            if k == n {
                assert(order.skip(k as int).len() == 0);
            }
        }
    }

    /// Take one item from the grid cell `grid_slot_index` as part of taking a
    /// craft, leaving the ingredient's crafting remainder behind.
    fn take_from_grid_cell(&mut self, grid_slot_index: usize)
        requires
            old(self).valid(),
            grid_slot_index < old(self)@.len(),
        ensures
            final(self).spec_kind() == old(self).spec_kind(),
            final(self).valid(),
            final(self)@.len() == old(self)@.len(),
            final(self)@ == spec_take_from_grid_cell(old(self).spec_kind(), old(self)@, grid_slot_index as int),
    {
        let grid_item = match *self.slot(grid_slot_index).unwrap() {
            ItemStack::Present(d) => d,
            ItemStack::Empty => return,
        };
        proof {
            assert(self@[grid_slot_index as int].valid());
        }
        let remainder_kind = grid_item.kind.crafting_remainder();
        let mut grid_slot = ItemStack::Present(grid_item);
        grid_slot.split(1);
        self.set_slot(grid_slot_index, grid_slot);
        let remainder_kind = match remainder_kind {
            Some(k) => k,
            None => return,
        };
        // the remainder stays in its grid cell when the cell emptied, merges
        // into a leftover matching stack, and otherwise moves to the player
        // inventory
        let mut remainder = ItemStackData::new(remainder_kind, 1);
        match grid_slot {
            ItemStack::Empty => self.set_slot(grid_slot_index, ItemStack::Present(remainder)),
            ItemStack::Present(leftover) => {
                if leftover.is_same_item_and_components(&remainder) {
                    remainder.count = remainder.count + leftover.count;
                    self.set_slot(grid_slot_index, ItemStack::Present(remainder));
                } else {
                    self.add_to_player_inventory(ItemStack::Present(remainder));
                }
            },
        }
    }

    /// Taking a craft from a crafting result slot consumes one item from
    /// every occupied grid cell and leaves that ingredient's crafting
    /// remainder behind, using the items' default remainders.
    ///
    /// No-op for every other slot, including the other result slots: their
    /// take effects are not simulated.
    pub fn crafting_result_on_take(&mut self, result_slot_index: usize)
        requires
            old(self).valid(),
        ensures
            final(self).spec_kind() == old(self).spec_kind(),
            final(self).valid(),
            final(self)@.len() == old(self)@.len(),
            final(self)@ == spec_crafting_result_on_take(old(self).spec_kind(), old(self)@, result_slot_index as int),
    {
        let ghost kind = self.spec_kind();
        let ghost s0 = self@;
        proof {
            self.lemma_len();
            kind.lemma_location_kind(result_slot_index as int);
        }
        let grid = match self.location_for_slot(result_slot_index) {
            Some(MenuLocation::Player(PlayerMenuLocation::CraftResult)) => crate::menu::Player::craft_slots(),
            Some(MenuLocation::Crafting(CraftingMenuLocation::Result)) => to_range(
                crate::menu::CRAFTING_GRID_SLOTS_START,
                crate::menu::CRAFTING_GRID_SLOTS_END,
            ),
            _ => return,
        };
        let ghost order = grid.order(false);
        proof {
            assert(order.skip(0) =~= order);
        }
        let mut g = grid.start;
        while g <= grid.end
            invariant
                self.spec_kind() == kind,
                self.valid(),
                self@.len() == s0.len(),
                grid.start <= g <= grid.end + 1,
                grid.end < s0.len(),
                s0.len() < 100,
                order == grid.order(false),
                spec_crafting_result_on_take(kind, s0, result_slot_index as int) == spec_take_from_grid(kind, self@, order.skip(g - grid.start)),
            decreases grid.end + 1 - g,
        {
            proof {
                assert(order.skip(g - grid.start)[0] == g);
                assert(order.skip(g - grid.start).drop_first() =~= order.skip(g + 1 - grid.start));
            }
            self.take_from_grid_cell(g);
            g = g + 1;
        }
        proof {
            assert(order.skip(g - grid.start).len() == 0);
        }
    }

    /// Carry out a shift-click plan for slot `slot_index`.
    fn apply_quick_move(&mut self, slot_index: usize, plan: QuickMovePlan)
        requires
            old(self).valid(),
            slot_index < old(self)@.len(),
            plan_fits(old(self).spec_kind(), slot_index as int, plan),
        ensures
            final(self).spec_kind() == old(self).spec_kind(),
            final(self).valid(),
            final(self)@.len() == old(self)@.len(),
            final(self)@ == spec_apply_quick_move(old(self).spec_kind(), old(self)@, slot_index as int, plan),
    {
        proof {
            self.lemma_len();
        }
        match plan {
            QuickMovePlan::Stay => {},
            QuickMovePlan::Move { targets, reverse } => {
                self.try_move_item_to_slots(slot_index, targets, reverse);
            },
            QuickMovePlan::MoveAndTake { targets } => {
                if self.try_move_item_to_slots(slot_index, targets, true) {
                    self.crafting_result_on_take(slot_index);
                }
            },
            QuickMovePlan::MoveOrToggle { targets } => {
                self.try_move_item_to_slots_or_toggle_hotbar(slot_index, targets);
            },
            QuickMovePlan::Toggle => {
                self.toggle_between_inventory_and_hotbar(slot_index);
            },
            QuickMovePlan::EnchantOne => {
                let ghost s0 = self@;
                let source = *self.slot(slot_index).unwrap();
                proof {
                    assert(s0[slot_index as int].valid());
                }
                if let ItemStack::Empty = source {
                    return;
                }
                let mut source = source;
                let single = source.split(1);
                self.set_slot(slot_index, source);
                self.set_slot(crate::menu::ENCHANTMENT_ITEM_SLOT, single);
                proof {
                    assert forall|j: int| 0 <= j < self@.len() implies #[trigger] self@[j].valid() by {
                        if j != 0 && j != slot_index {
                            assert(s0[j].valid());
                        }
                    }
                }
            },
        }
    }

    /// Shift-click a slot in this menu. This doesn't send any packets, it
    /// just changes this menu.
    ///
    /// The target ranges and directions follow each menu's own rules; moving
    /// out of a container into the player's inventory always walks the slots
    /// in reverse, which is what makes shift-clicked items land in the hotbar
    /// first. Moves that depend on data we don't have (smelting recipes,
    /// smithing templates, ...) are skipped instead of guessed.
    ///
    /// Returns a copy of the original stack if the call moved anything (the
    /// caller loops on it for move-all semantics) and [`ItemStack::Empty`]
    /// otherwise.
    pub fn quick_move_stack(&mut self, slot_index: usize) -> (r: ItemStack)
        requires
            old(self).valid(),
        ensures
            final(self).spec_kind() == old(self).spec_kind(),
            final(self).valid(),
            final(self)@.len() == old(self)@.len(),
            ({
                let kind = old(self).spec_kind();
                let s = old(self)@;
                if slot_index >= s.len() || s[slot_index as int].spec_is_empty() {
                    &&& final(self)@ == s
                    &&& r == ItemStack::Empty
                } else {
                    &&& final(self)@ == spec_apply_quick_move(
                        kind,
                        s,
                        slot_index as int,
                        spec_quick_move_plan(kind, s, slot_index as int, present_data(s[slot_index as int])),
                    )
                    &&& r == if final(self)@[slot_index as int].spec_count() == s[slot_index as int].spec_count() {
                        ItemStack::Empty
                    } else {
                        s[slot_index as int]
                    }
                }
            }),
    {
        let original = match self.slot(slot_index) {
            Some(s) => *s,
            None => return ItemStack::Empty,
        };
        if original.is_empty() {
            return ItemStack::Empty;
        }
        let data = match original {
            ItemStack::Present(d) => d,
            ItemStack::Empty => return ItemStack::Empty,
        };
        let plan = self.quick_move_plan(slot_index, &data);
        self.apply_quick_move(slot_index, plan);
        if self.slot(slot_index).unwrap().count() == original.count() {
            ItemStack::Empty
        } else {
            original
        }
    }
}

} // verus!
