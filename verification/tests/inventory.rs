use azalea_inventory_logic::item::{
    EquipmentSlot, ItemKind, ItemStack, BLAZE_POWDER, BUCKET, BUNDLE, CARVED_PUMPKIN,
    DIAMOND_BOOTS, DIAMOND_HELMET, DIRT, GLASS_BOTTLE, IRON_HELMET, OAK_PLANKS, STONE,
    WATER_BUCKET,
};
use azalea_inventory_logic::menu::{
    Menu, MenuKind, Player, SlotList, BREWING_STAND_BOTTLES_SLOTS_START, BREWING_STAND_FUEL_SLOT,
    BREWING_STAND_INGREDIENT_SLOT, GENERIC9X3_CONTENTS_SLOTS_END, GENERIC9X3_CONTENTS_SLOTS_START,
    SHULKER_BOX_CONTENTS_SLOTS_START,
};

fn kind(id: u32, max: i32, equip: Option<EquipmentSlot>) -> ItemKind {
    ItemKind::new(id, Some(max), equip)
}
fn dirt_kind() -> ItemKind {
    kind(DIRT, 64, None)
}

fn generic9x3() -> Menu {
    Menu::Generic9x3 {
        contents: Default::default(),
        player: Default::default(),
    }
}

/// Moving out of a container walks the player slots in reverse, so with
/// nothing to merge into, the stack lands in the last hotbar slot.
#[test]
fn quick_move_out_of_a_container_fills_the_hotbar_first() {
    let mut menu = generic9x3();
    let dirt = ItemStack::new(dirt_kind(), 20);
    menu.set_slot(3, dirt);

    let moved = menu.quick_move_stack(3);
    assert!(moved.is_present());
    assert_eq!(menu.slot(3).unwrap(), &ItemStack::Empty);

    let last_player_slot = menu.player_slots_range().end;
    for (i, slot) in menu.slots().iter().enumerate() {
        if i == last_player_slot {
            assert_eq!(slot, &dirt);
        } else {
            assert_eq!(slot, &ItemStack::Empty, "slot {i} shouldn't be touched");
        }
    }
}

/// Merging tops the target stack up to its limit and leaves the remainder
/// to continue down the line.
#[test]
fn quick_move_merges_with_vanilla_arithmetic() {
    let dirt = |count| ItemStack::new(dirt_kind(), count);

    // simple merge: 30 in the inventory + 20 from the chest = 50
    let mut menu = generic9x3();
    menu.set_slot(3, dirt(20));
    menu.set_slot(40, dirt(30));
    menu.quick_move_stack(3);
    assert_eq!(menu.slot(3).unwrap(), &ItemStack::Empty);
    assert_eq!(menu.slot(40).unwrap(), &dirt(50));

    // overflow: the target caps at 64 and the remainder goes to the last
    // empty slot (the reverse scan again)
    let mut menu = generic9x3();
    menu.set_slot(3, dirt(20));
    menu.set_slot(40, dirt(60));
    menu.quick_move_stack(3);
    assert_eq!(menu.slot(3).unwrap(), &ItemStack::Empty);
    assert_eq!(menu.slot(40).unwrap(), &dirt(64));
    assert_eq!(menu.slot(menu.player_slots_range().end).unwrap(), &dirt(16));
}

#[test]
fn quick_move_honors_stack_max_size_component() {
    let dirt = |count| ItemStack::new(dirt_kind(), count).with_max_stack_size(16);
    let mut menu = generic9x3();
    menu.set_slot(3, dirt(10));
    menu.set_slot(40, dirt(12));

    menu.quick_move_stack(3);

    assert_eq!(menu.slot(3).unwrap(), &ItemStack::Empty);
    assert_eq!(menu.slot(40).unwrap(), &dirt(16));
    assert_eq!(menu.slot(menu.player_slots_range().end).unwrap(), &dirt(6));
}

#[test]
fn quick_move_allows_component_stack_sizes_above_64() {
    let dirt = |count| ItemStack::new(dirt_kind(), count).with_max_stack_size(99);
    let mut menu = generic9x3();
    menu.set_slot(3, dirt(35));
    menu.set_slot(40, dirt(64));

    menu.quick_move_stack(3);

    assert_eq!(menu.slot(3).unwrap(), &ItemStack::Empty);
    assert_eq!(menu.slot(40).unwrap(), &dirt(99));
}

#[test]
fn quick_move_splits_stacked_bottles_into_brewing_slots() {
    let glass_bottle = kind(GLASS_BOTTLE, 64, None);
    let mut menu = Menu::BrewingStand {
        bottles: Default::default(),
        ingredient: ItemStack::Empty,
        fuel: ItemStack::Empty,
        player: Default::default(),
    };
    let source = menu.player_slots_range().start;
    menu.set_slot(source, ItemStack::new(glass_bottle, 3));

    menu.quick_move_stack(source);

    assert_eq!(
        menu.slot(BREWING_STAND_BOTTLES_SLOTS_START).unwrap(),
        &ItemStack::new(glass_bottle, 1)
    );
    assert_eq!(menu.slot(source).unwrap(), &ItemStack::new(glass_bottle, 2));
}

#[test]
fn quick_move_does_not_fall_back_when_brewing_fuel_is_full() {
    let blaze_powder = kind(BLAZE_POWDER, 64, None);
    let mut menu = Menu::BrewingStand {
        bottles: Default::default(),
        ingredient: ItemStack::Empty,
        fuel: ItemStack::new(blaze_powder, 60),
        player: Default::default(),
    };
    let source = menu.player_slots_range().start;
    menu.set_slot(source, ItemStack::new(blaze_powder, 10));

    menu.quick_move_stack(source);
    assert!(menu.quick_move_stack(source).is_empty());

    assert_eq!(
        menu.slot(BREWING_STAND_FUEL_SLOT).unwrap(),
        &ItemStack::new(blaze_powder, 64)
    );
    assert_eq!(menu.slot(source).unwrap(), &ItemStack::new(blaze_powder, 6));
    assert_eq!(
        menu.slot(BREWING_STAND_INGREDIENT_SLOT).unwrap(),
        &ItemStack::Empty
    );
}

#[test]
fn bundles_can_quick_move_into_shulker_boxes() {
    let bundle = kind(BUNDLE, 1, None);
    let mut menu = Menu::ShulkerBox {
        contents: Default::default(),
        player: Default::default(),
    };
    let source = menu.player_slots_range().start;
    menu.set_slot(source, ItemStack::new(bundle, 1));

    menu.quick_move_stack(source);

    assert_eq!(menu.slot(source).unwrap(), &ItemStack::Empty);
    assert_eq!(
        menu.slot(SHULKER_BOX_CONTENTS_SLOTS_START).unwrap(),
        &ItemStack::new(bundle, 1)
    );
}

/// There is no inventory/hotbar fallback in plain containers: when the chest
/// is full the shift-click does nothing at all.
#[test]
fn quick_move_into_a_full_container_moves_nothing() {
    let mut menu = generic9x3();
    let stone = ItemStack::new(kind(STONE, 64, None), 64);
    for i in GENERIC9X3_CONTENTS_SLOTS_START..=GENERIC9X3_CONTENTS_SLOTS_END {
        menu.set_slot(i, stone);
    }
    let dirt = ItemStack::new(dirt_kind(), 20);
    let source = menu.player_slots_range().start;
    menu.set_slot(source, dirt);

    let moved = menu.quick_move_stack(source);
    assert!(moved.is_empty());
    assert_eq!(menu.slot(source).unwrap(), &dirt);
}

/// Gear shift-clicked in the player's own inventory auto-equips into its
/// empty equipment slot (the `equippable` component decides which).
#[test]
fn quick_move_in_player_menu_auto_equips_armor() {
    let mut menu = Menu::Player(Player::default());
    let helmet = ItemStack::new(kind(DIAMOND_HELMET, 1, Some(EquipmentSlot::Head)), 1);
    let boots = ItemStack::new(kind(DIAMOND_BOOTS, 1, Some(EquipmentSlot::Feet)), 1);
    menu.set_slot(10, helmet);
    menu.set_slot(11, boots);

    menu.quick_move_stack(10);
    menu.quick_move_stack(11);
    assert_eq!(menu.slot(5).unwrap(), &helmet, "helmet slot");
    assert_eq!(menu.slot(8).unwrap(), &boots, "boots slot");

    let pumpkin_kind = kind(CARVED_PUMPKIN, 64, Some(EquipmentSlot::Head));
    let pumpkin = ItemStack::new(pumpkin_kind, 3);
    menu.set_slot(12, pumpkin);
    menu.set_slot(5, ItemStack::Empty);
    menu.quick_move_stack(12);
    assert_eq!(
        menu.slot(5).unwrap(),
        &ItemStack::new(pumpkin_kind, 1),
        "armor slots only accept one stackable equippable item"
    );
    assert_eq!(menu.slot(12).unwrap(), &ItemStack::new(pumpkin_kind, 2));

    // with the helmet slot occupied, a second helmet toggles to the hotbar
    // instead
    let second = ItemStack::new(kind(IRON_HELMET, 1, Some(EquipmentSlot::Head)), 1);
    menu.set_slot(10, second);
    menu.quick_move_stack(10);
    assert_eq!(menu.slot(Player::hotbar_slots().start).unwrap(), &second);
}

#[test]
fn menus_have_the_protocol_layout() {
    assert_eq!(Menu::from_kind(MenuKind::Player).len(), 46);
    assert_eq!(Menu::from_kind(MenuKind::Generic9x3).len(), 63);
    assert_eq!(Menu::from_kind(MenuKind::Crafting).len(), 46);
    let list = SlotList::new([ItemStack::Empty; 4]);
    assert_eq!(list.items().len(), 4);
}

fn total(menu: &Menu, id: u32) -> i32 {
    menu.slots()
        .iter()
        .filter(|s| s.is_present() && s.kind_id() == id)
        .map(|s| s.count())
        .sum()
}

/// Shift-clicks move items without creating or destroying any.
#[test]
fn shift_clicks_conserve_items() {
    let mut menu = generic9x3();
    menu.set_slot(0, ItemStack::new(dirt_kind(), 50));
    menu.set_slot(5, ItemStack::new(kind(STONE, 64, None), 64));
    menu.set_slot(30, ItemStack::new(dirt_kind(), 40));
    menu.set_slot(62, ItemStack::new(dirt_kind(), 63));
    for slot in [0, 5, 30, 62, 1] {
        let (dirt, stone) = (total(&menu, DIRT), total(&menu, STONE));
        menu.quick_move_stack(slot);
        assert_eq!(total(&menu, DIRT), dirt);
        assert_eq!(total(&menu, STONE), stone);
    }
}

/// A shift-click never overfills a slot, and touches only its source and
/// targets.
#[test]
fn shift_clicks_respect_limits_and_touch_only_their_targets() {
    let sixteen = |count| ItemStack::new(kind(OAK_PLANKS, 16, None), count);
    let mut menu = generic9x3();
    menu.set_slot(2, sixteen(16));
    menu.set_slot(60, sixteen(10));
    menu.set_slot(7, ItemStack::new(dirt_kind(), 1));
    menu.quick_move_stack(2);
    // tops the hotbar stack up to 16, and puts the rest in the last empty
    // player slot
    assert_eq!(menu.slot(60).unwrap(), &sixteen(16));
    assert_eq!(menu.slot(62).unwrap(), &sixteen(10));
    assert_eq!(menu.slot(2).unwrap(), &ItemStack::Empty);
    // the other container slot is untouched
    assert_eq!(menu.slot(7).unwrap(), &ItemStack::new(dirt_kind(), 1));
    for slot in menu.slots() {
        assert!(slot.count() <= 16 || slot.kind_id() != OAK_PLANKS);
    }
}

/// Taking a craft consumes one item per grid cell and leaves buckets behind
/// for water buckets.
#[test]
fn taking_a_craft_consumes_the_grid_and_leaves_remainders() {
    let mut menu = Menu::Crafting {
        result: ItemStack::Empty,
        grid: Default::default(),
        player: Default::default(),
    };
    menu.set_slot(1, ItemStack::new(kind(WATER_BUCKET, 1, None), 1));
    menu.set_slot(2, ItemStack::new(dirt_kind(), 3));
    menu.crafting_result_on_take(0);
    assert_eq!(menu.slot(1).unwrap().kind_id(), BUCKET);
    assert_eq!(menu.slot(1).unwrap().count(), 1);
    assert_eq!(menu.slot(2).unwrap(), &ItemStack::new(dirt_kind(), 2));

    // other slots are not result slots: nothing happens
    let before = menu.slots();
    menu.crafting_result_on_take(2);
    assert_eq!(menu.slots(), before);
}

/// Added stacks merge into matching stacks, then fill the hotbar before the
/// main rows.
#[test]
fn added_stacks_merge_then_fill_the_hotbar_first() {
    let mut menu = Menu::Player(Player::default());
    menu.set_slot(20, ItemStack::new(dirt_kind(), 60));
    menu.add_to_player_inventory(ItemStack::new(dirt_kind(), 10));
    assert_eq!(menu.slot(20).unwrap(), &ItemStack::new(dirt_kind(), 64));
    assert_eq!(menu.slot(36).unwrap(), &ItemStack::new(dirt_kind(), 6));
}

/// Moving out of a crafting grid walks the player slots in reverse too, so
/// the stack lands in the last hotbar slot.
#[test]
fn moving_out_of_a_crafting_grid_fills_the_hotbar_first() {
    let mut menu = Menu::Crafting {
        result: ItemStack::Empty,
        grid: Default::default(),
        player: Default::default(),
    };
    let dirt = ItemStack::new(dirt_kind(), 20);
    menu.set_slot(1, dirt);
    menu.quick_move_stack(1);
    assert_eq!(menu.slot(1).unwrap(), &ItemStack::Empty);
    assert_eq!(menu.slot(menu.player_slots_range().end).unwrap(), &dirt);
    assert_eq!(menu.slot(10).unwrap(), &ItemStack::Empty);
}

/// What finds no home in a full inventory is discarded; nothing else
/// changes.
#[test]
fn adding_to_a_full_inventory_discards_the_stack() {
    let mut menu = Menu::Player(Player::default());
    for i in 9..=44 {
        menu.set_slot(i, ItemStack::new(dirt_kind(), 64));
    }
    let before = menu.slots();
    menu.add_to_player_inventory(ItemStack::new(kind(STONE, 64, None), 10));
    assert_eq!(menu.slots(), before);
    assert_eq!(total(&menu, STONE), 0);
}
