use azalea_inventory_logic::click::{ClickOperation, PickupAllClick, PickupClick};
use azalea_inventory_logic::codec::RecipeDisplayId;
use azalea_inventory_logic::crafting::{
    acquire_craft_guard, can_fit, craft_finish, craft_snapshot, craft_start, craft_step,
    destination_slot,
    is_crafting_table_menu, place_recipe, recipe_for, recipes_for, release_craft_guard,
    CraftError, CraftOperationState, CraftPhase, CraftSnapshot, CraftState, CraftStep,
    InventoryState,
};
use azalea_inventory_logic::item::{
    ItemKind, ItemStack, CRAFTING_TABLE, DIAMOND, DIRT, OAK_LOG, OAK_PLANKS, STICK,
};
use azalea_inventory_logic::menu::{Menu, Player};
use azalea_inventory_logic::recipe::{
    FurnaceRecipeDisplay, ItemSlotDisplay, RecipeBookCategory, RecipeDisplayData,
    RecipeDisplayEntry, ShapedCraftingRecipeDisplay, ShapelessCraftingRecipeDisplay,
    SlotDisplayData,
};
use azalea_inventory_logic::recipe_book::{
    GenerationCounter, GhostRecipe, Recipe, RecipeBook,
};

fn kind(id: u32) -> ItemKind {
    ItemKind::new(id, Some(64), None)
}

fn planks(count: i32) -> ItemStack {
    ItemStack::new(kind(OAK_PLANKS), count)
}

fn item(id: u32) -> SlotDisplayData {
    SlotDisplayData::Item(ItemSlotDisplay { item: kind(id) })
}

fn planks_entry(id: u32) -> RecipeDisplayEntry {
    RecipeDisplayEntry {
        id: RecipeDisplayId(id),
        display: RecipeDisplayData::Shapeless(ShapelessCraftingRecipeDisplay {
            ingredients: vec![item(OAK_LOG)],
            result: item(OAK_PLANKS),
            crafting_station: item(CRAFTING_TABLE),
        }),
        group: None,
        category: RecipeBookCategory::CraftingBuildingBlocks,
        crafting_requirements: None,
    }
}

fn table_entry(id: u32) -> RecipeDisplayEntry {
    RecipeDisplayEntry {
        id: RecipeDisplayId(id),
        display: RecipeDisplayData::Shaped(ShapedCraftingRecipeDisplay {
            width: 3,
            height: 1,
            ingredients: (0..3).map(|_| item(OAK_PLANKS)).collect(),
            result: item(STICK),
            crafting_station: item(CRAFTING_TABLE),
        }),
        group: None,
        category: RecipeBookCategory::CraftingMisc,
        crafting_requirements: None,
    }
}

fn book_with(entries: Vec<RecipeDisplayEntry>) -> RecipeBook {
    let mut counter = GenerationCounter::new();
    let mut book = RecipeBook::from_counter(&mut counter);
    book.add(entries.into_iter().map(|e| (e, 0)).collect(), true, &mut counter);
    book
}

fn player_state() -> InventoryState {
    InventoryState {
        id: 0,
        menu: Menu::Player(Player::default()),
        carried: ItemStack::Empty,
        menu_generation: 7,
        initialized: true,
        full_content_revision: 1,
    }
}

#[test]
fn result_capacity_can_span_multiple_stacks() {
    let slots = [planks(62), planks(62)];
    assert!(can_fit(&slots, &planks(4)));
}

#[test]
fn result_capacity_honors_stack_max_size_component() {
    let result = planks(4).with_max_stack_size(2);
    assert!(!can_fit(&[ItemStack::Empty], &result));
    assert!(can_fit(&[ItemStack::Empty, ItemStack::Empty], &result));
}

#[test]
fn result_capacity_ignores_other_items_and_empty_results() {
    let dirt = ItemStack::new(kind(DIRT), 1);
    assert!(!can_fit(&[dirt, dirt], &planks(1)));
    assert!(!can_fit(&[ItemStack::Empty], &ItemStack::Empty));
    // 64 - 60 + 64 - 60 = 8 exactly
    assert!(can_fit(&[planks(60), planks(60)], &planks(8)));
    assert!(!can_fit(&[planks(60), planks(60)], &planks(9)));
}

#[test]
fn destination_prefers_a_stack_to_add_to_then_an_empty_slot() {
    let mut menu = Menu::Player(Player::default());
    menu.set_slot(9, ItemStack::new(kind(DIRT), 3));
    menu.set_slot(20, planks(64));
    menu.set_slot(30, planks(10));
    // the first partial stack of the same item
    assert_eq!(destination_slot(&menu, &planks(5)), Some(30));
    // no stack of diamonds: the first empty player slot
    assert_eq!(
        destination_slot(&menu, &ItemStack::new(kind(DIAMOND), 1)),
        Some(10)
    );
    // nothing carried: nowhere
    assert_eq!(destination_slot(&menu, &ItemStack::Empty), None);
    // never outside the player slots, even when the crafting grid is empty
    assert!(destination_slot(&menu, &planks(1)).unwrap() >= 9);
}

#[test]
fn destination_is_none_when_the_inventory_is_full() {
    let mut menu = Menu::Player(Player::default());
    for i in 9..=44 {
        menu.set_slot(i, ItemStack::new(kind(DIRT), 64));
    }
    assert_eq!(destination_slot(&menu, &planks(1)), None);
}

#[test]
fn crafting_table_menus_are_recognised() {
    let table = Menu::Crafting {
        result: ItemStack::Empty,
        grid: Default::default(),
        player: Default::default(),
    };
    assert!(is_crafting_table_menu(Some(&table)));
    assert!(!is_crafting_table_menu(Some(&Menu::Player(Player::default()))));
    assert!(!is_crafting_table_menu(None));
}

#[test]
fn recipe_for_finds_the_first_recipe_that_makes_the_item() {
    let book = book_with(vec![table_entry(1), planks_entry(2), planks_entry(3)]);
    assert_eq!(recipe_for(&book, kind(OAK_PLANKS)).unwrap().id(), RecipeDisplayId(2));
    assert_eq!(recipes_for(&book, kind(OAK_PLANKS)).len(), 2);
    assert!(recipe_for(&book, kind(DIAMOND)).is_none());
}

fn snapshot_error(state: &InventoryState, book: &RecipeBook, recipe: &Recipe) -> CraftError {
    let expected = recipe.result().unwrap();
    match craft_snapshot(state, book, 0, 7, recipe, &expected) {
        Err(e) => e,
        Ok(_) => panic!("expected an error"),
    }
}

#[test]
fn snapshots_check_container_recipe_and_menu() {
    let book = book_with(vec![planks_entry(1), table_entry(2)]);
    let small = book.recipe(RecipeDisplayId(1)).unwrap();
    let large = book.recipe(RecipeDisplayId(2)).unwrap();

    let mut other = player_state();
    other.id = 3;
    assert!(matches!(snapshot_error(&other, &book, &small), CraftError::Interrupted));

    let mut moved = player_state();
    moved.menu_generation = 8;
    assert!(matches!(snapshot_error(&moved, &book, &small), CraftError::StaleContainer));

    let mut fresh = player_state();
    fresh.initialized = false;
    assert!(matches!(snapshot_error(&fresh, &book, &small), CraftError::StaleContainer));

    // the same recipe in a book of a later generation
    let mut counter = GenerationCounter::new();
    counter.take();
    counter.take();
    let mut newer = RecipeBook::from_counter(&mut counter);
    newer.add(vec![(planks_entry(1), 0)], false, &mut counter);
    assert!(matches!(
        snapshot_error(&player_state(), &newer, &small),
        CraftError::StaleRecipe
    ));

    assert!(matches!(
        snapshot_error(&player_state(), &book, &large),
        CraftError::CraftingTableRequired
    ));

    let mut chest = player_state();
    chest.menu = Menu::Generic9x3 {
        contents: Default::default(),
        player: Default::default(),
    };
    assert!(matches!(snapshot_error(&chest, &book, &small), CraftError::WrongMenu));

    let smelting = book_with(vec![RecipeDisplayEntry {
        id: RecipeDisplayId(4),
        display: RecipeDisplayData::Furnace(FurnaceRecipeDisplay {
            ingredient: item(OAK_LOG),
            fuel: SlotDisplayData::AnyFuel,
            result: item(STICK),
            crafting_station: item(CRAFTING_TABLE),
            duration: 200,
            experience_bits: 0,
        }),
        group: None,
        category: RecipeBookCategory::FurnaceMisc,
        crafting_requirements: None,
    }]);
    let furnace_recipe = smelting.recipe(RecipeDisplayId(4)).unwrap();
    let mut table = player_state();
    table.menu = Menu::Crafting {
        result: ItemStack::Empty,
        grid: Default::default(),
        player: Default::default(),
    };
    assert!(matches!(
        snapshot_error(&table, &smelting, &furnace_recipe),
        CraftError::UnsupportedRecipe
    ));
}

#[test]
fn snapshots_report_the_result_slot_cursor_and_room() {
    let book = book_with(vec![planks_entry(1)]);
    let recipe = book.recipe(RecipeDisplayId(1)).unwrap();
    let mut state = player_state();
    state.menu.set_slot(0, planks(4));
    state.menu.set_slot(12, planks(60));
    state.carried = planks(3);
    state.full_content_revision = 9;
    let snap = craft_snapshot(&state, &book, 0, 7, &recipe, &planks(4)).unwrap();
    assert_eq!(snap.result, planks(4));
    assert_eq!(snap.carried, planks(3));
    assert_eq!(snap.destination, Some(12));
    assert!(snap.can_fit_result);
    assert_eq!(snap.full_content_revision, 9);
    assert_eq!(snap.ghost_revision, 0);
    assert!(snap.ghost_recipe.is_none());
}

#[test]
fn place_recipe_uses_the_current_numeric_display_id() {
    let book = book_with(vec![planks_entry(300)]);
    let recipe = book.recipe(RecipeDisplayId(300)).unwrap();
    let request = place_recipe(&player_state(), &book, 0, 7, &recipe, false).unwrap();
    let packet = request.to_packet();
    assert_eq!(packet.container_id, 0);
    assert_eq!(packet.recipe, RecipeDisplayId(300));
    assert!(!packet.shift_down);
}

#[test]
fn place_recipe_refuses_a_recipe_without_a_result() {
    let mut entry = planks_entry(5);
    entry.display = RecipeDisplayData::Shapeless(ShapelessCraftingRecipeDisplay {
        ingredients: vec![item(OAK_LOG)],
        result: SlotDisplayData::Empty,
        crafting_station: item(CRAFTING_TABLE),
    });
    let book = book_with(vec![entry]);
    let recipe = book.recipe(RecipeDisplayId(5)).unwrap();
    assert!(matches!(
        place_recipe(&player_state(), &book, 0, 7, &recipe, false),
        Err(CraftError::UnsupportedRecipe)
    ));
}

#[test]
fn only_one_craft_at_a_time() {
    let mut guard = CraftOperationState::new();
    assert!(acquire_craft_guard(&mut guard).is_ok());
    assert!(matches!(acquire_craft_guard(&mut guard), Err(CraftError::Busy)));
    release_craft_guard(&mut guard);
    assert!(!guard.is_active());
    assert!(acquire_craft_guard(&mut guard).is_ok());
}

fn snap(result: ItemStack, carried: ItemStack, revision: u64) -> CraftSnapshot {
    CraftSnapshot {
        result,
        carried,
        destination: Some(36),
        can_fit_result: true,
        full_content_revision: revision,
        ghost_revision: 0,
        ghost_recipe: None,
    }
}

fn begin(timeout: Option<usize>) -> CraftState {
    let book = book_with(vec![planks_entry(1)]);
    let recipe = book.recipe(RecipeDisplayId(1)).unwrap();
    let mut op = CraftOperationState::new();
    let (state, click) = craft_start(
        &mut op,
        recipe,
        0,
        timeout,
        Ok(snap(ItemStack::Empty, ItemStack::Empty, 1)),
    )
    .unwrap();
    assert!(op.is_active());
    assert!(matches!(
        click,
        ClickOperation::PickupAll(PickupAllClick {
            slot: 0,
            reversed: false
        })
    ));
    assert_eq!(state.phase, CraftPhase::Placing);
    state
}

fn continued(step: CraftStep) -> (CraftState, Option<ClickOperation>) {
    match step {
        CraftStep::Continue(state, click) => (state, click),
        CraftStep::Done(r) => panic!("the craft ended: {r:?}"),
    }
}

fn failed(step: CraftStep) -> CraftError {
    match step {
        CraftStep::Done(Err(e)) => e,
        other => panic!("expected a failure, got {other:?}"),
    }
}

#[test]
fn a_craft_places_takes_and_deposits_the_result() {
    let one = planks(1);
    let state = begin(Some(100));

    // no news yet: wait
    let (state, click) = continued(craft_step(
        state,
        Some(Ok(snap(ItemStack::Empty, ItemStack::Empty, 1))),
    ));
    assert!(click.is_none());
    assert_eq!(state.elapsed_ticks, 1);

    // the grid was filled: take the result
    let (state, click) = continued(craft_step(state, Some(Ok(snap(one, ItemStack::Empty, 2)))));
    assert_eq!(state.phase, CraftPhase::Taking);
    assert!(matches!(
        click,
        Some(ClickOperation::Pickup(PickupClick::Left { slot: Some(0) }))
    ));

    // the result is on the cursor: put it into its destination
    let (state, click) = continued(craft_step(state, Some(Ok(snap(ItemStack::Empty, one, 3)))));
    assert_eq!(state.phase, CraftPhase::Depositing);
    assert!(matches!(
        click,
        Some(ClickOperation::Pickup(PickupClick::Left { slot: Some(36) }))
    ));

    // the cursor is empty: done
    match craft_step(state, Some(Ok(snap(ItemStack::Empty, ItemStack::Empty, 4)))) {
        CraftStep::Done(Ok(outcome)) => assert_eq!(outcome.result, one),
        other => panic!("expected success, got {other:?}"),
    }
}

#[test]
fn a_craft_refuses_an_occupied_cursor_or_a_present_result() {
    let book = book_with(vec![planks_entry(1)]);
    let recipe = book.recipe(RecipeDisplayId(1)).unwrap();
    let expected = recipe.result().unwrap();
    let mut op = CraftOperationState::new();
    let occupied = craft_start(
        &mut op,
        recipe.clone(),
        0,
        None,
        Ok(snap(ItemStack::Empty, planks(1), 1)),
    );
    assert!(matches!(occupied, Err(CraftError::CursorOccupied)));
    assert!(!op.is_active());
    let present = craft_start(&mut op, recipe, 0, None, Ok(snap(expected, ItemStack::Empty, 1)));
    assert!(matches!(present, Err(CraftError::PreexistingResult)));
    assert!(!op.is_active());
}

#[test]
fn a_craft_start_checks_busy_result_and_snapshot_in_order() {
    let book = book_with(vec![planks_entry(1)]);
    let recipe = book.recipe(RecipeDisplayId(1)).unwrap();

    // another craft is under way: it stays marked
    let mut op = CraftOperationState::new();
    acquire_craft_guard(&mut op).unwrap();
    let busy = craft_start(&mut op, recipe.clone(), 0, None, Err(CraftError::StaleRecipe));
    assert!(matches!(busy, Err(CraftError::Busy)));
    assert!(op.is_active());

    // a snapshot error comes before the cursor check, and clears the flag
    let mut op = CraftOperationState::new();
    let stale = craft_start(&mut op, recipe, 0, None, Err(CraftError::StaleRecipe));
    assert!(matches!(stale, Err(CraftError::StaleRecipe)));
    assert!(!op.is_active());

    // a recipe without a result is refused before the snapshot is looked at
    let mut entry = planks_entry(2);
    entry.display = RecipeDisplayData::Shapeless(ShapelessCraftingRecipeDisplay {
        ingredients: vec![item(OAK_LOG)],
        result: SlotDisplayData::Empty,
        crafting_station: item(CRAFTING_TABLE),
    });
    let book = book_with(vec![entry]);
    let recipe = book.recipe(RecipeDisplayId(2)).unwrap();
    let unsupported = craft_start(&mut op, recipe, 0, None, Err(CraftError::StaleRecipe));
    assert!(matches!(unsupported, Err(CraftError::UnsupportedRecipe)));
    assert!(!op.is_active());
}

#[test]
fn finishing_a_craft_clears_the_flag() {
    let mut op = CraftOperationState::new();
    acquire_craft_guard(&mut op).unwrap();
    let done = craft_finish(&mut op, Err(CraftError::Timeout));
    assert!(matches!(done, Err(CraftError::Timeout)));
    assert!(!op.is_active());
}

#[test]
fn a_craft_ends_at_its_timeout() {
    let state = begin(Some(2));
    let (state, _) = continued(craft_step(
        state,
        Some(Ok(snap(ItemStack::Empty, ItemStack::Empty, 1))),
    ));
    let e = failed(craft_step(
        state,
        Some(Ok(snap(ItemStack::Empty, ItemStack::Empty, 1))),
    ));
    assert!(matches!(e, CraftError::Timeout));
}

#[test]
fn a_craft_fails_on_rejection_missing_ingredients_or_interruption() {
    // the server sent contents without the result
    let e = failed(craft_step(
        begin(None),
        Some(Ok(snap(planks(2), ItemStack::Empty, 2))),
    ));
    assert!(matches!(e, CraftError::Rejected));

    // the server showed the recipe as a ghost recipe
    let mut ghost = snap(ItemStack::Empty, ItemStack::Empty, 1);
    ghost.ghost_revision = 1;
    ghost.ghost_recipe = Some(GhostRecipe {
        container_id: 0,
        recipe: planks_entry(1).display,
    });
    let e = failed(craft_step(begin(None), Some(Ok(ghost))));
    assert!(matches!(e, CraftError::MissingIngredients));

    // the ticks stopped
    let e = failed(craft_step(begin(None), None));
    assert!(matches!(e, CraftError::Interrupted));

    // the snapshot could not be taken
    let e = failed(craft_step(begin(None), Some(Err(CraftError::StaleRecipe))));
    assert!(matches!(e, CraftError::StaleRecipe));

    // the result does not fit the inventory
    let mut full = snap(planks(1), ItemStack::Empty, 2);
    full.can_fit_result = false;
    let e = failed(craft_step(begin(None), Some(Ok(full))));
    assert!(matches!(e, CraftError::InventoryFull));
}
