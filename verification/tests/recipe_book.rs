use std::collections::HashMap;

use azalea_inventory_logic::codec::{read_varint, write_varint, RecipeDisplayId};
use azalea_inventory_logic::item::{
    DataComponentPatch, ItemKind, ItemStack, ItemStackData, CRAFTING_TABLE, DIAMOND, OAK_LOG,
    OAK_PLANKS, STICK,
};
use azalea_inventory_logic::recipe::{
    decode_recipe_group, encode_recipe_group, entry_eq, recipe_display_eq, CompositeSlotDisplay,
    FurnaceRecipeDisplay, ItemSlotDisplay, ItemStackSlotDisplay, RecipeBookCategory,
    RecipeDisplayData, RecipeDisplayEntry, ShapedCraftingRecipeDisplay,
    ShapelessCraftingRecipeDisplay, SlotDisplayData, TagSlotDisplay,
};
use azalea_inventory_logic::recipe::{Ingredient, IngredientItems};
use azalea_inventory_logic::recipe_book::{
    GenerationCounter, GhostRecipe, RecipeBook, RecipeBookSettings, RecipePropertySet,
    SelectableRecipe, SingleInputEntry,
};

fn kind(id: u32) -> ItemKind {
    ItemKind::new(id, Some(64), None)
}

fn item(id: u32) -> SlotDisplayData {
    SlotDisplayData::Item(ItemSlotDisplay { item: kind(id) })
}

fn shapeless(result: SlotDisplayData) -> RecipeDisplayData {
    RecipeDisplayData::Shapeless(ShapelessCraftingRecipeDisplay {
        ingredients: vec![item(OAK_LOG)],
        result,
        crafting_station: item(CRAFTING_TABLE),
    })
}

fn recipe_entry(id: u32, result: u32) -> RecipeDisplayEntry {
    RecipeDisplayEntry {
        id: RecipeDisplayId(id),
        display: shapeless(item(result)),
        group: None,
        category: RecipeBookCategory::CraftingBuildingBlocks,
        crafting_requirements: None,
    }
}

fn furnace_entry(id: u32, experience: f32) -> RecipeDisplayEntry {
    RecipeDisplayEntry {
        id: RecipeDisplayId(id),
        display: RecipeDisplayData::Furnace(FurnaceRecipeDisplay {
            ingredient: item(OAK_LOG),
            fuel: SlotDisplayData::AnyFuel,
            result: item(DIAMOND),
            crafting_station: item(CRAFTING_TABLE),
            duration: 200,
            experience_bits: experience.to_bits(),
        }),
        group: None,
        category: RecipeBookCategory::FurnaceMisc,
        crafting_requirements: None,
    }
}

#[test]
fn session_generations_do_not_revalidate_old_recipes() {
    let mut counter = GenerationCounter::new();
    let first = RecipeBook::from_counter(&mut counter);
    let second = RecipeBook::from_counter(&mut counter);
    assert_ne!(first.generation(), second.generation());
}

#[test]
fn a_recipe_from_another_session_is_not_contained() {
    let mut counter = GenerationCounter::new();
    let mut first = RecipeBook::from_counter(&mut counter);
    let mut second = RecipeBook::from_counter(&mut counter);
    first.add(vec![(recipe_entry(300, OAK_PLANKS), 0)], true, &mut counter);
    second.add(vec![(recipe_entry(300, OAK_PLANKS), 0)], true, &mut counter);
    let recipe = first.recipe(RecipeDisplayId(300)).unwrap();
    assert!(first.contains(&recipe));
    assert!(!second.contains(&recipe));
}

#[test]
fn a_replaced_book_and_a_new_session_never_share_a_generation() {
    let mut counter = GenerationCounter::new();
    let mut first = RecipeBook::from_counter(&mut counter);
    first.add(vec![(recipe_entry(300, OAK_PLANKS), 0)], false, &mut counter);
    let old = first.recipe(RecipeDisplayId(300)).unwrap();
    first.add(vec![(recipe_entry(300, OAK_PLANKS), 0)], true, &mut counter);
    let mut second = RecipeBook::from_counter(&mut counter);
    second.add(vec![(recipe_entry(300, OAK_PLANKS), 0)], false, &mut counter);
    assert_ne!(first.generation(), second.generation());
    assert!(!first.contains(&old));
    assert!(!second.contains(&old));
}

#[test]
fn a_replace_never_keeps_the_old_generation() {
    // a book and a counter that would hand out the book's own generation
    let mut book = RecipeBook::new(1);
    let mut counter = GenerationCounter::new();
    book.add(vec![(recipe_entry(300, OAK_PLANKS), 0)], false, &mut counter);
    let old = book.recipe(RecipeDisplayId(300)).unwrap();
    book.add(vec![(recipe_entry(300, OAK_PLANKS), 0)], true, &mut counter);
    assert_ne!(book.generation(), 1);
    assert!(!book.contains(&old));
    book.replace_recipe_data(HashMap::new(), Vec::new(), &mut counter);
    book.add(vec![(recipe_entry(300, OAK_PLANKS), 0)], false, &mut counter);
    assert!(!book.contains(&old));
}

#[test]
fn recipe_book_packets_converge_and_stale_old_recipes() {
    let mut counter = GenerationCounter::new();
    let mut book = RecipeBook::from_counter(&mut counter);
    let entry = recipe_entry(300, OAK_PLANKS);
    book.add(vec![(recipe_entry(300, OAK_PLANKS), 2)], true, &mut counter);

    let old_recipe = book.recipe(RecipeDisplayId(300)).unwrap();
    assert_eq!(old_recipe.result_item(), Some(kind(OAK_PLANKS)));
    assert!(book.is_highlighted(RecipeDisplayId(300)));

    let settings = RecipeBookSettings {
        gui_open: true,
        filtering_craftable: true,
        ..Default::default()
    };
    book.set_settings(settings);
    book.set_ghost_recipe(GhostRecipe {
        container_id: 0,
        recipe: shapeless(item(OAK_PLANKS)),
    });
    assert_eq!(book.settings(), &settings);
    assert!(recipe_display_eq(
        &book.ghost_recipe().unwrap().recipe,
        &entry.display
    ));

    book.remove(&[RecipeDisplayId(300)]);
    assert!(!book.contains(&old_recipe));
    assert!(book.recipe(RecipeDisplayId(300)).is_none());
}

#[test]
fn adding_keeps_order_and_the_last_entry_per_id_wins() {
    let mut counter = GenerationCounter::new();
    let mut book = RecipeBook::from_counter(&mut counter);
    book.add(
        vec![
            (recipe_entry(1, OAK_PLANKS), 2),
            (recipe_entry(2, STICK), 0),
            (recipe_entry(1, DIAMOND), 0),
        ],
        false, &mut counter,
    );
    let recipes = book.recipes();
    assert_eq!(recipes.len(), 2);
    assert_eq!(recipes[0].id(), RecipeDisplayId(1));
    assert_eq!(recipes[0].result_item(), Some(kind(DIAMOND)));
    assert_eq!(recipes[1].id(), RecipeDisplayId(2));
    // the later entry for id 1 had no highlight flag
    assert!(!book.is_highlighted(RecipeDisplayId(1)));
    assert!(!book.is_highlighted(RecipeDisplayId(2)));
}

#[test]
fn removing_shifts_the_rest_down_in_order() {
    let mut counter = GenerationCounter::new();
    let mut book = RecipeBook::from_counter(&mut counter);
    book.add(
        vec![
            (recipe_entry(1, OAK_PLANKS), 2),
            (recipe_entry(2, STICK), 2),
            (recipe_entry(3, DIAMOND), 2),
        ],
        false, &mut counter,
    );
    book.remove(&[RecipeDisplayId(2), RecipeDisplayId(9)]);
    let ids: Vec<u32> = book.recipes().iter().map(|r| r.id().0).collect();
    assert_eq!(ids, vec![1, 3]);
    assert!(book.is_highlighted(RecipeDisplayId(1)));
    assert!(!book.is_highlighted(RecipeDisplayId(2)));
    assert!(book.is_highlighted(RecipeDisplayId(3)));
}

#[test]
fn replacing_starts_a_new_generation() {
    let mut counter = GenerationCounter::new();
    let mut book = RecipeBook::from_counter(&mut counter);
    book.add(vec![(recipe_entry(1, OAK_PLANKS), 2)], false, &mut counter);
    let old = book.recipe(RecipeDisplayId(1)).unwrap();
    let generation = book.generation();

    book.add(vec![(recipe_entry(1, OAK_PLANKS), 0)], true, &mut counter);
    assert_eq!(book.generation(), generation + 1);
    assert!(!book.contains(&old));
    assert!(!book.is_highlighted(RecipeDisplayId(1)));
    let new = book.recipe(RecipeDisplayId(1)).unwrap();
    assert!(book.contains(&new));

    book.replace_recipe_data(HashMap::new(), Vec::new(), &mut counter);
    assert_eq!(book.generation(), generation + 2);
    assert!(book.recipes().is_empty());
    assert!(!book.contains(&new));
}

#[test]
fn every_change_moves_the_revision() {
    let mut counter = GenerationCounter::new();
    let mut book = RecipeBook::from_counter(&mut counter);
    assert_eq!(book.revision(), 0);
    book.add(Vec::new(), false, &mut counter);
    assert_eq!(book.revision(), 1);
    book.remove(&[]);
    assert_eq!(book.revision(), 2);
    book.set_settings(RecipeBookSettings::default());
    assert_eq!(book.revision(), 3);
    assert_eq!(book.ghost_revision(), 0);
    book.set_ghost_recipe(GhostRecipe {
        container_id: 1,
        recipe: shapeless(item(STICK)),
    });
    assert_eq!(book.ghost_revision(), 1);
    assert_eq!(book.revision(), 4);
    book.replace_recipe_data(HashMap::new(), Vec::new(), &mut counter);
    assert_eq!(book.revision(), 5);
}

#[test]
fn recipes_for_filters_by_result_in_order() {
    let mut counter = GenerationCounter::new();
    let mut book = RecipeBook::from_counter(&mut counter);
    book.add(
        vec![
            (recipe_entry(1, OAK_PLANKS), 0),
            (recipe_entry(2, STICK), 0),
            (recipe_entry(3, OAK_PLANKS), 0),
        ],
        false, &mut counter,
    );
    let ids: Vec<u32> = book
        .recipes_for(kind(OAK_PLANKS))
        .iter()
        .map(|r| r.id().0)
        .collect();
    assert_eq!(ids, vec![1, 3]);
    assert!(book.recipes_for(kind(DIAMOND)).is_empty());
}

#[test]
fn result_comes_from_the_first_composite_entry_that_shows_a_stack() {
    let stack = ItemStack::new(kind(DIAMOND), 3);
    let composite = SlotDisplayData::Composite(CompositeSlotDisplay {
        contents: vec![
            SlotDisplayData::Tag(TagSlotDisplay {
                tag: "minecraft:planks".to_string(),
            }),
            SlotDisplayData::ItemStack(ItemStackSlotDisplay {
                stack: ItemStack::Empty,
            }),
            SlotDisplayData::ItemStack(ItemStackSlotDisplay { stack }),
            item(STICK),
        ],
    });
    let mut counter = GenerationCounter::new();
    let mut book = RecipeBook::from_counter(&mut counter);
    let mut entry = recipe_entry(5, OAK_PLANKS);
    entry.display = shapeless(composite);
    book.add(vec![(entry, 0)], false, &mut counter);
    let recipe = book.recipe(RecipeDisplayId(5)).unwrap();
    assert_eq!(recipe.result(), Some(stack));
    assert_eq!(recipe.result_item(), Some(kind(DIAMOND)));

    // an item display makes one of the item
    let plain = book_with(recipe_entry(6, STICK));
    assert_eq!(
        plain.recipe(RecipeDisplayId(6)).unwrap().result(),
        Some(ItemStack::Present(ItemStackData {
            kind: kind(STICK),
            count: 1,
            component_patch: DataComponentPatch::empty(),
        }))
    );

    // a display that shows no stack makes nothing
    let mut nothing = recipe_entry(7, STICK);
    nothing.display = shapeless(SlotDisplayData::AnyFuel);
    let book = book_with(nothing);
    assert_eq!(book.recipe(RecipeDisplayId(7)).unwrap().result(), None);
    assert_eq!(book.recipe(RecipeDisplayId(7)).unwrap().result_item(), None);
}

fn book_with(entry: RecipeDisplayEntry) -> RecipeBook {
    let mut counter = GenerationCounter::new();
    let mut book = RecipeBook::from_counter(&mut counter);
    book.add(vec![(entry, 0)], false, &mut counter);
    book
}

#[test]
fn crafting_grid_fit_depends_on_shape_or_ingredient_count() {
    let mut shaped = recipe_entry(1, STICK);
    shaped.display = RecipeDisplayData::Shaped(ShapedCraftingRecipeDisplay {
        width: 1,
        height: 2,
        ingredients: vec![item(OAK_PLANKS), item(OAK_PLANKS)],
        result: item(STICK),
        crafting_station: item(CRAFTING_TABLE),
    });
    let book = book_with(shaped);
    let recipe = book.recipe(RecipeDisplayId(1)).unwrap();
    assert!(recipe.fits_crafting_grid(2, 2));
    assert!(!recipe.fits_crafting_grid(1, 1));
    assert!(!recipe.fits_crafting_grid(2, 1));

    let mut many = recipe_entry(2, STICK);
    many.display = RecipeDisplayData::Shapeless(ShapelessCraftingRecipeDisplay {
        ingredients: (0..5).map(|_| item(OAK_LOG)).collect(),
        result: item(STICK),
        crafting_station: item(CRAFTING_TABLE),
    });
    let book = book_with(many);
    let recipe = book.recipe(RecipeDisplayId(2)).unwrap();
    assert!(!recipe.fits_crafting_grid(2, 2));
    assert!(recipe.fits_crafting_grid(3, 3));

    let book = book_with(furnace_entry(3, 0.1));
    assert!(!book.recipe(RecipeDisplayId(3)).unwrap().fits_crafting_grid(3, 3));
}

#[test]
fn furnace_experience_compares_as_a_number() {
    let a = furnace_entry(1, 0.0);
    let b = furnace_entry(1, -0.0);
    assert!(entry_eq(&a, &b));
    let c = furnace_entry(1, 0.35);
    assert!(!entry_eq(&a, &c));
    let nan = furnace_entry(1, f32::NAN);
    assert!(!entry_eq(&nan, &nan));

    // a recipe whose experience is NaN equals nothing, so it is never valid
    let book = book_with(furnace_entry(1, f32::NAN));
    let recipe = book.recipe(RecipeDisplayId(1)).unwrap();
    assert!(!book.contains(&recipe));
    let book = book_with(furnace_entry(1, 0.35));
    let recipe = book.recipe(RecipeDisplayId(1)).unwrap();
    assert!(book.contains(&recipe));
}

#[test]
fn recipe_group_uses_optional_varint_encoding() {
    for group in [None, Some(0), Some(127)] {
        let encoded = encode_recipe_group(group).unwrap();
        let mut bytes = Vec::new();
        write_varint(&mut bytes, encoded);
        let (read, end) = read_varint(&bytes, 0).unwrap();
        assert_eq!(end, bytes.len());
        assert_eq!(decode_recipe_group(read), group);
    }
    assert_eq!(encode_recipe_group(None), Some(0));
    assert_eq!(encode_recipe_group(Some(127)), Some(128));
}

#[test]
fn recipe_group_id_too_large_is_refused() {
    assert_eq!(encode_recipe_group(Some(u32::MAX)), None);
    assert_eq!(encode_recipe_group(Some(u32::MAX - 1)), Some(u32::MAX));
    assert_eq!(decode_recipe_group(0), None);
    assert_eq!(decode_recipe_group(u32::MAX), Some(u32::MAX - 1));
}

#[test]
fn new_recipe_data_replaces_item_sets_and_stonecutter_recipes() {
    let mut counter = GenerationCounter::new();
    let mut book = RecipeBook::from_counter(&mut counter);
    let mut item_sets = HashMap::new();
    item_sets.insert(
        "minecraft:furnace_input".to_string(),
        RecipePropertySet {
            items: vec![OAK_LOG, DIAMOND],
        },
    );
    let stonecutter = vec![SingleInputEntry {
        input: Ingredient {
            allowed: IngredientItems::Items(vec![OAK_PLANKS]),
        },
        recipe: SelectableRecipe {
            option_display: item(STICK),
        },
    }];
    book.replace_recipe_data(item_sets, stonecutter, &mut counter);
    assert_eq!(book.item_sets().len(), 1);
    assert_eq!(
        book.item_sets()["minecraft:furnace_input"].items,
        vec![OAK_LOG, DIAMOND]
    );
    assert_eq!(book.stonecutter_recipes().len(), 1);
    assert!(matches!(
        &book.stonecutter_recipes()[0].input.allowed,
        IngredientItems::Items(items) if items == &vec![OAK_PLANKS]
    ));
}
