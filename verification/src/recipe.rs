//! Recipe displays: how the server describes a recipe's ingredients and
//! result to the client.
use vstd::prelude::*;

use crate::codec::RecipeDisplayId;
use crate::item::{DataComponentPatch, ItemKind, ItemStack, ItemStackData};

verus! {

/// How a slot of a recipe display is shown.
#[derive(Debug)]
pub enum SlotDisplayData {
    Empty,
    AnyFuel,
    WithAnyPotion(Box<WithAnyPotionSlotDisplay>),
    OnlyWithComponent(Box<OnlyWithComponentSlotDisplay>),
    Item(ItemSlotDisplay),
    ItemStack(ItemStackSlotDisplay),
    Tag(TagSlotDisplay),
    Dyed(Box<DyedSlotDemo>),
    SmithingTrim(Box<SmithingTrimDemoSlotDisplay>),
    WithRemainder(Box<WithRemainderSlotDisplay>),
    Composite(CompositeSlotDisplay),
}

#[derive(Debug)]
pub struct WithAnyPotionSlotDisplay {
    pub contents: SlotDisplayData,
}

/// `component` is the registry id of the data component kind.
#[derive(Debug)]
pub struct OnlyWithComponentSlotDisplay {
    pub contents: SlotDisplayData,
    pub component: u32,
}

#[derive(Clone, Copy, Debug, PartialEq, Eq, Structural)]
pub struct ItemSlotDisplay {
    pub item: ItemKind,
}

#[derive(Clone, Copy, Debug, PartialEq, Eq, Structural)]
pub struct ItemStackSlotDisplay {
    pub stack: ItemStack,
}

#[derive(Debug)]
pub struct DyedSlotDemo {
    pub dye: SlotDisplayData,
    pub target: SlotDisplayData,
}

/// `tag` is the identifier of an item tag, such as `minecraft:planks`.
#[derive(Debug)]
pub struct TagSlotDisplay {
    pub tag: String,
}

/// `pattern` is the registry id of the trim pattern.
#[derive(Debug)]
pub struct SmithingTrimDemoSlotDisplay {
    pub base: SlotDisplayData,
    pub material: SlotDisplayData,
    pub pattern: u32,
}

#[derive(Debug)]
pub struct WithRemainderSlotDisplay {
    pub input: SlotDisplayData,
    pub remainder: SlotDisplayData,
}

#[derive(Debug)]
pub struct CompositeSlotDisplay {
    pub contents: Vec<SlotDisplayData>,
}

/// How a recipe is shown in the recipe book.
#[derive(Debug)]
pub enum RecipeDisplayData {
    Shapeless(ShapelessCraftingRecipeDisplay),
    Shaped(ShapedCraftingRecipeDisplay),
    Furnace(FurnaceRecipeDisplay),
    Stonecutter(StonecutterRecipeDisplay),
    Smithing(SmithingRecipeDisplay),
}

#[derive(Debug)]
pub struct ShapelessCraftingRecipeDisplay {
    pub ingredients: Vec<SlotDisplayData>,
    pub result: SlotDisplayData,
    pub crafting_station: SlotDisplayData,
}

#[derive(Debug)]
pub struct ShapedCraftingRecipeDisplay {
    pub width: u32,
    pub height: u32,
    pub ingredients: Vec<SlotDisplayData>,
    pub result: SlotDisplayData,
    pub crafting_station: SlotDisplayData,
}

/// `experience_bits` holds the bits of the experience value (an IEEE 754
/// single-precision number).
#[derive(Debug)]
pub struct FurnaceRecipeDisplay {
    pub ingredient: SlotDisplayData,
    pub fuel: SlotDisplayData,
    pub result: SlotDisplayData,
    pub crafting_station: SlotDisplayData,
    pub duration: u32,
    pub experience_bits: u32,
}

#[derive(Debug)]
pub struct StonecutterRecipeDisplay {
    pub input: SlotDisplayData,
    pub result: SlotDisplayData,
    pub crafting_station: SlotDisplayData,
}

#[derive(Debug)]
pub struct SmithingRecipeDisplay {
    pub template: SlotDisplayData,
    pub base: SlotDisplayData,
    pub addition: SlotDisplayData,
    pub result: SlotDisplayData,
    pub crafting_station: SlotDisplayData,
}

/// The items an ingredient allows: a list of item registry ids, or an item
/// tag.
#[derive(Debug)]
pub enum IngredientItems {
    Items(Vec<u32>),
    Tag(String),
}

#[derive(Debug)]
pub struct Ingredient {
    pub allowed: IngredientItems,
}

/// The recipe book tab a recipe shows under.
#[derive(Clone, Copy, Debug, PartialEq, Eq, Structural)]
pub enum RecipeBookCategory {
    CraftingBuildingBlocks,
    CraftingRedstone,
    CraftingEquipment,
    CraftingMisc,
    FurnaceFood,
    FurnaceBlocks,
    FurnaceMisc,
    BlastFurnaceBlocks,
    BlastFurnaceMisc,
    SmokerFood,
    Stonecutter,
    Smithing,
    Campfire,
}

/// A recipe as the server announces it to the recipe book.
#[derive(Debug)]
pub struct RecipeDisplayEntry {
    pub id: RecipeDisplayId,
    pub display: RecipeDisplayData,
    pub group: Option<u32>,
    pub category: RecipeBookCategory,
    pub crafting_requirements: Option<Vec<Ingredient>>,
}

/// Recipes the server adds to the recipe book.
#[derive(Debug)]
pub struct ClientboundRecipeBookAdd {
    pub entries: Vec<Entry>,
    pub replace: bool,
}

/// A recipe added to the recipe book, with its flags (bit 2 marks it as new).
#[derive(Debug)]
pub struct Entry {
    pub contents: RecipeDisplayEntry,
    pub flags: u8,
}

/// Two slot displays are equal: the same variant with equal fields.
pub open spec fn same_slot_display(a: SlotDisplayData, b: SlotDisplayData) -> bool
    decreases a,
{
    match a {
        SlotDisplayData::Empty => b is Empty,
        SlotDisplayData::AnyFuel => b is AnyFuel,
        SlotDisplayData::WithAnyPotion(p) => match b {
            SlotDisplayData::WithAnyPotion(q) => same_slot_display(p.contents, q.contents),
            _ => false,
        },
        SlotDisplayData::OnlyWithComponent(p) => match b {
            SlotDisplayData::OnlyWithComponent(q) => same_slot_display(p.contents, q.contents) && p.component == q.component,
            _ => false,
        },
        SlotDisplayData::Dyed(p) => match b {
            SlotDisplayData::Dyed(q) => same_slot_display(p.dye, q.dye) && same_slot_display(p.target, q.target),
            _ => false,
        },
        SlotDisplayData::SmithingTrim(p) => match b {
            SlotDisplayData::SmithingTrim(q) => same_slot_display(p.base, q.base) && same_slot_display(p.material, q.material) && p.pattern == q.pattern,
            _ => false,
        },
        SlotDisplayData::WithRemainder(p) => match b {
            SlotDisplayData::WithRemainder(q) => same_slot_display(p.input, q.input) && same_slot_display(p.remainder, q.remainder),
            _ => false,
        },
        SlotDisplayData::Item(x) => b == SlotDisplayData::Item(x),
        SlotDisplayData::ItemStack(x) => b == SlotDisplayData::ItemStack(x),
        SlotDisplayData::Tag(t) => match b {
            SlotDisplayData::Tag(u) => t.tag@ == u.tag@,
            _ => false,
        },
        SlotDisplayData::Composite(c) => match b {
            SlotDisplayData::Composite(d) => c.contents@.len() == d.contents@.len() && forall|i: int|
                0 <= i < c.contents@.len() ==> same_slot_display(
                    #[trigger] c.contents@[i],
                    d.contents@[i],
                ),
            _ => false,
        },
    }
}

/// Two lists of slot displays are equal element by element.
pub open spec fn same_slot_displays(a: Seq<SlotDisplayData>, b: Seq<SlotDisplayData>) -> bool {
    a.len() == b.len() && forall|i: int| 0 <= i < a.len() ==> same_slot_display(#[trigger] a[i], b[i])
}

/// Whether the bits of a single-precision number are those of a NaN.
pub open spec fn f32_bits_nan(a: u32) -> bool {
    a & 0x7f80_0000 == 0x7f80_0000 && a & 0x007f_ffff != 0
}

/// Whether two single-precision numbers, given by their bits, compare equal:
/// neither is NaN, and their bits agree or both are zeros of either sign.
pub open spec fn f32_bits_equal(a: u32, b: u32) -> bool {
    !f32_bits_nan(a) && !f32_bits_nan(b) && (a == b || (a & 0x7fff_ffff == 0 && b
        & 0x7fff_ffff == 0))
}

/// Two recipe displays have the same variant and equal fields, except that
/// the furnace experience is left aside.
pub open spec fn same_recipe_display_but_experience(a: RecipeDisplayData, b: RecipeDisplayData) -> bool {
    match a {
        RecipeDisplayData::Shapeless(x) => match b {
            RecipeDisplayData::Shapeless(y) => same_slot_display(x.result, y.result) && same_slot_display(x.crafting_station, y.crafting_station) && same_slot_displays(x.ingredients@, y.ingredients@),
            _ => false,
        },
        RecipeDisplayData::Shaped(x) => match b {
            RecipeDisplayData::Shaped(y) => same_slot_display(x.result, y.result) && same_slot_display(x.crafting_station, y.crafting_station) && same_slot_displays(x.ingredients@, y.ingredients@) && x.width == y.width && x.height == y.height,
            _ => false,
        },
        RecipeDisplayData::Furnace(x) => match b {
            RecipeDisplayData::Furnace(y) => same_slot_display(x.ingredient, y.ingredient) && same_slot_display(x.fuel, y.fuel) && same_slot_display(x.result, y.result) && same_slot_display(x.crafting_station, y.crafting_station) && x.duration == y.duration,
            _ => false,
        },
        RecipeDisplayData::Stonecutter(x) => match b {
            RecipeDisplayData::Stonecutter(y) => same_slot_display(x.input, y.input) && same_slot_display(x.result, y.result) && same_slot_display(x.crafting_station, y.crafting_station),
            _ => false,
        },
        RecipeDisplayData::Smithing(x) => match b {
            RecipeDisplayData::Smithing(y) => same_slot_display(x.template, y.template) && same_slot_display(x.base, y.base) && same_slot_display(x.addition, y.addition) && same_slot_display(x.result, y.result) && same_slot_display(x.crafting_station, y.crafting_station),
            _ => false,
        },
    }
}

/// Two recipe displays are copies of each other: the same variant with equal
/// fields, the furnace experience bit for bit.
pub open spec fn same_recipe_display(a: RecipeDisplayData, b: RecipeDisplayData) -> bool {
    &&& same_recipe_display_but_experience(a, b)
    &&& a is Furnace ==> a->Furnace_0.experience_bits == b->Furnace_0.experience_bits
}

/// Two recipe displays compare equal: the same variant with equal fields,
/// the furnace experience compared as a number (so a NaN equals nothing).
pub open spec fn recipe_display_equal(a: RecipeDisplayData, b: RecipeDisplayData) -> bool {
    &&& same_recipe_display_but_experience(a, b)
    &&& a is Furnace ==> f32_bits_equal(a->Furnace_0.experience_bits, b->Furnace_0.experience_bits)
}

/// Whether a recipe display holds a NaN experience.
pub open spec fn has_nan_experience(a: RecipeDisplayData) -> bool {
    a is Furnace && f32_bits_nan(a->Furnace_0.experience_bits)
}

/// Two ingredients allow the same items.
pub open spec fn same_ingredient(a: Ingredient, b: Ingredient) -> bool {
    match a.allowed {
        IngredientItems::Items(v) => match b.allowed {
            IngredientItems::Items(u) => v@ == u@,
            _ => false,
        },
        IngredientItems::Tag(t) => match b.allowed {
            IngredientItems::Tag(u) => t@ == u@,
            _ => false,
        },
    }
}

pub open spec fn same_requirements(a: Option<Vec<Ingredient>>, b: Option<Vec<Ingredient>>) -> bool {
    match a {
        None => b is None,
        Some(v) => match b {
            Some(u) => v@.len() == u@.len() && forall|i: int|
                0 <= i < v@.len() ==> same_ingredient(#[trigger] v@[i], u@[i]),
            None => false,
        },
    }
}

/// Two recipe book entries are copies of each other.
pub open spec fn same_entry(a: RecipeDisplayEntry, b: RecipeDisplayEntry) -> bool {
    &&& a.id == b.id
    &&& same_recipe_display(a.display, b.display)
    &&& a.group == b.group
    &&& a.category == b.category
    &&& same_requirements(a.crafting_requirements, b.crafting_requirements)
}

/// Two recipe book entries compare equal field by field.
pub open spec fn entry_equal(a: RecipeDisplayEntry, b: RecipeDisplayEntry) -> bool {
    &&& a.id == b.id
    &&& recipe_display_equal(a.display, b.display)
    &&& a.group == b.group
    &&& a.category == b.category
    &&& same_requirements(a.crafting_requirements, b.crafting_requirements)
}

/// Whether two slot displays are equal.
pub fn slot_display_eq(a: &SlotDisplayData, b: &SlotDisplayData) -> (r: bool)
    ensures
        r == same_slot_display(*a, *b),
    decreases a,
{
    match a {
        SlotDisplayData::Empty => match b {
            SlotDisplayData::Empty => true,
            _ => false,
        },
        SlotDisplayData::AnyFuel => match b {
            SlotDisplayData::AnyFuel => true,
            _ => false,
        },
        SlotDisplayData::WithAnyPotion(p) => match b {
            SlotDisplayData::WithAnyPotion(q) => slot_display_eq(&p.contents, &q.contents),
            _ => false,
        },
        SlotDisplayData::OnlyWithComponent(p) => match b {
            SlotDisplayData::OnlyWithComponent(q) => slot_display_eq(&p.contents, &q.contents) && p.component == q.component,
            _ => false,
        },
        SlotDisplayData::Dyed(p) => match b {
            SlotDisplayData::Dyed(q) => slot_display_eq(&p.dye, &q.dye) && slot_display_eq(&p.target, &q.target),
            _ => false,
        },
        SlotDisplayData::SmithingTrim(p) => match b {
            SlotDisplayData::SmithingTrim(q) => slot_display_eq(&p.base, &q.base) && slot_display_eq(&p.material, &q.material) && p.pattern == q.pattern,
            _ => false,
        },
        SlotDisplayData::WithRemainder(p) => match b {
            SlotDisplayData::WithRemainder(q) => slot_display_eq(&p.input, &q.input) && slot_display_eq(&p.remainder, &q.remainder),
            _ => false,
        },
        SlotDisplayData::Item(x) => match b {
            SlotDisplayData::Item(y) => x == y,
            _ => false,
        },
        SlotDisplayData::ItemStack(x) => match b {
            SlotDisplayData::ItemStack(y) => x == y,
            _ => false,
        },
        SlotDisplayData::Tag(t) => match b {
            SlotDisplayData::Tag(u) => t.tag == u.tag,
            _ => false,
        },
        SlotDisplayData::Composite(c) => match b {
            SlotDisplayData::Composite(d) => {
                if c.contents.len() != d.contents.len() {
                    return false;
                }
                let mut i: usize = 0;
                while i < c.contents.len()
                    invariant
                        *a == SlotDisplayData::Composite(*c),
                        *b == SlotDisplayData::Composite(*d),
                        c.contents@.len() == d.contents@.len(),
                        i <= c.contents@.len(),
                        forall|j: int| 0 <= j < i ==> same_slot_display(#[trigger] c.contents@[j], d.contents@[j]),
                    decreases c.contents@.len() - i,
                {
                    proof {
                        assert(decreases_to!(*a => a->Composite_0));
                        assert(decreases_to!(*c => c.contents));
                        assert(decreases_to!(c.contents => c.contents@));
                        assert(decreases_to!(c.contents@ => c.contents@[i as int]));
                    }
                    if !slot_display_eq(&c.contents[i], &d.contents[i]) {
                        return false;
                    }
                    i = i + 1;
                }
                true
            },
            _ => false,
        },
    }
}

/// Whether two lists of slot displays are equal.
pub fn slot_displays_eq(a: &Vec<SlotDisplayData>, b: &Vec<SlotDisplayData>) -> (r: bool)
    ensures
        r == same_slot_displays(a@, b@),
{
    if a.len() != b.len() {
        return false;
    }
    let mut i: usize = 0;
    while i < a.len()
        invariant
            a@.len() == b@.len(),
            i <= a@.len(),
            forall|j: int| 0 <= j < i ==> same_slot_display(#[trigger] a@[j], b@[j]),
        decreases a@.len() - i,
    {
        if !slot_display_eq(&a[i], &b[i]) {
            return false;
        }
        i = i + 1;
    }
    true
}

/// Whether two single-precision numbers, given by their bits, compare equal.
pub fn f32_bits_eq(a: u32, b: u32) -> (r: bool)
    ensures
        r == f32_bits_equal(a, b),
{
    let a_nan = a & 0x7f80_0000 == 0x7f80_0000 && a & 0x007f_ffff != 0;
    let b_nan = b & 0x7f80_0000 == 0x7f80_0000 && b & 0x007f_ffff != 0;
    !a_nan && !b_nan && (a == b || (a & 0x7fff_ffff == 0 && b & 0x7fff_ffff == 0))
}

/// Whether two recipe displays compare equal.
pub fn recipe_display_eq(a: &RecipeDisplayData, b: &RecipeDisplayData) -> (r: bool)
    ensures
        r == recipe_display_equal(*a, *b),
{
    match a {
        RecipeDisplayData::Shapeless(x) => match b {
            RecipeDisplayData::Shapeless(y) => slot_display_eq(&x.result, &y.result) && slot_display_eq(&x.crafting_station, &y.crafting_station) && slot_displays_eq(&x.ingredients, &y.ingredients),
            _ => false,
        },
        RecipeDisplayData::Shaped(x) => match b {
            RecipeDisplayData::Shaped(y) => slot_display_eq(&x.result, &y.result) && slot_display_eq(&x.crafting_station, &y.crafting_station) && slot_displays_eq(&x.ingredients, &y.ingredients) && x.width == y.width && x.height == y.height,
            _ => false,
        },
        RecipeDisplayData::Furnace(x) => match b {
            RecipeDisplayData::Furnace(y) => slot_display_eq(&x.ingredient, &y.ingredient) && slot_display_eq(&x.fuel, &y.fuel) && slot_display_eq(&x.result, &y.result) && slot_display_eq(&x.crafting_station, &y.crafting_station) && x.duration == y.duration && f32_bits_eq(x.experience_bits, y.experience_bits),
            _ => false,
        },
        RecipeDisplayData::Stonecutter(x) => match b {
            RecipeDisplayData::Stonecutter(y) => slot_display_eq(&x.input, &y.input) && slot_display_eq(&x.result, &y.result) && slot_display_eq(&x.crafting_station, &y.crafting_station),
            _ => false,
        },
        RecipeDisplayData::Smithing(x) => match b {
            RecipeDisplayData::Smithing(y) => slot_display_eq(&x.template, &y.template) && slot_display_eq(&x.base, &y.base) && slot_display_eq(&x.addition, &y.addition) && slot_display_eq(&x.result, &y.result) && slot_display_eq(&x.crafting_station, &y.crafting_station),
            _ => false,
        },
    }
}

fn u32s_eq(a: &Vec<u32>, b: &Vec<u32>) -> (r: bool)
    ensures
        r == (a@ == b@),
{
    if a.len() != b.len() {
        return false;
    }
    let mut i: usize = 0;
    while i < a.len()
        invariant
            a@.len() == b@.len(),
            i <= a@.len(),
            forall|j: int| 0 <= j < i ==> a@[j] == b@[j],
        decreases a@.len() - i,
    {
        if a[i] != b[i] {
            return false;
        }
        i = i + 1;
    }
    proof {
        assert(a@ =~= b@);
    }
    true
}

/// Whether two ingredients allow the same items.
pub fn ingredient_eq(a: &Ingredient, b: &Ingredient) -> (r: bool)
    ensures
        r == same_ingredient(*a, *b),
{
    match &a.allowed {
        IngredientItems::Items(v) => match &b.allowed {
            IngredientItems::Items(u) => u32s_eq(v, u),
            _ => false,
        },
        IngredientItems::Tag(t) => match &b.allowed {
            IngredientItems::Tag(u) => *t == *u,
            _ => false,
        },
    }
}

fn requirements_eq(a: &Option<Vec<Ingredient>>, b: &Option<Vec<Ingredient>>) -> (r: bool)
    ensures
        r == same_requirements(*a, *b),
{
    match a {
        None => match b {
            None => true,
            Some(_) => false,
        },
        Some(v) => match b {
            None => false,
            Some(u) => {
                if v.len() != u.len() {
                    return false;
                }
                let mut i: usize = 0;
                while i < v.len()
                    invariant
                        *a == Some(*v),
                        *b == Some(*u),
                        v@.len() == u@.len(),
                        i <= v@.len(),
                        forall|j: int| 0 <= j < i ==> same_ingredient(#[trigger] v@[j], u@[j]),
                    decreases v@.len() - i,
                {
                    if !ingredient_eq(&v[i], &u[i]) {
                        return false;
                    }
                    i = i + 1;
                }
                true
            },
        },
    }
}

/// Whether two recipe book entries compare equal.
pub fn entry_eq(a: &RecipeDisplayEntry, b: &RecipeDisplayEntry) -> (r: bool)
    ensures
        r == entry_equal(*a, *b),
{
    a.id == b.id && recipe_display_eq(&a.display, &b.display) && a.group == b.group
        && a.category == b.category && requirements_eq(
        &a.crafting_requirements,
        &b.crafting_requirements,
    )
}

/// A copy of a slot display.
pub fn clone_slot_display(a: &SlotDisplayData) -> (r: SlotDisplayData)
    ensures
        same_slot_display(*a, r),
    decreases a,
{
    match a {
        SlotDisplayData::Empty => SlotDisplayData::Empty,
        SlotDisplayData::AnyFuel => SlotDisplayData::AnyFuel,
        SlotDisplayData::WithAnyPotion(p) => SlotDisplayData::WithAnyPotion(Box::new(WithAnyPotionSlotDisplay { contents: clone_slot_display(&p.contents) })),
        SlotDisplayData::OnlyWithComponent(p) => SlotDisplayData::OnlyWithComponent(Box::new(OnlyWithComponentSlotDisplay { contents: clone_slot_display(&p.contents), component: p.component })),
        SlotDisplayData::Dyed(p) => SlotDisplayData::Dyed(Box::new(DyedSlotDemo { dye: clone_slot_display(&p.dye), target: clone_slot_display(&p.target) })),
        SlotDisplayData::SmithingTrim(p) => SlotDisplayData::SmithingTrim(Box::new(SmithingTrimDemoSlotDisplay { base: clone_slot_display(&p.base), material: clone_slot_display(&p.material), pattern: p.pattern })),
        SlotDisplayData::WithRemainder(p) => SlotDisplayData::WithRemainder(Box::new(WithRemainderSlotDisplay { input: clone_slot_display(&p.input), remainder: clone_slot_display(&p.remainder) })),
        SlotDisplayData::Item(x) => SlotDisplayData::Item(*x),
        SlotDisplayData::ItemStack(x) => SlotDisplayData::ItemStack(*x),
        SlotDisplayData::Tag(t) => SlotDisplayData::Tag(TagSlotDisplay { tag: t.tag.clone() }),
        SlotDisplayData::Composite(c) => {
            let mut contents: Vec<SlotDisplayData> = Vec::new();
            let mut i: usize = 0;
            while i < c.contents.len()
                invariant
                    *a == SlotDisplayData::Composite(*c),
                    i <= c.contents@.len(),
                    contents@.len() == i,
                    forall|j: int| 0 <= j < i ==> same_slot_display(#[trigger] c.contents@[j], contents@[j]),
                decreases c.contents@.len() - i,
            {
                proof {
                    assert(decreases_to!(*a => a->Composite_0));
                    assert(decreases_to!(*c => c.contents));
                    assert(decreases_to!(c.contents => c.contents@));
                    assert(decreases_to!(c.contents@ => c.contents@[i as int]));
                }
                contents.push(clone_slot_display(&c.contents[i]));
                i = i + 1;
            }
            SlotDisplayData::Composite(CompositeSlotDisplay { contents })
        },
    }
}

/// A copy of a list of slot displays.
pub fn clone_slot_displays(a: &Vec<SlotDisplayData>) -> (r: Vec<SlotDisplayData>)
    ensures
        same_slot_displays(a@, r@),
{
    let mut r: Vec<SlotDisplayData> = Vec::new();
    let mut i: usize = 0;
    while i < a.len()
        invariant
            i <= a@.len(),
            r@.len() == i,
            forall|j: int| 0 <= j < i ==> same_slot_display(#[trigger] a@[j], r@[j]),
        decreases a@.len() - i,
    {
        r.push(clone_slot_display(&a[i]));
        i = i + 1;
    }
    r
}

/// A copy of a recipe display.
pub fn clone_recipe_display(a: &RecipeDisplayData) -> (r: RecipeDisplayData)
    ensures
        same_recipe_display(*a, r),
{
    match a {
        RecipeDisplayData::Shapeless(x) => RecipeDisplayData::Shapeless(ShapelessCraftingRecipeDisplay { result: clone_slot_display(&x.result), crafting_station: clone_slot_display(&x.crafting_station), ingredients: clone_slot_displays(&x.ingredients) }),
        RecipeDisplayData::Shaped(x) => RecipeDisplayData::Shaped(ShapedCraftingRecipeDisplay { result: clone_slot_display(&x.result), crafting_station: clone_slot_display(&x.crafting_station), ingredients: clone_slot_displays(&x.ingredients), width: x.width, height: x.height }),
        RecipeDisplayData::Furnace(x) => RecipeDisplayData::Furnace(FurnaceRecipeDisplay { ingredient: clone_slot_display(&x.ingredient), fuel: clone_slot_display(&x.fuel), result: clone_slot_display(&x.result), crafting_station: clone_slot_display(&x.crafting_station), duration: x.duration, experience_bits: x.experience_bits }),
        RecipeDisplayData::Stonecutter(x) => RecipeDisplayData::Stonecutter(StonecutterRecipeDisplay { input: clone_slot_display(&x.input), result: clone_slot_display(&x.result), crafting_station: clone_slot_display(&x.crafting_station) }),
        RecipeDisplayData::Smithing(x) => RecipeDisplayData::Smithing(SmithingRecipeDisplay { template: clone_slot_display(&x.template), base: clone_slot_display(&x.base), addition: clone_slot_display(&x.addition), result: clone_slot_display(&x.result), crafting_station: clone_slot_display(&x.crafting_station) }),
    }
}

/// A copy of an ingredient.
pub fn clone_ingredient(a: &Ingredient) -> (r: Ingredient)
    ensures
        same_ingredient(*a, r),
{
    match &a.allowed {
        IngredientItems::Items(v) => Ingredient { allowed: IngredientItems::Items(v.clone()) },
        IngredientItems::Tag(t) => Ingredient { allowed: IngredientItems::Tag(t.clone()) },
    }
}

fn clone_requirements(a: &Option<Vec<Ingredient>>) -> (r: Option<Vec<Ingredient>>)
    ensures
        same_requirements(*a, r),
{
    match a {
        None => None,
        Some(v) => {
            let mut r: Vec<Ingredient> = Vec::new();
            let mut i: usize = 0;
            while i < v.len()
                invariant
                    i <= v@.len(),
                    r@.len() == i,
                    forall|j: int| 0 <= j < i ==> same_ingredient(#[trigger] v@[j], r@[j]),
                decreases v@.len() - i,
            {
                r.push(clone_ingredient(&v[i]));
                i = i + 1;
            }
            Some(r)
        },
    }
}

/// A copy of a recipe book entry.
pub fn clone_entry(a: &RecipeDisplayEntry) -> (r: RecipeDisplayEntry)
    ensures
        same_entry(*a, r),
{
    RecipeDisplayEntry {
        id: a.id,
        display: clone_recipe_display(&a.display),
        group: a.group,
        category: a.category,
        crafting_requirements: clone_requirements(&a.crafting_requirements),
    }
}

/// The slot display of a recipe's result.
pub open spec fn spec_recipe_result(d: RecipeDisplayData) -> SlotDisplayData {
    match d {
        RecipeDisplayData::Shapeless(x) => x.result,
        RecipeDisplayData::Shaped(x) => x.result,
        RecipeDisplayData::Furnace(x) => x.result,
        RecipeDisplayData::Stonecutter(x) => x.result,
        RecipeDisplayData::Smithing(x) => x.result,
    }
}

pub(crate) fn recipe_result(recipe: &RecipeDisplayData) -> (r: &SlotDisplayData)
    ensures
        *r == spec_recipe_result(*recipe),
{
    match recipe {
        RecipeDisplayData::Shapeless(x) => &x.result,
        RecipeDisplayData::Shaped(x) => &x.result,
        RecipeDisplayData::Furnace(x) => &x.result,
        RecipeDisplayData::Stonecutter(x) => &x.result,
        RecipeDisplayData::Smithing(x) => &x.result,
    }
}

/// The stack a slot display shows: one of the item for an item display, the
/// stack for a non-empty stack display, the first of a composite's contents
/// that shows one, and none otherwise.
pub open spec fn spec_slot_display_stack(d: SlotDisplayData) -> Option<ItemStack>
    decreases d,
{
    match d {
        SlotDisplayData::Item(x) => Some(
            ItemStack::Present(
                ItemStackData {
                    kind: x.item,
                    count: 1,
                    component_patch: DataComponentPatch::spec_empty(),
                },
            ),
        ),
        SlotDisplayData::ItemStack(x) => if !x.stack.spec_is_empty() {
            Some(x.stack)
        } else {
            None
        },
        SlotDisplayData::Composite(c) => if exists|i: int|
            0 <= i < c.contents@.len() && spec_slot_display_stack(#[trigger] c.contents@[i]) is Some
                && forall|j: int| 0 <= j < i ==> spec_slot_display_stack(#[trigger] c.contents@[j]) is None {
            let i = choose|i: int|
                0 <= i < c.contents@.len() && spec_slot_display_stack(#[trigger] c.contents@[i]) is Some
                    && forall|j: int| 0 <= j < i ==> spec_slot_display_stack(#[trigger] c.contents@[j]) is None;
            spec_slot_display_stack(c.contents@[i])
        } else {
            None
        },
        _ => None,
    }
}

pub(crate) fn slot_display_stack(display: &SlotDisplayData) -> (r: Option<ItemStack>)
    ensures
        r == spec_slot_display_stack(*display),
    decreases display,
{
    match display {
        SlotDisplayData::Item(x) => Some(ItemStack::Present(ItemStackData::new(x.item, 1))),
        SlotDisplayData::ItemStack(x) => {
            if x.stack.is_present() {
                Some(x.stack)
            } else {
                None
            }
        },
        SlotDisplayData::Composite(c) => {
            let mut i: usize = 0;
            while i < c.contents.len()
                invariant
                    *display == SlotDisplayData::Composite(*c),
                    i <= c.contents@.len(),
                    forall|j: int| 0 <= j < i ==> spec_slot_display_stack(#[trigger] c.contents@[j]) is None,
                decreases c.contents@.len() - i,
            {
                proof {
                    assert(decreases_to!(*display => display->Composite_0));
                    assert(decreases_to!(*c => c.contents));
                    assert(decreases_to!(c.contents => c.contents@));
                    assert(decreases_to!(c.contents@ => c.contents@[i as int]));
                }
                let found = slot_display_stack(&c.contents[i]);
                if found.is_some() {
                    proof {
                        let p = |k: int|
                            0 <= k < c.contents@.len() && spec_slot_display_stack(c.contents@[k]) is Some
                                && forall|j: int| 0 <= j < k ==> spec_slot_display_stack(#[trigger] c.contents@[j]) is None;
                        assert(p(i as int));
                        let k = choose|k: int|
                            0 <= k < c.contents@.len() && spec_slot_display_stack(#[trigger] c.contents@[k]) is Some
                                && forall|j: int| 0 <= j < k ==> spec_slot_display_stack(#[trigger] c.contents@[j]) is None;
                        assert(p(k));
                        if k < i {
                            assert(spec_slot_display_stack(c.contents@[k]) is None);
                        }
                        if i < k {
                            assert(spec_slot_display_stack(c.contents@[i as int]) is None);
                        }
                        assert(k == i);
                    }
                    return found;
                }
                i = i + 1;
            }
            None
        },
        _ => None,
    }
}

/// The group field of a recipe book entry on the wire: 0 for no group, and
/// the group plus one otherwise; `None` when the group has no such number.
pub open spec fn spec_encoded_group(group: Option<u32>) -> Option<u32> {
    match group {
        None => Some(0),
        Some(g) => if g < u32::MAX {
            Some((g + 1) as u32)
        } else {
            None
        },
    }
}

/// The group a wire value stands for: none for 0, and the value less one
/// otherwise.
pub open spec fn spec_decoded_group(encoded: u32) -> Option<u32> {
    if encoded == 0 {
        None
    } else {
        Some((encoded - 1) as u32)
    }
}

/// Encode the group of a recipe book entry; `None` when the group ID is too
/// large to be encoded.
pub fn encode_recipe_group(group: Option<u32>) -> (r: Option<u32>)
    ensures
        r == spec_encoded_group(group),
{
    match group {
        Some(g) => g.checked_add(1),
        None => Some(0),
    }
}

/// Decode the group of a recipe book entry.
pub fn decode_recipe_group(encoded: u32) -> (r: Option<u32>)
    ensures
        r == spec_decoded_group(encoded),
{
    encoded.checked_sub(1)
}

/// Every group that can be encoded decodes to itself.
pub proof fn lemma_recipe_group_roundtrip(group: Option<u32>)
    requires
        spec_encoded_group(group) is Some,
    ensures
        spec_decoded_group(spec_encoded_group(group)->0) == group,
{
}

} // verus!
