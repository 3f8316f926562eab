//! The client's recipe book: the recipes the server has announced, which of
//! them are highlighted, and the revisions that tell observers it changed.
use std::collections::{HashMap, HashSet};

use indexmap::IndexMap;
use vstd::prelude::*;

use crate::codec::RecipeDisplayId;
use crate::item::{ItemKind, ItemStack};
use crate::recipe::{
    clone_entry, clone_recipe_display, entry_eq, entry_equal, has_nan_experience, recipe_result,
    same_entry, same_recipe_display, slot_display_stack, spec_recipe_result,
    spec_slot_display_stack, Ingredient, RecipeBookCategory, RecipeDisplayData,
    RecipeDisplayEntry, SlotDisplayData,
};

verus! {

broadcast use vstd::std_specs::hash::group_hash_axioms;

#[verifier::external_type_specification]
#[verifier::external_body]
#[verifier::reject_recursive_types(K)]
#[verifier::reject_recursive_types(V)]
#[verifier::reject_recursive_types(S)]
pub struct ExIndexMap<K, V, S>(IndexMap<K, V, S>);

/// The entries of a map of recipes, in the map's order: each key with its
/// value.
pub uninterp spec fn recipe_entries(m: IndexMap<u32, RecipeDisplayEntry>) -> Seq<
    (u32, RecipeDisplayEntry),
>;

/// Whether some entry has key `k`.
pub open spec fn has_key(s: Seq<(u32, RecipeDisplayEntry)>, k: u32) -> bool {
    exists|i: int| 0 <= i < s.len() && #[trigger] s[i].0 == k
}

/// The position of the entry with key `k`.
pub open spec fn key_index(s: Seq<(u32, RecipeDisplayEntry)>, k: u32) -> int {
    choose|i: int| 0 <= i < s.len() && #[trigger] s[i].0 == k
}

/// No key occurs twice.
pub open spec fn keys_unique(s: Seq<(u32, RecipeDisplayEntry)>) -> bool {
    forall|i: int, j: int| 0 <= i < s.len() && 0 <= j < s.len() && #[trigger] s[i].0 == #[trigger] s[j].0 ==> i == j
}

/// The entries after inserting `e` under `k`: an entry with that key keeps
/// its place and takes the new value; otherwise the new entry goes last.
pub open spec fn entries_insert(s: Seq<(u32, RecipeDisplayEntry)>, k: u32, e: RecipeDisplayEntry) -> Seq<(u32, RecipeDisplayEntry)> {
    if has_key(s, k) {
        s.update(key_index(s, k), (k, e))
    } else {
        s.push((k, e))
    }
}

/// The entries after removing key `k`; the others keep their order.
pub open spec fn entries_remove(s: Seq<(u32, RecipeDisplayEntry)>, k: u32) -> Seq<(u32, RecipeDisplayEntry)> {
    if has_key(s, k) {
        s.remove(key_index(s, k))
    } else {
        s
    }
}

// The functions below each make one call into `indexmap`. Their contracts
// are believed, not proved: they restate, over `recipe_entries`, what
// `IndexMap` documents of the call.

/// `IndexMap::new`: a map with no entries.
#[verifier::external_body]
fn recipe_map_new() -> (m: IndexMap<u32, RecipeDisplayEntry>)
    ensures
        recipe_entries(m) == Seq::<(u32, RecipeDisplayEntry)>::empty(),
{
    IndexMap::new()
}

/// `IndexMap::len`: the number of entries.
#[verifier::external_body]
fn recipe_map_len(m: &IndexMap<u32, RecipeDisplayEntry>) -> (n: usize)
    ensures
        n == recipe_entries(*m).len(),
{
    m.len()
}

/// `IndexMap::clear`: every entry is removed.
#[verifier::external_body]
fn recipe_map_clear(m: &mut IndexMap<u32, RecipeDisplayEntry>)
    ensures
        recipe_entries(*final(m)) == Seq::<(u32, RecipeDisplayEntry)>::empty(),
{
    m.clear()
}

/// `IndexMap::insert`: an entry with key `k` keeps its place in the order
/// and takes `v`; without one, `(k, v)` goes last. (The old value, which the
/// map hands back, is dropped.)
#[verifier::external_body]
fn recipe_map_insert(m: &mut IndexMap<u32, RecipeDisplayEntry>, k: u32, v: RecipeDisplayEntry)
    requires
        keys_unique(recipe_entries(*old(m))),
    ensures
        recipe_entries(*final(m)) == entries_insert(recipe_entries(*old(m)), k, v),
{
    m.insert(k, v);
}

/// `IndexMap::shift_remove`: the entry with key `k`, if any, is removed and
/// the entries after it shift down, keeping their order. (The removed value,
/// which the map hands back, is dropped.)
#[verifier::external_body]
fn recipe_map_shift_remove(m: &mut IndexMap<u32, RecipeDisplayEntry>, k: u32)
    requires
        keys_unique(recipe_entries(*old(m))),
    ensures
        recipe_entries(*final(m)) == entries_remove(recipe_entries(*old(m)), k),
{
    m.shift_remove(&k);
}

/// `IndexMap::get`: the value under key `k`, if there is one.
#[verifier::external_body]
fn recipe_map_get(m: &IndexMap<u32, RecipeDisplayEntry>, k: u32) -> (r: Option<&RecipeDisplayEntry>)
    requires
        keys_unique(recipe_entries(*m)),
    ensures
        match r {
            Some(v) => has_key(recipe_entries(*m), k) && *v == recipe_entries(*m)[key_index(
                recipe_entries(*m),
                k,
            )].1,
            None => !has_key(recipe_entries(*m), k),
        },
{
    m.get(&k)
}

/// `IndexMap::get_index`: the value of the entry at position `i`.
#[verifier::external_body]
fn recipe_map_get_index(m: &IndexMap<u32, RecipeDisplayEntry>, i: usize) -> (r: Option<&RecipeDisplayEntry>)
    ensures
        if i < recipe_entries(*m).len() {
            r matches Some(v) && *v == recipe_entries(*m)[i as int].1
        } else {
            r is None
        },
{
    m.get_index(i).map(|(_, v)| v)
}

/// `x + 1`, wrapping to 0 after `u64::MAX`.
pub open spec fn wrapping_next(x: u64) -> u64 {
    if x == u64::MAX {
        0
    } else {
        (x + 1) as u64
    }
}

fn next_u64(x: u64) -> (r: u64)
    ensures
        r == wrapping_next(x),
{
    x.wrapping_add(1)
}

/// The item stack a recipe display entry makes, if it shows one.
pub open spec fn entry_result(e: RecipeDisplayEntry) -> Option<ItemStack> {
    spec_slot_display_stack(spec_recipe_result(e.display))
}

/// The kind of item a recipe display entry makes, if it shows one.
pub open spec fn entry_result_item(e: RecipeDisplayEntry) -> Option<ItemKind> {
    match entry_result(e) {
        Some(s) => Some(s.spec_item_kind()),
        None => None,
    }
}

/// Whether a recipe fits a crafting grid of `width` by `height` cells:
/// shaped recipes by their size, shapeless ones by their ingredient count;
/// other recipes are not made in a crafting grid.
pub open spec fn display_fits_crafting_grid(d: RecipeDisplayData, width: u32, height: u32) -> bool {
    match d {
        RecipeDisplayData::Shaped(x) => x.width <= width && x.height <= height,
        RecipeDisplayData::Shapeless(x) => x.ingredients@.len() <= width * height,
        _ => false,
    }
}

/// The entries after the server adds `adds` in order, each under the number
/// of its id.
pub open spec fn entries_after_add(s: Seq<(u32, RecipeDisplayEntry)>, adds: Seq<(RecipeDisplayEntry, u8)>) -> Seq<(u32, RecipeDisplayEntry)>
    decreases adds.len(),
{
    if adds.len() == 0 {
        s
    } else {
        let e = adds.last().0;
        entries_insert(entries_after_add(s, adds.drop_last()), e.id.0, e)
    }
}

/// The highlighted ids after the server adds `adds` in order: an entry whose
/// flags have bit 2 set is highlighted, any other is not.
pub open spec fn highlights_after_add(h: Set<u32>, adds: Seq<(RecipeDisplayEntry, u8)>) -> Set<u32>
    decreases adds.len(),
{
    if adds.len() == 0 {
        h
    } else {
        let (e, flags) = adds.last();
        let before = highlights_after_add(h, adds.drop_last());
        if flags & 2 != 0 {
            before.insert(e.id.0)
        } else {
            before.remove(e.id.0)
        }
    }
}

/// The entries after the server removes `ids` in order.
pub open spec fn entries_after_remove(s: Seq<(u32, RecipeDisplayEntry)>, ids: Seq<RecipeDisplayId>) -> Seq<(u32, RecipeDisplayEntry)>
    decreases ids.len(),
{
    if ids.len() == 0 {
        s
    } else {
        entries_remove(entries_after_remove(s, ids.drop_last()), ids.last().0)
    }
}

/// The entries, in order, whose recipe makes `result`.
pub open spec fn entries_for(s: Seq<(u32, RecipeDisplayEntry)>, result: ItemKind) -> Seq<RecipeDisplayEntry>
    decreases s.len(),
{
    if s.len() == 0 {
        Seq::empty()
    } else {
        let before = entries_for(s.drop_last(), result);
        if entry_result_item(s.last().1) == Some(result) {
            before.push(s.last().1)
        } else {
            before
        }
    }
}

/// Each entry is stored under the number of its own id, and no key occurs
/// twice.
pub open spec fn entries_wf(s: Seq<(u32, RecipeDisplayEntry)>) -> bool {
    &&& keys_unique(s)
    &&& forall|i: int| 0 <= i < s.len() ==> (#[trigger] s[i]).1.id.0 == s[i].0
}

/// Inserting an entry under its own id keeps the entries well formed.
pub proof fn lemma_insert_wf(s: Seq<(u32, RecipeDisplayEntry)>, e: RecipeDisplayEntry)
    requires
        entries_wf(s),
    ensures
        entries_wf(entries_insert(s, e.id.0, e)),
{
    let k = e.id.0;
    let t = entries_insert(s, k, e);
    if has_key(s, k) {
        let p = key_index(s, k);
        assert forall|i: int, j: int| 0 <= i < t.len() && 0 <= j < t.len() && #[trigger] t[i].0 == #[trigger] t[j].0 implies i == j by {
            assert(t[i].0 == s[i].0);
            assert(t[j].0 == s[j].0);
        }
    } else {
        assert forall|i: int, j: int| 0 <= i < t.len() && 0 <= j < t.len() && #[trigger] t[i].0 == #[trigger] t[j].0 implies i == j by {
            if i < s.len() && j < s.len() {
                assert(s[i].0 == s[j].0);
            } else if i < s.len() {
                assert(s[i].0 == k);
            } else if j < s.len() {
                assert(s[j].0 == k);
            }
        }
    }
}

/// Removing a key keeps the entries well formed.
pub proof fn lemma_remove_wf(s: Seq<(u32, RecipeDisplayEntry)>, k: u32)
    requires
        entries_wf(s),
    ensures
        entries_wf(entries_remove(s, k)),
{
    if has_key(s, k) {
        let p = key_index(s, k);
        let t = s.remove(p);
        assert forall|i: int| 0 <= i < t.len() implies (#[trigger] t[i]).1.id.0 == t[i].0 by {
            if i < p {
                assert(t[i] == s[i]);
            } else {
                assert(t[i] == s[i + 1]);
            }
        }
        assert forall|i: int, j: int| 0 <= i < t.len() && 0 <= j < t.len() && #[trigger] t[i].0 == #[trigger] t[j].0 implies i == j by {
            let si = if i < p { i } else { i + 1 };
            let sj = if j < p { j } else { j + 1 };
            assert(t[i] == s[si]);
            assert(t[j] == s[sj]);
            assert(s[si].0 == s[sj].0);
        }
    }
}

/// A recipe of the recipe book, valid for the recipe-book generation it was
/// read in.
#[derive(Debug)]
pub struct Recipe {
    generation: u64,
    entry: RecipeDisplayEntry,
}

impl Recipe {
    /// The recipe-book generation this recipe was read in.
    pub closed spec fn spec_generation(self) -> u64 {
        self.generation
    }

    /// The recipe book entry.
    pub closed spec fn spec_entry(self) -> RecipeDisplayEntry {
        self.entry
    }

    pub fn id(&self) -> (r: RecipeDisplayId)
        ensures
            r == self.spec_entry().id,
    {
        self.entry.id
    }

    pub fn display(&self) -> (r: &RecipeDisplayData)
        ensures
            *r == self.spec_entry().display,
    {
        &self.entry.display
    }

    pub fn group(&self) -> (r: Option<u32>)
        ensures
            r == self.spec_entry().group,
    {
        self.entry.group
    }

    pub fn category(&self) -> (r: RecipeBookCategory)
        ensures
            r == self.spec_entry().category,
    {
        self.entry.category
    }

    pub fn crafting_requirements(&self) -> (r: Option<&[Ingredient]>)
        ensures
            match self.spec_entry().crafting_requirements {
                None => r is None,
                Some(v) => r matches Some(s) && s@ == v@,
            },
    {
        match &self.entry.crafting_requirements {
            Some(v) => Some(v.as_slice()),
            None => None,
        }
    }

    /// The generation a recipe is read in.
    pub fn generation(&self) -> (r: u64)
        ensures
            r == self.spec_generation(),
    {
        self.generation
    }

    /// The item stack this recipe makes, as its display shows it.
    pub fn result(&self) -> (r: Option<ItemStack>)
        ensures
            r == entry_result(self.spec_entry()),
    {
        slot_display_stack(recipe_result(&self.entry.display))
    }

    /// The kind of item this recipe makes.
    pub fn result_item(&self) -> (r: Option<ItemKind>)
        ensures
            r == entry_result_item(self.spec_entry()),
    {
        match self.result() {
            Some(stack) => Some(stack.kind()),
            None => None,
        }
    }

    /// Whether this recipe can be made in a crafting grid of `width` by
    /// `height` cells.
    pub fn fits_crafting_grid(&self, width: u32, height: u32) -> (r: bool)
        requires
            width * height <= u32::MAX,
        ensures
            r == display_fits_crafting_grid(self.spec_entry().display, width, height),
    {
        match &self.entry.display {
            RecipeDisplayData::Shaped(recipe) => recipe.width <= width && recipe.height <= height,
            RecipeDisplayData::Shapeless(recipe) => {
                let cells = width * height;
                recipe.ingredients.len() as u64 <= cells as u64
            },
            _ => false,
        }
    }
}

impl Clone for Recipe {
    fn clone(&self) -> (r: Recipe)
        ensures
            r.spec_generation() == self.spec_generation(),
            same_entry(self.spec_entry(), r.spec_entry()),
    {
        Recipe { generation: self.generation, entry: clone_entry(&self.entry) }
    }
}

/// A recipe the server showed in a menu because the player lacked its
/// ingredients.
#[derive(Debug)]
pub struct GhostRecipe {
    pub container_id: i32,
    pub recipe: RecipeDisplayData,
}

impl Clone for GhostRecipe {
    fn clone(&self) -> (r: GhostRecipe)
        ensures
            r.container_id == self.container_id,
            same_recipe_display(self.recipe, r.recipe),
    {
        GhostRecipe { container_id: self.container_id, recipe: clone_recipe_display(&self.recipe) }
    }
}

/// Which recipe book tabs are open, and which show only the recipes the
/// player can craft.
#[derive(Clone, Copy, Debug, PartialEq, Eq, Structural)]
pub struct RecipeBookSettings {
    pub gui_open: bool,
    pub filtering_craftable: bool,
    pub furnace_gui_open: bool,
    pub furnace_filtering_craftable: bool,
    pub blast_furnace_gui_open: bool,
    pub blast_furnace_filtering_craftable: bool,
    pub smoker_gui_open: bool,
    pub smoker_filtering_craftable: bool,
}

impl RecipeBookSettings {
    pub open spec fn spec_default() -> RecipeBookSettings {
        RecipeBookSettings {
            gui_open: false,
            filtering_craftable: false,
            furnace_gui_open: false,
            furnace_filtering_craftable: false,
            blast_furnace_gui_open: false,
            blast_furnace_filtering_craftable: false,
            smoker_gui_open: false,
            smoker_filtering_craftable: false,
        }
    }
}

impl Default for RecipeBookSettings {
    /// Every tab closed and unfiltered.
    fn default() -> (r: RecipeBookSettings)
        ensures
            r == RecipeBookSettings::spec_default(),
    {
        RecipeBookSettings {
            gui_open: false,
            filtering_craftable: false,
            furnace_gui_open: false,
            furnace_filtering_craftable: false,
            blast_furnace_gui_open: false,
            blast_furnace_filtering_craftable: false,
            smoker_gui_open: false,
            smoker_filtering_craftable: false,
        }
    }
}

/// A set of items that recipes refer to (such as the items a furnace
/// accepts as input), by registry id.
#[derive(Debug)]
pub struct RecipePropertySet {
    pub items: Vec<u32>,
}

/// How a recipe option is shown, such as a stonecutter's choice.
#[derive(Debug)]
pub struct SelectableRecipe {
    pub option_display: SlotDisplayData,
}

/// A recipe with a single input, such as a stonecutter recipe.
#[derive(Debug)]
pub struct SingleInputEntry {
    pub input: Ingredient,
    pub recipe: SelectableRecipe,
}

/// The generation a book moves to from `current` when the counter's next
/// number is `next`: that number, unless it is `current`, and then the one
/// after it. Either way it differs from `current`.
pub open spec fn fresh_generation(current: u64, next: u64) -> u64 {
    if next != current {
        next
    } else {
        wrapping_next(next)
    }
}

/// Hands out recipe-book generations: each call gives the next number, so
/// books made in turn never share one until the numbers wrap around.
#[derive(Debug)]
pub struct GenerationCounter {
    next: u64,
}

impl GenerationCounter {
    /// The number the next call hands out.
    pub closed spec fn spec_next(self) -> u64 {
        self.next
    }

    /// A counter whose first generation is 1.
    pub fn new() -> (c: GenerationCounter)
        ensures
            c.spec_next() == 1,
    {
        GenerationCounter { next: 1 }
    }

    /// Take the next generation that differs from `current`: the next one,
    /// or the one after it when the next one is `current`.
    pub fn take_other_than(&mut self, current: u64) -> (g: u64)
        ensures
            g == fresh_generation(current, old(self).spec_next()),
            g != current,
            final(self).spec_next() == wrapping_next(g),
    {
        let g = self.take();
        if g == current {
            self.take()
        } else {
            g
        }
    }

    /// Take the next generation; the counter then hands out larger numbers,
    /// unless it has run out.
    pub fn take(&mut self) -> (g: u64)
        ensures
            g == old(self).spec_next(),
            final(self).spec_next() == wrapping_next(g),
            g < u64::MAX ==> final(self).spec_next() > g,
    {
        let g = self.next;
        self.next = next_u64(g);
        g
    }
}

/// The recipes the server has told this client about.
#[derive(Debug)]
pub struct RecipeBook {
    item_sets: HashMap<String, RecipePropertySet>,
    stonecutter_recipes: Vec<SingleInputEntry>,
    recipes: IndexMap<u32, RecipeDisplayEntry>,
    highlighted: HashSet<u32>,
    settings: RecipeBookSettings,
    generation: u64,
    revision: u64,
    ghost_revision: u64,
    ghost_recipe: Option<GhostRecipe>,
}

impl RecipeBook {
    /// The known recipes in the order the server announced them, each under
    /// the number of its id.
    pub closed spec fn entries(self) -> Seq<(u32, RecipeDisplayEntry)> {
        recipe_entries(self.recipes)
    }

    /// The ids of the highlighted recipes.
    pub closed spec fn highlighted_ids(self) -> Set<u32> {
        self.highlighted@
    }

    pub closed spec fn spec_generation(self) -> u64 {
        self.generation
    }

    pub closed spec fn spec_revision(self) -> u64 {
        self.revision
    }

    pub closed spec fn spec_ghost_revision(self) -> u64 {
        self.ghost_revision
    }

    pub closed spec fn spec_ghost_recipe(self) -> Option<GhostRecipe> {
        self.ghost_recipe
    }

    pub closed spec fn spec_settings(self) -> RecipeBookSettings {
        self.settings
    }

    pub closed spec fn spec_item_sets(self) -> HashMap<String, RecipePropertySet> {
        self.item_sets
    }

    pub closed spec fn spec_stonecutter_recipes(self) -> Seq<SingleInputEntry> {
        self.stonecutter_recipes@
    }

    /// Each recipe is stored under the number of its own id, and no id
    /// occurs twice.
    pub open spec fn wf(self) -> bool {
        entries_wf(self.entries())
    }

    /// Whether `recipe` was read in this book's generation and the book
    /// still holds an equal entry under its id.
    pub open spec fn spec_contains(self, recipe: Recipe) -> bool {
        let s = self.entries();
        let k = recipe.spec_entry().id.0;
        &&& recipe.spec_generation() == self.spec_generation()
        &&& has_key(s, k)
        &&& entry_equal(s[key_index(s, k)].1, recipe.spec_entry())
    }

    /// An empty recipe book of the given generation.
    pub fn new(generation: u64) -> (b: RecipeBook)
        ensures
            b.wf(),
            b.entries() == Seq::<(u32, RecipeDisplayEntry)>::empty(),
            b.highlighted_ids() == Set::<u32>::empty(),
            b.spec_generation() == generation,
            b.spec_revision() == 0,
            b.spec_ghost_revision() == 0,
            b.spec_ghost_recipe() is None,
            b.spec_settings() == RecipeBookSettings::spec_default(),
            b.spec_item_sets()@ == Map::<String, RecipePropertySet>::empty(),
            b.spec_stonecutter_recipes() == Seq::<SingleInputEntry>::empty(),
    {
        RecipeBook {
            item_sets: HashMap::new(),
            stonecutter_recipes: Vec::new(),
            recipes: recipe_map_new(),
            highlighted: HashSet::new(),
            settings: RecipeBookSettings::default(),
            generation,
            revision: 0,
            ghost_revision: 0,
            ghost_recipe: None,
        }
    }

    /// An empty recipe book of the counter's next generation.
    pub fn from_counter(counter: &mut GenerationCounter) -> (b: RecipeBook)
        ensures
            b.wf(),
            b.entries() == Seq::<(u32, RecipeDisplayEntry)>::empty(),
            b.highlighted_ids() == Set::<u32>::empty(),
            b.spec_generation() == old(counter).spec_next(),
            final(counter).spec_next() == wrapping_next(old(counter).spec_next()),
            b.spec_revision() == 0,
            b.spec_ghost_revision() == 0,
            b.spec_ghost_recipe() is None,
            b.spec_settings() == RecipeBookSettings::spec_default(),
            b.spec_item_sets()@ == Map::<String, RecipePropertySet>::empty(),
            b.spec_stonecutter_recipes() == Seq::<SingleInputEntry>::empty(),
    {
        let generation = counter.take();
        RecipeBook::new(generation)
    }

    /// The generation of this book's recipes.
    pub fn generation(&self) -> (r: u64)
        ensures
            r == self.spec_generation(),
    {
        self.generation
    }

    /// Every known recipe, in the order the server announced them.
    pub fn recipes(&self) -> (r: Vec<Recipe>)
        requires
            self.wf(),
        ensures
            r@.len() == self.entries().len(),
            forall|i: int|
                0 <= i < r@.len() ==> (#[trigger] r@[i]).spec_generation() == self.spec_generation()
                    && same_entry(self.entries()[i].1, r@[i].spec_entry()),
    {
        let n = recipe_map_len(&self.recipes);
        let mut r: Vec<Recipe> = Vec::new();
        let mut i: usize = 0;
        while i < n
            invariant
                n == self.entries().len(),
                i <= n,
                r@.len() == i,
                forall|j: int|
                    0 <= j < i ==> (#[trigger] r@[j]).spec_generation() == self.spec_generation()
                        && same_entry(self.entries()[j].1, r@[j].spec_entry()),
            decreases n - i,
        {
            match recipe_map_get_index(&self.recipes, i) {
                Some(e) => {
                    r.push(Recipe { generation: self.generation, entry: clone_entry(e) });
                },
                None => {},
            }
            i = i + 1;
        }
        r
    }

    /// Every known recipe that makes `result`, in the order the server
    /// announced them.
    pub fn recipes_for(&self, result: ItemKind) -> (r: Vec<Recipe>)
        requires
            self.wf(),
        ensures
            r@.len() == entries_for(self.entries(), result).len(),
            forall|i: int|
                0 <= i < r@.len() ==> (#[trigger] r@[i]).spec_generation() == self.spec_generation()
                    && same_entry(entries_for(self.entries(), result)[i], r@[i].spec_entry()),
    {
        let n = recipe_map_len(&self.recipes);
        let mut r: Vec<Recipe> = Vec::new();
        let mut i: usize = 0;
        while i < n
            invariant
                n == self.entries().len(),
                i <= n,
                r@.len() == entries_for(self.entries().take(i as int), result).len(),
                forall|j: int|
                    0 <= j < r@.len() ==> (#[trigger] r@[j]).spec_generation() == self.spec_generation()
                        && same_entry(entries_for(self.entries().take(i as int), result)[j], r@[j].spec_entry()),
            decreases n - i,
        {
            proof {
                assert(self.entries().take(i + 1).drop_last() =~= self.entries().take(i as int));
                assert(self.entries().take(i + 1).last() == self.entries()[i as int]);
            }
            match recipe_map_get_index(&self.recipes, i) {
                Some(e) => {
                    let made = match slot_display_stack(recipe_result(&e.display)) {
                        Some(stack) => Some(stack.kind()),
                        None => None,
                    };
                    if made == Some(result) {
                        r.push(Recipe { generation: self.generation, entry: clone_entry(e) });
                    }
                },
                None => {},
            }
            i = i + 1;
        }
        proof {
            assert(self.entries().take(n as int) =~= self.entries());
        }
        r
    }

    /// The recipe with this id, if the book holds one.
    pub fn recipe(&self, id: RecipeDisplayId) -> (r: Option<Recipe>)
        requires
            self.wf(),
        ensures
            match r {
                Some(recipe) => {
                    &&& has_key(self.entries(), id.0)
                    &&& recipe.spec_generation() == self.spec_generation()
                    &&& same_entry(
                        self.entries()[key_index(self.entries(), id.0)].1,
                        recipe.spec_entry(),
                    )
                },
                None => !has_key(self.entries(), id.0),
            },
    {
        match recipe_map_get(&self.recipes, id.0) {
            Some(e) => Some(Recipe { generation: self.generation, entry: clone_entry(e) }),
            None => None,
        }
    }

    /// Whether `recipe` is still valid in this book: read in its current
    /// generation, and equal to what the book holds under its id.
    pub fn contains(&self, recipe: &Recipe) -> (r: bool)
        requires
            self.wf(),
        ensures
            r == self.spec_contains(*recipe),
    {
        if recipe.generation != self.generation {
            return false;
        }
        match recipe_map_get(&self.recipes, recipe.entry.id.0) {
            Some(e) => entry_eq(e, &recipe.entry),
            None => false,
        }
    }

    /// Whether the recipe with this id is highlighted as new.
    pub fn is_highlighted(&self, id: RecipeDisplayId) -> (r: bool)
        ensures
            r == self.highlighted_ids().contains(id.0),
    {
        self.highlighted.contains(&id.0)
    }

    pub fn settings(&self) -> (r: &RecipeBookSettings)
        ensures
            *r == self.spec_settings(),
    {
        &self.settings
    }

    pub fn item_sets(&self) -> (r: &HashMap<String, RecipePropertySet>)
        ensures
            *r == self.spec_item_sets(),
    {
        &self.item_sets
    }

    pub fn stonecutter_recipes(&self) -> (r: &[SingleInputEntry])
        ensures
            r@ == self.spec_stonecutter_recipes(),
    {
        self.stonecutter_recipes.as_slice()
    }

    /// A number that changes whenever the book changes.
    pub fn revision(&self) -> (r: u64)
        ensures
            r == self.spec_revision(),
    {
        self.revision
    }

    pub fn ghost_recipe(&self) -> (r: Option<&GhostRecipe>)
        ensures
            match self.spec_ghost_recipe() {
                Some(g) => r matches Some(h) && *h == g,
                None => r is None,
            },
    {
        self.ghost_recipe.as_ref()
    }

    /// A number that changes whenever the server shows a ghost recipe.
    pub fn ghost_revision(&self) -> (r: u64)
        ensures
            r == self.spec_ghost_revision(),
    {
        self.ghost_revision
    }
}

impl RecipeBook {
    /// Take new recipe data from the server: the item sets and stonecutter
    /// recipes are replaced, the book is emptied, and it starts a new
    /// generation, drawn from `counter` and different from its current one,
    /// so no recipe read before is valid any more.
    pub fn replace_recipe_data(
        &mut self,
        item_sets: HashMap<String, RecipePropertySet>,
        stonecutter_recipes: Vec<SingleInputEntry>,
        counter: &mut GenerationCounter,
    )
        requires
            old(self).wf(),
        ensures
            final(self).spec_generation() == fresh_generation(
                old(self).spec_generation(),
                old(counter).spec_next(),
            ),
            final(self).spec_generation() != old(self).spec_generation(),
            final(counter).spec_next() == wrapping_next(final(self).spec_generation()),
            final(self).wf(),
            final(self).spec_item_sets() == item_sets,
            final(self).spec_stonecutter_recipes() == stonecutter_recipes@,
            final(self).entries() == Seq::<(u32, RecipeDisplayEntry)>::empty(),
            final(self).highlighted_ids() == Set::<u32>::empty(),
            final(self).spec_revision() == wrapping_next(old(self).spec_revision()),
            final(self).spec_settings() == old(self).spec_settings(),
            final(self).spec_ghost_recipe() == old(self).spec_ghost_recipe(),
            final(self).spec_ghost_revision() == old(self).spec_ghost_revision(),
    {
        self.item_sets = item_sets;
        self.stonecutter_recipes = stonecutter_recipes;
        recipe_map_clear(&mut self.recipes);
        self.highlighted.clear();
        self.generation = counter.take_other_than(self.generation);
        self.revision = next_u64(self.revision);
    }

    /// Add recipes the server announced, each with its flags (bit 2 marks it
    /// as new, to be highlighted). With `replace`, the book is emptied first
    /// and starts a new generation, drawn from `counter` and different from
    /// its current one, so no recipe read before is valid any more.
    pub fn add(
        &mut self,
        entries: Vec<(RecipeDisplayEntry, u8)>,
        replace: bool,
        counter: &mut GenerationCounter,
    )
        requires
            old(self).wf(),
        ensures
            final(counter).spec_next() == if replace {
                wrapping_next(final(self).spec_generation())
            } else {
                old(counter).spec_next()
            },
            replace ==> final(self).spec_generation() != old(self).spec_generation(),
            final(self).wf(),
            final(self).entries() == entries_after_add(
                if replace {
                    Seq::empty()
                } else {
                    old(self).entries()
                },
                entries@,
            ),
            final(self).highlighted_ids() == highlights_after_add(
                if replace {
                    Set::empty()
                } else {
                    old(self).highlighted_ids()
                },
                entries@,
            ),
            final(self).spec_generation() == if replace {
                fresh_generation(old(self).spec_generation(), old(counter).spec_next())
            } else {
                old(self).spec_generation()
            },
            final(self).spec_revision() == wrapping_next(old(self).spec_revision()),
            final(self).spec_settings() == old(self).spec_settings(),
            final(self).spec_item_sets() == old(self).spec_item_sets(),
            final(self).spec_stonecutter_recipes() == old(self).spec_stonecutter_recipes(),
            final(self).spec_ghost_recipe() == old(self).spec_ghost_recipe(),
            final(self).spec_ghost_revision() == old(self).spec_ghost_revision(),
    {
        if replace {
            recipe_map_clear(&mut self.recipes);
            self.highlighted.clear();
            self.generation = counter.take_other_than(self.generation);
        }
        let ghost start_entries = recipe_entries(self.recipes);
        let ghost start_highlights = self.highlighted@;
        let ghost adds = entries@;
        let mut i: usize = 0;
        let mut rest = entries;
        let total = rest.len();
        assert(adds.len() == total);
        while rest.len() > 0
            invariant
                adds.len() <= usize::MAX,
                i + rest@.len() == adds.len(),
                rest@ == adds.subrange(i as int, adds.len() as int),
                entries_wf(recipe_entries(self.recipes)),
                recipe_entries(self.recipes) == entries_after_add(start_entries, adds.take(i as int)),
                self.highlighted@ == highlights_after_add(start_highlights, adds.take(i as int)),
                self.generation == (if replace {
                    fresh_generation(old(self).generation, old(counter).next)
                } else {
                    old(self).generation
                }),
                counter.next == (if replace { wrapping_next(self.generation) } else { old(counter).next }),
                self.revision == old(self).revision,
                self.settings == old(self).settings,
                self.item_sets == old(self).item_sets,
                self.stonecutter_recipes == old(self).stonecutter_recipes,
                self.ghost_recipe == old(self).ghost_recipe,
                self.ghost_revision == old(self).ghost_revision,
            decreases rest@.len(),
        {
            let (entry, flags) = rest.remove(0);
            proof {
                assert(adds[i as int] == (entry, flags));
                assert(adds.take(i + 1).drop_last() =~= adds.take(i as int));
                assert(adds.take(i + 1).last() == adds[i as int]);
                assert(rest@ =~= adds.subrange(i + 1, adds.len() as int));
                lemma_insert_wf(recipe_entries(self.recipes), entry);
            }
            let key = entry.id.0;
            if flags & 2 != 0 {
                self.highlighted.insert(key);
            } else {
                self.highlighted.remove(&key);
            }
            recipe_map_insert(&mut self.recipes, key, entry);
            i = i + 1;
        }
        proof {
            assert(adds.take(i as int) =~= adds);
        }
        self.revision = next_u64(self.revision);
    }

    /// Remove the recipes with these ids; the others keep their order.
    pub fn remove(&mut self, recipes: &[RecipeDisplayId])
        requires
            old(self).wf(),
        ensures
            final(self).wf(),
            final(self).entries() == entries_after_remove(old(self).entries(), recipes@),
            final(self).highlighted_ids() == old(self).highlighted_ids().difference(
                recipes@.map_values(|id: RecipeDisplayId| id.0).to_set(),
            ),
            final(self).spec_generation() == old(self).spec_generation(),
            final(self).spec_revision() == wrapping_next(old(self).spec_revision()),
            final(self).spec_settings() == old(self).spec_settings(),
            final(self).spec_item_sets() == old(self).spec_item_sets(),
            final(self).spec_stonecutter_recipes() == old(self).spec_stonecutter_recipes(),
            final(self).spec_ghost_recipe() == old(self).spec_ghost_recipe(),
            final(self).spec_ghost_revision() == old(self).spec_ghost_revision(),
    {
        let mut i: usize = 0;
        while i < recipes.len()
            invariant
                i <= recipes@.len(),
                entries_wf(recipe_entries(self.recipes)),
                recipe_entries(self.recipes) == entries_after_remove(
                    recipe_entries(old(self).recipes),
                    recipes@.take(i as int),
                ),
                self.highlighted@ == old(self).highlighted@.difference(
                    recipes@.take(i as int).map_values(|id: RecipeDisplayId| id.0).to_set(),
                ),
                self.generation == old(self).generation,
                self.revision == old(self).revision,
                self.settings == old(self).settings,
                self.item_sets == old(self).item_sets,
                self.stonecutter_recipes == old(self).stonecutter_recipes,
                self.ghost_recipe == old(self).ghost_recipe,
                self.ghost_revision == old(self).ghost_revision,
            decreases recipes@.len() - i,
        {
            let id = recipes[i];
            proof {
                assert(recipes@.take(i + 1).drop_last() =~= recipes@.take(i as int));
                lemma_remove_wf(recipe_entries(self.recipes), id.0);
                let sb = recipes@.take(i as int).map_values(|id: RecipeDisplayId| id.0);
                let sp = recipes@.take(i + 1).map_values(|id: RecipeDisplayId| id.0);
                assert(sp =~= sb.push(id.0));
                assert forall|x: u32| sp.to_set().contains(x) == sb.to_set().insert(id.0).contains(x) by {
                    if sb.contains(x) {
                        let k = choose|k: int| 0 <= k < sb.len() && sb[k] == x;
                        assert(sp[k] == x);
                    }
                    if x == id.0 {
                        assert(sp[sb.len() as int] == x);
                    }
                    if sp.contains(x) {
                        let k = choose|k: int| 0 <= k < sp.len() && sp[k] == x;
                        if k < sb.len() {
                            assert(sb[k] == x);
                        }
                    }
                }
                assert(sp.to_set() =~= sb.to_set().insert(id.0));
                assert(old(self).highlighted@.difference(sb.to_set()).remove(id.0) =~= old(
                    self,
                ).highlighted@.difference(sp.to_set()));
            }
            recipe_map_shift_remove(&mut self.recipes, id.0);
            self.highlighted.remove(&id.0);
            i = i + 1;
        }
        proof {
            assert(recipes@.take(i as int) =~= recipes@);
        }
        self.revision = next_u64(self.revision);
    }

    /// Take the recipe book settings the server sent.
    pub fn set_settings(&mut self, settings: RecipeBookSettings)
        ensures
            final(self).spec_settings() == settings,
            final(self).spec_revision() == wrapping_next(old(self).spec_revision()),
            final(self).entries() == old(self).entries(),
            final(self).highlighted_ids() == old(self).highlighted_ids(),
            final(self).spec_generation() == old(self).spec_generation(),
            final(self).spec_item_sets() == old(self).spec_item_sets(),
            final(self).spec_stonecutter_recipes() == old(self).spec_stonecutter_recipes(),
            final(self).spec_ghost_recipe() == old(self).spec_ghost_recipe(),
            final(self).spec_ghost_revision() == old(self).spec_ghost_revision(),
    {
        self.settings = settings;
        self.revision = next_u64(self.revision);
    }

    /// Take a ghost recipe the server showed.
    pub fn set_ghost_recipe(&mut self, ghost_recipe: GhostRecipe)
        ensures
            final(self).spec_ghost_recipe() == Some(ghost_recipe),
            final(self).spec_ghost_revision() == wrapping_next(old(self).spec_ghost_revision()),
            final(self).spec_revision() == wrapping_next(old(self).spec_revision()),
            final(self).entries() == old(self).entries(),
            final(self).highlighted_ids() == old(self).highlighted_ids(),
            final(self).spec_generation() == old(self).spec_generation(),
            final(self).spec_settings() == old(self).spec_settings(),
            final(self).spec_item_sets() == old(self).spec_item_sets(),
            final(self).spec_stonecutter_recipes() == old(self).spec_stonecutter_recipes(),
    {
        self.ghost_recipe = Some(ghost_recipe);
        self.ghost_revision = next_u64(self.ghost_revision);
        self.revision = next_u64(self.revision);
    }
}

/// Inserting under a key leaves a recipe book entry that holds exactly the
/// inserted value under that key.
pub proof fn lemma_insert_then_get(s: Seq<(u32, RecipeDisplayEntry)>, e: RecipeDisplayEntry)
    requires
        entries_wf(s),
    ensures
        has_key(entries_insert(s, e.id.0, e), e.id.0),
        entries_insert(s, e.id.0, e)[key_index(entries_insert(s, e.id.0, e), e.id.0)].1 == e,
{
    let k = e.id.0;
    let t = entries_insert(s, k, e);
    lemma_insert_wf(s, e);
    if has_key(s, k) {
        let p = key_index(s, k);
        assert(t[p].0 == k);
    } else {
        assert(t[s.len() as int].0 == k);
    }
    let q = key_index(t, k);
    if has_key(s, k) {
        assert(t[q].0 == t[key_index(s, k)].0);
    } else {
        assert(t[q].0 == t[s.len() as int].0);
    }
}

/// Inserting under one key leaves what is held under every other key as it
/// was.
pub proof fn lemma_insert_keeps_others(s: Seq<(u32, RecipeDisplayEntry)>, e: RecipeDisplayEntry, k: u32)
    requires
        entries_wf(s),
        k != e.id.0,
    ensures
        has_key(entries_insert(s, e.id.0, e), k) == has_key(s, k),
        has_key(s, k) ==> entries_insert(s, e.id.0, e)[key_index(
            entries_insert(s, e.id.0, e),
            k,
        )] == s[key_index(s, k)],
{
    let t = entries_insert(s, e.id.0, e);
    lemma_insert_wf(s, e);
    if has_key(s, k) {
        let p = key_index(s, k);
        assert(t[p] == s[p]);
        let q = key_index(t, k);
        assert(t[q].0 == t[p].0);
    }
    if has_key(t, k) {
        let q = key_index(t, k);
        assert(q < s.len());
        assert(s[q].0 == k);
    }
}

/// Removing a key leaves no entry under it.
pub proof fn lemma_remove_then_absent(s: Seq<(u32, RecipeDisplayEntry)>, k: u32)
    requires
        entries_wf(s),
    ensures
        !has_key(entries_remove(s, k), k),
{
    if has_key(s, k) {
        let p = key_index(s, k);
        let t = s.remove(p);
        if has_key(t, k) {
            let q = key_index(t, k);
            if q < p {
                assert(t[q] == s[q]);
            } else {
                assert(t[q] == s[q + 1]);
            }
        }
    }
}

/// Removing a key brings back no other key.
pub proof fn lemma_remove_adds_nothing(s: Seq<(u32, RecipeDisplayEntry)>, r: u32, k: u32)
    requires
        entries_wf(s),
    ensures
        has_key(entries_remove(s, r), k) ==> has_key(s, k),
{
    if has_key(s, r) && has_key(entries_remove(s, r), k) {
        let p = key_index(s, r);
        let t = s.remove(p);
        let q = key_index(t, k);
        if q < p {
            assert(s[q].0 == k);
        } else {
            assert(s[q + 1].0 == k);
        }
    }
}

/// Adding recipes keeps the entries well formed.
pub proof fn lemma_add_wf(s: Seq<(u32, RecipeDisplayEntry)>, adds: Seq<(RecipeDisplayEntry, u8)>)
    requires
        entries_wf(s),
    ensures
        entries_wf(entries_after_add(s, adds)),
    decreases adds.len(),
{
    if adds.len() > 0 {
        lemma_add_wf(s, adds.drop_last());
        lemma_insert_wf(entries_after_add(s, adds.drop_last()), adds.last().0);
    }
}

/// After the server adds recipes, the book holds under each id the last
/// entry added with that id, and highlights it exactly when that entry's
/// flags have bit 2 set.
pub proof fn lemma_add_last_wins(
    s: Seq<(u32, RecipeDisplayEntry)>,
    h: Set<u32>,
    adds: Seq<(RecipeDisplayEntry, u8)>,
    i: int,
)
    requires
        entries_wf(s),
        0 <= i < adds.len(),
        forall|j: int| i < j < adds.len() ==> (#[trigger] adds[j]).0.id.0 != adds[i].0.id.0,
    ensures
        has_key(entries_after_add(s, adds), adds[i].0.id.0),
        entries_after_add(s, adds)[key_index(entries_after_add(s, adds), adds[i].0.id.0)].1
            == adds[i].0,
        highlights_after_add(h, adds).contains(adds[i].0.id.0) == (adds[i].1 & 2 != 0),
    decreases adds.len(),
{
    let k = adds[i].0.id.0;
    let prefix = adds.drop_last();
    let p = entries_after_add(s, prefix);
    lemma_add_wf(s, prefix);
    if i == adds.len() - 1 {
        lemma_insert_then_get(p, adds.last().0);
    } else {
        assert forall|j: int| i < j < prefix.len() implies (#[trigger] prefix[j]).0.id.0 != prefix[i].0.id.0 by {
            assert(prefix[j] == adds[j]);
        }
        lemma_add_last_wins(s, h, prefix, i);
        assert(prefix[i] == adds[i]);
        let last = adds.last();
        assert(last == adds[adds.len() - 1]);
        lemma_insert_keeps_others(p, last.0, k);
    }
}

/// After the server removes recipes, the book holds none of their ids.
pub proof fn lemma_removed_ids_absent(s: Seq<(u32, RecipeDisplayEntry)>, ids: Seq<RecipeDisplayId>, i: int)
    requires
        entries_wf(s),
        0 <= i < ids.len(),
    ensures
        !has_key(entries_after_remove(s, ids), ids[i].0),
    decreases ids.len(),
{
    let prefix = ids.drop_last();
    lemma_remove_wf_all(s, prefix);
    let p = entries_after_remove(s, prefix);
    if i == ids.len() - 1 {
        lemma_remove_then_absent(p, ids.last().0);
    } else {
        lemma_removed_ids_absent(s, prefix, i);
        assert(prefix[i] == ids[i]);
        lemma_remove_adds_nothing(p, ids.last().0, ids[i].0);
    }
}

/// Removing recipes keeps the entries well formed.
pub proof fn lemma_remove_wf_all(s: Seq<(u32, RecipeDisplayEntry)>, ids: Seq<RecipeDisplayId>)
    requires
        entries_wf(s),
    ensures
        entries_wf(entries_after_remove(s, ids)),
    decreases ids.len(),
{
    if ids.len() > 0 {
        lemma_remove_wf_all(s, ids.drop_last());
        lemma_remove_wf(entries_after_remove(s, ids.drop_last()), ids.last().0);
    }
}

/// A recipe read in one generation is not valid in a book of another
/// generation, whatever the book holds.
pub proof fn lemma_other_generation_rejects_recipe(book: RecipeBook, recipe: Recipe)
    requires
        recipe.spec_generation() != book.spec_generation(),
    ensures
        !book.spec_contains(recipe),
{
}

/// A replacing add or new recipe data leaves no recipe read before valid:
/// both move the book to a generation other than its old one, so a recipe
/// read in the old generation is stale, whatever entries are added again
/// afterwards. Adds without replacing, removals, settings and ghost recipes
/// keep the generation, so it stays stale through them; and when every book
/// draws from one counter, no later generation equals it either (see
/// [`lemma_earlier_session_recipe_stays_stale`]).
pub proof fn lemma_replace_leaves_no_earlier_recipe_valid(
    before: RecipeBook,
    after: RecipeBook,
    recipe: Recipe,
)
    requires
        recipe.spec_generation() == before.spec_generation(),
        after.spec_generation() != before.spec_generation(),
    ensures
        !after.spec_contains(recipe),
{
}

/// A recipe of an earlier session is never valid again. Every new book and
/// every book that starts a new generation draws it from the one counter,
/// and the counter's numbers only grow (until they run out at `u64::MAX`):
/// so a recipe read before the counter reached `counter.spec_next()` is
/// stale in every book whose generation was drawn from then on, even one
/// that holds an equal entry under its id.
pub proof fn lemma_earlier_session_recipe_stays_stale(
    recipe: Recipe,
    counter: GenerationCounter,
    book: RecipeBook,
)
    requires
        recipe.spec_generation() < counter.spec_next(),
        counter.spec_next() <= book.spec_generation(),
    ensures
        !book.spec_contains(recipe),
{
}

/// A recipe the book hands out is valid in it, unless its display holds a
/// NaN experience (which equals nothing, itself included).
pub proof fn lemma_read_recipe_is_contained(book: RecipeBook, recipe: Recipe)
    requires
        book.wf(),
        has_key(book.entries(), recipe.spec_entry().id.0),
        recipe.spec_generation() == book.spec_generation(),
        same_entry(
            book.entries()[key_index(book.entries(), recipe.spec_entry().id.0)].1,
            recipe.spec_entry(),
        ),
        !has_nan_experience(recipe.spec_entry().display),
    ensures
        book.spec_contains(recipe),
{
}

/// Removing one key leaves what is held under every other key as it was.
proof fn lemma_remove_keeps_others(s: Seq<(u32, RecipeDisplayEntry)>, r: u32, k: u32)
    requires
        entries_wf(s),
        r != k,
    ensures
        has_key(entries_remove(s, r), k) == has_key(s, k),
        has_key(s, k) ==> entries_remove(s, r)[key_index(entries_remove(s, r), k)] == s[key_index(
            s,
            k,
        )],
{
    lemma_remove_wf(s, r);
    lemma_remove_adds_nothing(s, r, k);
    if has_key(s, r) && has_key(s, k) {
        let p = key_index(s, r);
        let q = key_index(s, k);
        let t = s.remove(p);
        let q2 = if q < p {
            q
        } else {
            q - 1
        };
        assert(q != p);
        assert(t[q2] == s[q]);
        let q3 = key_index(t, k);
        assert(t[q3].0 == t[q2].0);
    }
}

/// Whether the book's contents under `recipe`'s id, and its generation,
/// are the same in `a` and `b`: then `recipe` is valid in both or in
/// neither.
pub open spec fn same_for_recipe(a: RecipeBook, b: RecipeBook, recipe: Recipe) -> bool {
    let k = recipe.spec_entry().id.0;
    &&& a.spec_generation() == b.spec_generation()
    &&& has_key(a.entries(), k) == has_key(b.entries(), k)
    &&& has_key(a.entries(), k) ==> a.entries()[key_index(a.entries(), k)] == b.entries()[key_index(
        b.entries(),
        k,
    )]
}

/// Whether a recipe is valid in a book depends only on the book's
/// generation and on what it holds under the recipe's id; so settings and
/// ghost recipes, which change neither, leave it as it was.
pub proof fn lemma_contains_depends_on_its_id_only(a: RecipeBook, b: RecipeBook, recipe: Recipe)
    requires
        same_for_recipe(a, b, recipe),
    ensures
        a.spec_contains(recipe) == b.spec_contains(recipe),
{
}

/// Adding entries under other ids, without a new generation, leaves every
/// recipe as valid or as stale as it was.
pub proof fn lemma_contains_survives_adding_other_ids(
    before: RecipeBook,
    after: RecipeBook,
    adds: Seq<(RecipeDisplayEntry, u8)>,
    recipe: Recipe,
)
    requires
        before.wf(),
        after.entries() == entries_after_add(before.entries(), adds),
        after.spec_generation() == before.spec_generation(),
        forall|j: int| 0 <= j < adds.len() ==> (#[trigger] adds[j]).0.id.0 != recipe.spec_entry().id.0,
    ensures
        after.spec_contains(recipe) == before.spec_contains(recipe),
{
    lemma_add_keeps_other_ids(before.entries(), adds, recipe.spec_entry().id.0);
}

proof fn lemma_add_keeps_other_ids(s: Seq<(u32, RecipeDisplayEntry)>, adds: Seq<(RecipeDisplayEntry, u8)>, k: u32)
    requires
        entries_wf(s),
        forall|j: int| 0 <= j < adds.len() ==> (#[trigger] adds[j]).0.id.0 != k,
    ensures
        has_key(entries_after_add(s, adds), k) == has_key(s, k),
        has_key(s, k) ==> entries_after_add(s, adds)[key_index(entries_after_add(s, adds), k)]
            == s[key_index(s, k)],
    decreases adds.len(),
{
    if adds.len() > 0 {
        let prefix = adds.drop_last();
        assert forall|j: int| 0 <= j < prefix.len() implies (#[trigger] prefix[j]).0.id.0 != k by {
            assert(prefix[j] == adds[j]);
        }
        lemma_add_keeps_other_ids(s, prefix, k);
        lemma_add_wf(s, prefix);
        assert(adds.last() == adds[adds.len() - 1]);
        lemma_insert_keeps_others(entries_after_add(s, prefix), adds.last().0, k);
    }
}

/// Removing other ids leaves every recipe as valid or as stale as it was.
pub proof fn lemma_contains_survives_removing_other_ids(
    before: RecipeBook,
    after: RecipeBook,
    ids: Seq<RecipeDisplayId>,
    recipe: Recipe,
)
    requires
        before.wf(),
        after.entries() == entries_after_remove(before.entries(), ids),
        after.spec_generation() == before.spec_generation(),
        forall|j: int| 0 <= j < ids.len() ==> (#[trigger] ids[j]).0 != recipe.spec_entry().id.0,
    ensures
        after.spec_contains(recipe) == before.spec_contains(recipe),
{
    lemma_remove_keeps_other_ids(before.entries(), ids, recipe.spec_entry().id.0);
}

proof fn lemma_remove_keeps_other_ids(s: Seq<(u32, RecipeDisplayEntry)>, ids: Seq<RecipeDisplayId>, k: u32)
    requires
        entries_wf(s),
        forall|j: int| 0 <= j < ids.len() ==> (#[trigger] ids[j]).0 != k,
    ensures
        has_key(entries_after_remove(s, ids), k) == has_key(s, k),
        has_key(s, k) ==> entries_after_remove(s, ids)[key_index(entries_after_remove(s, ids), k)]
            == s[key_index(s, k)],
    decreases ids.len(),
{
    if ids.len() > 0 {
        let prefix = ids.drop_last();
        assert forall|j: int| 0 <= j < prefix.len() implies (#[trigger] prefix[j]).0 != k by {
            assert(prefix[j] == ids[j]);
        }
        lemma_remove_keeps_other_ids(s, prefix, k);
        lemma_remove_wf_all(s, prefix);
        assert(ids.last() == ids[ids.len() - 1]);
        lemma_remove_keeps_others(entries_after_remove(s, prefix), ids.last().0, k);
    }
}

/// After its id is removed, a recipe is no longer valid.
pub proof fn lemma_removed_recipe_is_stale(
    before: RecipeBook,
    after: RecipeBook,
    ids: Seq<RecipeDisplayId>,
    i: int,
    recipe: Recipe,
)
    requires
        before.wf(),
        after.entries() == entries_after_remove(before.entries(), ids),
        0 <= i < ids.len(),
        ids[i].0 == recipe.spec_entry().id.0,
    ensures
        !after.spec_contains(recipe),
{
    lemma_removed_ids_absent(before.entries(), ids, i);
}

/// After entries are added, a recipe is valid exactly when it was read in
/// the book's generation and equals the last entry added under its id; so an
/// added entry that differs makes it stale.
pub proof fn lemma_contains_after_adding_its_id(
    before: RecipeBook,
    after: RecipeBook,
    adds: Seq<(RecipeDisplayEntry, u8)>,
    i: int,
    recipe: Recipe,
)
    requires
        before.wf(),
        after.entries() == entries_after_add(before.entries(), adds),
        0 <= i < adds.len(),
        adds[i].0.id.0 == recipe.spec_entry().id.0,
        forall|j: int| i < j < adds.len() ==> (#[trigger] adds[j]).0.id.0 != adds[i].0.id.0,
    ensures
        after.spec_contains(recipe) == (recipe.spec_generation() == after.spec_generation()
            && entry_equal(adds[i].0, recipe.spec_entry())),
{
    lemma_add_last_wins(before.entries(), Set::empty(), adds, i);
}

} // verus!
