//! Crafting through a crafting menu: the checks made before and while a
//! recipe is crafted, where the result can go, and the steps of a craft as a
//! state machine that a driver feeds with the client's inventory state.
use vstd::prelude::*;

use crate::click::{ClickOperation, PickupAllClick, PickupClick};
use crate::codec::ServerboundPlaceRecipe;
use crate::item::{ItemKind, ItemStack, ItemStackData, MaxStackSizeExt};
use crate::menu::Menu;
use crate::recipe::{recipe_display_eq, recipe_display_equal, same_entry, same_recipe_display};
use crate::recipe_book::{
    display_fits_crafting_grid, entries_for, entry_result, GhostRecipe, Recipe, RecipeBook,
};

verus! {

/// A finished craft: the result that went into the player's inventory.
#[derive(Clone, Copy, Debug, PartialEq, Eq, Structural)]
pub struct CraftOutcome {
    pub result: ItemStack,
}

/// Why a craft did not happen, or did not finish.
#[derive(Debug)]
pub enum CraftError {
    /// The client lacks some of its state; the name says which.
    MissingComponent(String),
    /// The recipe is no longer present in the current recipe book.
    StaleRecipe,
    /// The container is no longer current or initialized.
    StaleContainer,
    /// The current menu is not a crafting menu.
    WrongMenu,
    /// This recipe requires a crafting table.
    CraftingTableRequired,
    /// This recipe display is not supported for crafting.
    UnsupportedRecipe,
    /// The server could not place the recipe with the available ingredients.
    MissingIngredients,
    /// The crafted result does not fit in the player inventory.
    InventoryFull,
    /// The cursor must be empty before crafting.
    CursorOccupied,
    /// A matching result was already present, so recipe placement cannot be
    /// verified.
    PreexistingResult,
    /// Another crafting operation is already active for this client.
    Busy,
    /// The server rejected or corrected the result click.
    Rejected,
    /// The crafting operation was interrupted.
    Interrupted,
    /// The crafting operation timed out; its final outcome is indeterminate.
    Timeout,
}

/// The first recipe of the book that makes `result`.
pub fn recipe_for(book: &RecipeBook, result: ItemKind) -> (r: Option<Recipe>)
    requires
        book.wf(),
    ensures
        match r {
            Some(recipe) => {
                &&& entries_for(book.entries(), result).len() > 0
                &&& recipe.spec_generation() == book.spec_generation()
                &&& same_entry(
                    entries_for(book.entries(), result)[0],
                    recipe.spec_entry(),
                )
            },
            None => entries_for(book.entries(), result).len() == 0,
        },
{
    let mut all = book.recipes_for(result);
    if all.len() == 0 {
        None
    } else {
        Some(all.remove(0))
    }
}

/// Every recipe of the book that makes `result`.
pub fn recipes_for(book: &RecipeBook, result: ItemKind) -> (r: Vec<Recipe>)
    requires
        book.wf(),
    ensures
        r@.len() == entries_for(book.entries(), result).len(),
        forall|i: int|
            0 <= i < r@.len() ==> (#[trigger] r@[i]).spec_generation() == book.spec_generation()
                && same_entry(entries_for(book.entries(), result)[i], r@[i].spec_entry()),
{
    book.recipes_for(result)
}

/// Whether a menu is the one a crafting table opens.
pub fn is_crafting_table_menu(menu: Option<&Menu>) -> (b: bool)
    ensures
        b == (menu matches Some(m) && m is Crafting),
{
    match menu {
        Some(Menu::Crafting { .. }) => true,
        _ => false,
    }
}

/// How many more items like `expected` a slot can take: a full stack when
/// it is empty, the rest of the stack when it holds the same item, and none
/// otherwise.
pub open spec fn slot_capacity(slot: ItemStack, expected: ItemStackData) -> int {
    match slot {
        ItemStack::Empty => expected.spec_max_stack_size(),
        ItemStack::Present(s) => if s.same_item(expected) {
            expected.spec_max_stack_size() - s.count
        } else {
            0
        },
    }
}

/// How many more items like `expected` the slots can take together.
pub open spec fn total_capacity(slots: Seq<ItemStack>, expected: ItemStackData) -> int
    decreases slots.len(),
{
    if slots.len() == 0 {
        0
    } else {
        total_capacity(slots.drop_last(), expected) + slot_capacity(slots.last(), expected)
    }
}

/// The capacities, and the running sums of them, fit in an `i32`.
pub open spec fn capacity_fits_i32(slots: Seq<ItemStack>, expected: ItemStack) -> bool {
    expected matches ItemStack::Present(e) ==> {
        &&& forall|i: int| 0 <= i < slots.len() ==> i32::MIN <= #[trigger] slot_capacity(slots[i], e) <= i32::MAX
        &&& forall|k: int| 0 <= k <= slots.len() ==> i32::MIN <= #[trigger] total_capacity(slots.take(k), e) <= i32::MAX
    }
}

/// Whether the slots can take all of `expected`.
pub open spec fn spec_can_fit(slots: Seq<ItemStack>, expected: ItemStack) -> bool {
    match expected {
        ItemStack::Empty => false,
        ItemStack::Present(e) => total_capacity(slots, e) >= e.count,
    }
}

/// Whether the slots can take all of `expected`, spread over as many stacks
/// as needed; never for an empty `expected`.
pub fn can_fit(slots: &[ItemStack], expected: &ItemStack) -> (r: bool)
    requires
        capacity_fits_i32(slots@, *expected),
    ensures
        r == spec_can_fit(slots@, *expected),
{
    match expected.as_present() {
        None => false,
        Some(e) => {
            let max = e.max_stack_size();
            let mut capacity: i32 = 0;
            let mut i: usize = 0;
            while i < slots.len()
                invariant
                    *expected == ItemStack::Present(*e),
                    capacity_fits_i32(slots@, *expected),
                    max == e.spec_max_stack_size(),
                    i <= slots@.len(),
                    capacity == total_capacity(slots@.take(i as int), *e),
                decreases slots@.len() - i,
            {
                proof {
                    assert(slots@.take(i + 1).drop_last() =~= slots@.take(i as int));
                    assert(slots@.take(i + 1).last() == slots@[i as int]);
                    assert(i32::MIN <= slot_capacity(slots@[i as int], *e) <= i32::MAX);
                    assert(i32::MIN <= total_capacity(slots@.take(i + 1), *e) <= i32::MAX);
                }
                let c: i32 = match &slots[i] {
                    ItemStack::Empty => max,
                    ItemStack::Present(s) => {
                        if s.is_same_item_and_components(e) {
                            max - s.count
                        } else {
                            0
                        }
                    },
                };
                capacity = capacity + c;
                i = i + 1;
            }
            proof {
                assert(slots@.take(i as int) =~= slots@);
            }
            capacity >= e.count
        },
    }
}

/// Whether a slot holds a stack that `carried` can be added to.
pub open spec fn can_stack_onto(slot: ItemStack, carried: ItemStackData) -> bool {
    slot matches ItemStack::Present(s) && s.same_item(carried) && s.count
        < carried.spec_max_stack_size()
}

/// Where the carried stack goes: the first player slot holding a stack it
/// can be added to, else the first empty player slot, else nowhere. With
/// nothing carried, nowhere.
pub open spec fn spec_destination_slot(menu: Menu, carried: ItemStack) -> Option<usize> {
    let range = menu.spec_kind().spec_player_slots();
    let slots = menu@;
    match carried {
        ItemStack::Empty => None,
        ItemStack::Present(c) => if exists|i: int|
            range.spec_contains(i) && can_stack_onto(#[trigger] slots[i], c) {
            Some(
                (choose|i: int|
                    range.spec_contains(i) && can_stack_onto(#[trigger] slots[i], c) && forall|j: int|
                        range.start <= j < i ==> !can_stack_onto(#[trigger] slots[j], c)) as usize,
            )
        } else if exists|i: int| range.spec_contains(i) && (#[trigger] slots[i]).spec_is_empty() {
            Some(
                (choose|i: int|
                    range.spec_contains(i) && (#[trigger] slots[i]).spec_is_empty() && forall|j: int|
                        range.start <= j < i ==> !(#[trigger] slots[j]).spec_is_empty()) as usize,
            )
        } else {
            None
        },
    }
}

/// Where a click should put the carried stack: the first player slot it can
/// be added to, else the first empty player slot.
pub fn destination_slot(menu: &Menu, carried: &ItemStack) -> (r: Option<usize>)
    ensures
        r == spec_destination_slot(*menu, *carried),
        r matches Some(i) ==> menu.spec_kind().spec_player_slots().spec_contains(i as int),
{
    let ghost slots = menu@;
    let ghost range = menu.spec_kind().spec_player_slots();
    let c = match carried.as_present() {
        None => {
            return None;
        },
        Some(c) => c,
    };
    proof {
        menu.spec_kind().lemma_player_slots();
        menu.lemma_len();
        assert(menu.spec_kind().spec_len() <= 100);
    }
    let range_x = menu.player_slots_range();
    let max = c.max_stack_size();
    let mut i: usize = range_x.start;
    while i <= range_x.end
        invariant
            range_x == range,
            range == menu.spec_kind().spec_player_slots(),
            range.start <= i <= range.end + 1,
            range.end < slots.len(),
            slots.len() <= 100,
            slots == menu@,
            *carried == ItemStack::Present(*c),
            max == c.spec_max_stack_size(),
            forall|j: int| range.start <= j < i ==> !can_stack_onto(#[trigger] slots[j], *c),
        decreases range.end + 1 - i,
    {
        let s = menu.slot(i).unwrap();
        let fits = match s {
            ItemStack::Present(d) => d.is_same_item_and_components(c) && d.count < max,
            ItemStack::Empty => false,
        };
        if fits {
            proof {
                assert(*s == slots[i as int]);
                assert(can_stack_onto(slots[i as int], *c));
                let p = |k: int|
                    range.spec_contains(k) && can_stack_onto(slots[k], *c) && forall|j: int|
                        range.start <= j < k ==> !can_stack_onto(#[trigger] slots[j], *c);
                assert(p(i as int));
                let k = choose|k: int|
                    range.spec_contains(k) && can_stack_onto(#[trigger] slots[k], *c) && forall|j: int|
                        range.start <= j < k ==> !can_stack_onto(#[trigger] slots[j], *c);
                assert(p(k));
                if k < i {
                    assert(!can_stack_onto(slots[k], *c));
                }
                if i < k {
                    assert(!can_stack_onto(slots[i as int], *c));
                }
                assert(k == i);
            }
            return Some(i);
        }
        i = i + 1;
    }
    let mut i: usize = range_x.start;
    while i <= range_x.end
        invariant
            range_x == range,
            range == menu.spec_kind().spec_player_slots(),
            range.start <= i <= range.end + 1,
            range.end < slots.len(),
            slots.len() <= 100,
            slots == menu@,
            *carried == ItemStack::Present(*c),
            forall|j: int| range.spec_contains(j) ==> !can_stack_onto(#[trigger] slots[j], *c),
            forall|j: int| range.start <= j < i ==> !(#[trigger] slots[j]).spec_is_empty(),
        decreases range.end + 1 - i,
    {
        let s = menu.slot(i).unwrap();
        if s.is_empty() {
            proof {
                assert(*s == slots[i as int]);
                let p = |k: int|
                    range.spec_contains(k) && slots[k].spec_is_empty() && forall|j: int|
                        range.start <= j < k ==> !(#[trigger] slots[j]).spec_is_empty();
                assert(p(i as int));
                let k = choose|k: int|
                    range.spec_contains(k) && (#[trigger] slots[k]).spec_is_empty() && forall|j: int|
                        range.start <= j < k ==> !(#[trigger] slots[j]).spec_is_empty();
                assert(p(k));
                if k < i {
                    assert(!slots[k].spec_is_empty());
                }
                if i < k {
                    assert(!slots[i as int].spec_is_empty());
                }
                assert(k == i);
            }
            return Some(i);
        }
        i = i + 1;
    }
    None
}

/// What the client knows of its open container at one moment.
#[derive(Clone, Copy, Debug)]
pub struct InventoryState {
    /// The id of the open container (0 for the player's own inventory).
    pub id: i32,
    /// The open menu's slots.
    pub menu: Menu,
    /// The stack on the cursor.
    pub carried: ItemStack,
    /// Changes whenever a different menu opens.
    pub menu_generation: u64,
    /// Whether the server has sent the open container's full contents.
    pub initialized: bool,
    /// Changes whenever the server sends a menu's full contents.
    pub full_content_revision: u64,
}

/// What a craft looks at after each tick.
#[derive(Debug)]
pub struct CraftSnapshot {
    /// The result slot (slot 0).
    pub result: ItemStack,
    /// The stack on the cursor.
    pub carried: ItemStack,
    /// Where a click would put the carried stack.
    pub destination: Option<usize>,
    /// Whether the player slots can take the expected result.
    pub can_fit_result: bool,
    pub full_content_revision: u64,
    pub ghost_revision: u64,
    pub ghost_recipe: Option<GhostRecipe>,
}

/// The player slots of a menu.
pub open spec fn player_slots(menu: Menu) -> Seq<ItemStack> {
    let range = menu.spec_kind().spec_player_slots();
    menu@.subrange(range.start as int, range.end + 1)
}

/// Why the client cannot craft `recipe` in its open container now, if it
/// cannot: the container changed, its contents are not known, the recipe is
/// stale, or the recipe does not fit the menu (a 2x2 grid in the player's
/// inventory, a 3x3 grid at a crafting table, and no other menu).
pub open spec fn craft_blocker(
    state: InventoryState,
    book: RecipeBook,
    container_id: i32,
    menu_generation: u64,
    recipe: Recipe,
) -> Option<CraftError> {
    if state.id != container_id {
        Some(CraftError::Interrupted)
    } else if state.menu_generation != menu_generation {
        Some(CraftError::StaleContainer)
    } else if !state.initialized {
        Some(CraftError::StaleContainer)
    } else if !book.spec_contains(recipe) {
        Some(CraftError::StaleRecipe)
    } else {
        match state.menu {
            Menu::Player(_) => if !display_fits_crafting_grid(recipe.spec_entry().display, 2, 2) {
                Some(CraftError::CraftingTableRequired)
            } else {
                None
            },
            Menu::Crafting { .. } => if !display_fits_crafting_grid(
                recipe.spec_entry().display,
                3,
                3,
            ) {
                Some(CraftError::UnsupportedRecipe)
            } else {
                None
            },
            _ => Some(CraftError::WrongMenu),
        }
    }
}

/// Check that `recipe` can be crafted in the open container, and take a
/// snapshot of what a craft of `expected` looks at.
pub fn craft_snapshot(
    state: &InventoryState,
    book: &RecipeBook,
    container_id: i32,
    menu_generation: u64,
    recipe: &Recipe,
    expected: &ItemStack,
) -> (r: Result<CraftSnapshot, CraftError>)
    requires
        book.wf(),
        capacity_fits_i32(player_slots(state.menu), *expected),
    ensures
        match craft_blocker(*state, *book, container_id, menu_generation, *recipe) {
            Some(e) => r matches Err(f) && f == e,
            None => r matches Ok(snap) && {
                &&& snap.result == state.menu@[0]
                &&& snap.carried == state.carried
                &&& snap.destination == spec_destination_slot(state.menu, state.carried)
                &&& snap.can_fit_result == spec_can_fit(player_slots(state.menu), *expected)
                &&& snap.full_content_revision == state.full_content_revision
                &&& snap.ghost_revision == book.spec_ghost_revision()
                &&& match book.spec_ghost_recipe() {
                    Some(g) => snap.ghost_recipe matches Some(h) && h.container_id == g.container_id
                        && same_recipe_display(g.recipe, h.recipe),
                    None => snap.ghost_recipe is None,
                }
            },
        },
{
    if state.id != container_id {
        return Err(CraftError::Interrupted);
    }
    if state.menu_generation != menu_generation {
        return Err(CraftError::StaleContainer);
    }
    if !state.initialized {
        return Err(CraftError::StaleContainer);
    }
    if !book.contains(recipe) {
        return Err(CraftError::StaleRecipe);
    }
    match &state.menu {
        Menu::Player(_) => {
            if !recipe.fits_crafting_grid(2, 2) {
                return Err(CraftError::CraftingTableRequired);
            }
        },
        Menu::Crafting { .. } => {
            if !recipe.fits_crafting_grid(3, 3) {
                return Err(CraftError::UnsupportedRecipe);
            }
        },
        _ => {
            return Err(CraftError::WrongMenu);
        },
    }
    proof {
        state.menu.spec_kind().lemma_player_slots();
        state.menu.lemma_len();
    }
    let all = state.menu.slots();
    let range = state.menu.player_slots_range();
    let mut player: Vec<ItemStack> = Vec::new();
    let mut i: usize = range.start;
    while i <= range.end
        invariant
            range == state.menu.spec_kind().spec_player_slots(),
            range.end < all@.len(),
            all@.len() <= 100,
            all@ == state.menu@,
            range.start <= i <= range.end + 1,
            player@ == all@.subrange(range.start as int, i as int),
        decreases range.end + 1 - i,
    {
        player.push(all[i]);
        i = i + 1;
    }
    let can_fit_result = can_fit(player.as_slice(), expected);
    let result = match state.menu.slot(0) {
        Some(s) => *s,
        None => ItemStack::Empty,
    };
    let ghost_recipe = match book.ghost_recipe() {
        Some(g) => Some(g.clone()),
        None => None,
    };
    Ok(
        CraftSnapshot {
            result,
            carried: state.carried,
            destination: destination_slot(&state.menu, &state.carried),
            can_fit_result,
            full_content_revision: state.full_content_revision,
            ghost_revision: book.ghost_revision(),
            ghost_recipe,
        },
    )
}

/// A request to the server to fill a crafting menu with a recipe.
#[derive(Debug)]
pub struct PlaceRecipeRequest {
    pub container_id: i32,
    pub menu_generation: u64,
    pub recipe: Recipe,
    pub use_max_items: bool,
}

impl PlaceRecipeRequest {
    /// The packet that carries the request: the recipe goes by its numeric
    /// display id, and `use_max_items` is sent as `shift_down`.
    pub fn to_packet(&self) -> (p: ServerboundPlaceRecipe)
        ensures
            p.container_id == self.container_id,
            p.recipe == self.recipe.spec_entry().id,
            p.shift_down == self.use_max_items,
    {
        ServerboundPlaceRecipe {
            container_id: self.container_id,
            recipe: self.recipe.id(),
            shift_down: self.use_max_items,
        }
    }
}

/// Check that `recipe` can be placed in the open container, and make the
/// request that asks the server to place it.
pub fn place_recipe(
    state: &InventoryState,
    book: &RecipeBook,
    container_id: i32,
    menu_generation: u64,
    recipe: &Recipe,
    use_max_items: bool,
) -> (r: Result<PlaceRecipeRequest, CraftError>)
    requires
        book.wf(),
        entry_result(recipe.spec_entry()) matches Some(expected) ==> capacity_fits_i32(
            player_slots(state.menu),
            expected,
        ),
    ensures
        match entry_result(recipe.spec_entry()) {
            None => r matches Err(e) && e == CraftError::UnsupportedRecipe,
            Some(_) => match craft_blocker(*state, *book, container_id, menu_generation, *recipe) {
                Some(e) => r matches Err(f) && f == e,
                None => r matches Ok(req) && {
                    &&& req.container_id == container_id
                    &&& req.menu_generation == menu_generation
                    &&& req.use_max_items == use_max_items
                    &&& req.recipe.spec_generation() == recipe.spec_generation()
                    &&& same_entry(recipe.spec_entry(), req.recipe.spec_entry())
                },
            },
        },
{
    let expected = match recipe.result() {
        Some(e) => e,
        None => {
            return Err(CraftError::UnsupportedRecipe);
        },
    };
    match craft_snapshot(state, book, container_id, menu_generation, recipe, &expected) {
        Err(e) => Err(e),
        Ok(_) => Ok(
            PlaceRecipeRequest {
                container_id,
                menu_generation,
                recipe: recipe.clone(),
                use_max_items,
            },
        ),
    }
}

/// Whether a craft is under way for a client: only one at a time is.
#[derive(Clone, Copy, Debug)]
pub struct CraftOperationState {
    active: bool,
}

impl CraftOperationState {
    pub closed spec fn spec_active(self) -> bool {
        self.active
    }

    /// No craft under way.
    pub fn new() -> (s: CraftOperationState)
        ensures
            !s.spec_active(),
    {
        CraftOperationState { active: false }
    }

    /// Whether a craft is under way.
    pub fn is_active(&self) -> (b: bool)
        ensures
            b == self.spec_active(),
    {
        self.active
    }
}

/// Start a craft: refused with `Busy` while another one is under way.
pub fn acquire_craft_guard(state: &mut CraftOperationState) -> (r: Result<(), CraftError>)
    ensures
        final(state).spec_active(),
        old(state).spec_active() ==> (r matches Err(e) && e == CraftError::Busy),
        !old(state).spec_active() ==> r is Ok,
{
    if state.active {
        return Err(CraftError::Busy);
    }
    state.active = true;
    Ok(())
}

/// End a craft, however it ended.
pub fn release_craft_guard(state: &mut CraftOperationState)
    ensures
        !final(state).spec_active(),
{
    state.active = false;
}

/// Which part of a craft is under way.
#[derive(Clone, Copy, Debug, PartialEq, Eq, Structural)]
pub enum CraftPhase {
    /// The recipe was asked for and the result slot clicked; waiting for the
    /// server to send the menu's contents with the result in place.
    Placing,
    /// The result was clicked onto the cursor; waiting for the server to
    /// confirm it.
    Taking,
    /// The cursor stack is being clicked into the player's inventory.
    Depositing,
}

/// A craft under way.
#[derive(Debug)]
pub struct CraftState {
    pub recipe: Recipe,
    pub container_id: i32,
    /// The stack the recipe makes.
    pub expected: ItemStack,
    pub timeout_ticks: Option<usize>,
    pub elapsed_ticks: usize,
    pub phase: CraftPhase,
    /// The snapshot the next one is compared with: the first one while
    /// placing, and the last one that made progress after that.
    pub baseline: CraftSnapshot,
}

/// What a craft does after a tick.
#[derive(Debug)]
pub enum CraftStep {
    /// The craft goes on; the click, if there is one, is to be sent now.
    Continue(CraftState, Option<ClickOperation>),
    /// The craft is over.
    Done(Result<CraftOutcome, CraftError>),
}

/// The click that takes the result slot's stack onto the cursor.
pub open spec fn take_result_click() -> ClickOperation {
    ClickOperation::Pickup(PickupClick::Left { slot: Some(0) })
}

/// The checks of a craft's first snapshot: refused when the cursor holds
/// something, or when the result slot already holds the result (then
/// nothing would show that the recipe was placed).
fn craft_begin(
    recipe: Recipe,
    expected: ItemStack,
    container_id: i32,
    timeout_ticks: Option<usize>,
    initial: CraftSnapshot,
) -> (r: Result<(CraftState, ClickOperation), CraftError>)
    ensures
        !initial.carried.spec_is_empty() ==> (r matches Err(e) && e == CraftError::CursorOccupied),
        initial.carried.spec_is_empty() && initial.result == expected ==> (r matches Err(e) && e
            == CraftError::PreexistingResult),
        initial.carried.spec_is_empty() && initial.result != expected ==> (r matches Ok((s, click))
            && s == (CraftState {
            recipe,
            container_id,
            expected,
            timeout_ticks,
            elapsed_ticks: 0,
            phase: CraftPhase::Placing,
            baseline: initial,
        }) && click == ClickOperation::PickupAll(PickupAllClick { slot: 0, reversed: false })),
{
    if initial.carried.is_present() {
        return Err(CraftError::CursorOccupied);
    }
    if initial.result == expected {
        return Err(CraftError::PreexistingResult);
    }
    Ok(
        (
            CraftState {
                recipe,
                container_id,
                expected,
                timeout_ticks,
                elapsed_ticks: 0,
                phase: CraftPhase::Placing,
                baseline: initial,
            },
            ClickOperation::PickupAll(PickupAllClick { slot: 0, reversed: false }),
        ),
    )
}

/// Start a craft of `recipe` for a client whose craft flag is `op`, given the
/// first snapshot of its container (or why none could be taken). The checks
/// come in this order: another craft under way (`Busy`, and that craft stays
/// marked), a recipe that shows no result (`UnsupportedRecipe`), the
/// snapshot's own error, an occupied cursor (`CursorOccupied`), and a result
/// slot that already holds the result (`PreexistingResult`). On every error
/// but `Busy` the flag is clear again; on success it stays set until
/// [`craft_finish`], the server is to be asked to place the recipe, and the
/// returned click is to be sent, which takes the whole result slot.
pub fn craft_start(
    op: &mut CraftOperationState,
    recipe: Recipe,
    container_id: i32,
    timeout_ticks: Option<usize>,
    initial: Result<CraftSnapshot, CraftError>,
) -> (r: Result<(CraftState, ClickOperation), CraftError>)
    ensures
        old(op).spec_active() ==> (r matches Err(e) && e == CraftError::Busy)
            && final(op).spec_active(),
        !old(op).spec_active() ==> (final(op).spec_active() <==> r is Ok),
        !old(op).spec_active() ==> match entry_result(recipe.spec_entry()) {
            None => r matches Err(e) && e == CraftError::UnsupportedRecipe,
            Some(expected) => match initial {
                Err(e) => r matches Err(f) && f == e,
                Ok(snap) => if !snap.carried.spec_is_empty() {
                    r matches Err(e) && e == CraftError::CursorOccupied
                } else if snap.result == expected {
                    r matches Err(e) && e == CraftError::PreexistingResult
                } else {
                    r matches Ok((s, click)) && s == (CraftState {
                        recipe,
                        container_id,
                        expected,
                        timeout_ticks,
                        elapsed_ticks: 0,
                        phase: CraftPhase::Placing,
                        baseline: snap,
                    }) && click == ClickOperation::PickupAll(
                        PickupAllClick { slot: 0, reversed: false },
                    )
                },
            },
        },
{
    if let Err(e) = acquire_craft_guard(op) {
        return Err(e);
    }
    let expected = match recipe.result() {
        Some(e) => e,
        None => {
            release_craft_guard(op);
            return Err(CraftError::UnsupportedRecipe);
        },
    };
    let snap = match initial {
        Err(e) => {
            release_craft_guard(op);
            return Err(e);
        },
        Ok(snap) => snap,
    };
    match craft_begin(recipe, expected, container_id, timeout_ticks, snap) {
        Ok(started) => Ok(started),
        Err(e) => {
            release_craft_guard(op);
            Err(e)
        },
    }
}

/// End a craft with `result`: the client's craft flag is clear again.
pub fn craft_finish(op: &mut CraftOperationState, result: Result<CraftOutcome, CraftError>) -> (r:
    Result<CraftOutcome, CraftError>)
    ensures
        r == result,
        !final(op).spec_active(),
{
    release_craft_guard(op);
    result
}

/// With the result on the cursor: done once the cursor is empty; otherwise
/// click it into its destination slot, or fail when there is none.
pub open spec fn deposit_step(s: CraftState, elapsed: usize, cur: CraftSnapshot) -> CraftStep {
    if !cur.carried.spec_is_empty() {
        match cur.destination {
            None => CraftStep::Done(Err(CraftError::InventoryFull)),
            Some(d) => CraftStep::Continue(
                CraftState {
                    recipe: s.recipe,
                    container_id: s.container_id,
                    expected: s.expected,
                    timeout_ticks: s.timeout_ticks,
                    elapsed_ticks: elapsed,
                    phase: CraftPhase::Depositing,
                    baseline: cur,
                },
                Some(ClickOperation::Pickup(PickupClick::Left { slot: Some(d as u16) })),
            ),
        }
    } else {
        CraftStep::Done(Ok(CraftOutcome { result: s.expected }))
    }
}

/// Whether the server showed the craft's recipe as a ghost recipe in its
/// container since `base`: it lacked the ingredients.
pub open spec fn shows_missing_ingredients(s: CraftState, base: CraftSnapshot, cur: CraftSnapshot) -> bool {
    &&& cur.ghost_revision > base.ghost_revision
    &&& cur.ghost_recipe matches Some(g) && g.container_id == s.container_id && recipe_display_equal(
        g.recipe,
        s.recipe.spec_entry().display,
    )
}

/// What a craft does after a tick. `event` is `None` when the ticks stopped,
/// and otherwise the snapshot taken after the tick (or why none could be
/// taken).
///
/// A tick past the timeout ends the craft. Otherwise, once the server has
/// sent the menu's full contents since the baseline: while placing, the
/// result slot must hold the result, which is then clicked onto the cursor
/// if the inventory can take it; while taking, the cursor must hold the
/// result; while depositing, the cursor must hold fewer items than before.
/// Anything else is a rejection. While placing, a ghost recipe for the craft
/// means the ingredients are missing. Without news, a craft that reached its
/// timeout ends, and any other waits.
pub open spec fn spec_craft_step(s: CraftState, event: Option<Result<CraftSnapshot, CraftError>>) -> CraftStep {
    match event {
        None => CraftStep::Done(Err(CraftError::Interrupted)),
        Some(res) => {
            let elapsed = (s.elapsed_ticks + 1) as usize;
            if s.timeout_ticks matches Some(t) && elapsed > t {
                CraftStep::Done(Err(CraftError::Timeout))
            } else {
                match res {
                    Err(e) => CraftStep::Done(Err(e)),
                    Ok(cur) => {
                        let base = s.baseline;
                        let waiting = if s.timeout_ticks matches Some(t) && elapsed >= t {
                            CraftStep::Done(Err(CraftError::Timeout))
                        } else {
                            CraftStep::Continue(
                                CraftState {
                                    recipe: s.recipe,
                                    container_id: s.container_id,
                                    expected: s.expected,
                                    timeout_ticks: s.timeout_ticks,
                                    elapsed_ticks: elapsed,
                                    phase: s.phase,
                                    baseline: s.baseline,
                                },
                                None,
                            )
                        };
                        match s.phase {
                            CraftPhase::Placing => if shows_missing_ingredients(s, base, cur) {
                                CraftStep::Done(Err(CraftError::MissingIngredients))
                            } else if cur.full_content_revision > base.full_content_revision {
                                if cur.result == s.expected {
                                    if !cur.can_fit_result {
                                        CraftStep::Done(Err(CraftError::InventoryFull))
                                    } else {
                                        CraftStep::Continue(
                                            CraftState {
                                                recipe: s.recipe,
                                                container_id: s.container_id,
                                                expected: s.expected,
                                                timeout_ticks: s.timeout_ticks,
                                                elapsed_ticks: elapsed,
                                                phase: CraftPhase::Taking,
                                                baseline: cur,
                                            },
                                            Some(take_result_click()),
                                        )
                                    }
                                } else {
                                    CraftStep::Done(Err(CraftError::Rejected))
                                }
                            } else {
                                waiting
                            },
                            CraftPhase::Taking => if cur.full_content_revision
                                > base.full_content_revision {
                                if cur.carried == s.expected {
                                    deposit_step(s, elapsed, cur)
                                } else {
                                    CraftStep::Done(Err(CraftError::Rejected))
                                }
                            } else {
                                waiting
                            },
                            CraftPhase::Depositing => if cur.full_content_revision
                                > base.full_content_revision {
                                if cur.carried.spec_count() < base.carried.spec_count() {
                                    deposit_step(s, elapsed, cur)
                                } else {
                                    CraftStep::Done(Err(CraftError::Rejected))
                                }
                            } else {
                                waiting
                            },
                        }
                    },
                }
            }
        },
    }
}

fn deposit(s: CraftState, elapsed: usize, cur: CraftSnapshot) -> (r: CraftStep)
    ensures
        r == deposit_step(s, elapsed, cur),
{
    if cur.carried.is_present() {
        match cur.destination {
            None => CraftStep::Done(Err(CraftError::InventoryFull)),
            Some(d) => {
                let slot = d as u16;
                CraftStep::Continue(
                    CraftState {
                        recipe: s.recipe,
                        container_id: s.container_id,
                        expected: s.expected,
                        timeout_ticks: s.timeout_ticks,
                        elapsed_ticks: elapsed,
                        phase: CraftPhase::Depositing,
                        baseline: cur,
                    },
                    Some(ClickOperation::Pickup(PickupClick::Left { slot: Some(slot) })),
                )
            },
        }
    } else {
        CraftStep::Done(Ok(CraftOutcome { result: s.expected }))
    }
}

/// Advance a craft by one tick.
pub fn craft_step(s: CraftState, event: Option<Result<CraftSnapshot, CraftError>>) -> (r: CraftStep)
    requires
        s.elapsed_ticks < usize::MAX,
    ensures
        r == spec_craft_step(s, event),
{
    let ghost s0 = s;
    let ghost ev = event;
    let res = match event {
        None => {
            return CraftStep::Done(Err(CraftError::Interrupted));
        },
        Some(res) => res,
    };
    let elapsed = s.elapsed_ticks + 1;
    if let Some(t) = s.timeout_ticks {
        if elapsed > t {
            return CraftStep::Done(Err(CraftError::Timeout));
        }
    }
    let cur = match res {
        Err(e) => {
            return CraftStep::Done(Err(e));
        },
        Ok(cur) => cur,
    };
    let timed_out = match s.timeout_ticks {
        Some(t) => elapsed >= t,
        None => false,
    };
    match s.phase {
        CraftPhase::Placing => {
            let missing = cur.ghost_revision > s.baseline.ghost_revision && match &cur.ghost_recipe {
                Some(g) => g.container_id == s.container_id && recipe_display_eq(
                    &g.recipe,
                    s.recipe.display(),
                ),
                None => false,
            };
            if missing {
                return CraftStep::Done(Err(CraftError::MissingIngredients));
            }
            if cur.full_content_revision > s.baseline.full_content_revision {
                if cur.result == s.expected {
                    if !cur.can_fit_result {
                        return CraftStep::Done(Err(CraftError::InventoryFull));
                    }
                    return CraftStep::Continue(
                        CraftState {
                            recipe: s.recipe,
                            container_id: s.container_id,
                            expected: s.expected,
                            timeout_ticks: s.timeout_ticks,
                            elapsed_ticks: elapsed,
                            phase: CraftPhase::Taking,
                            baseline: cur,
                        },
                        Some(ClickOperation::Pickup(PickupClick::Left { slot: Some(0) })),
                    );
                }
                return CraftStep::Done(Err(CraftError::Rejected));
            }
        },
        CraftPhase::Taking => {
            if cur.full_content_revision > s.baseline.full_content_revision {
                if cur.carried == s.expected {
                    return deposit(s, elapsed, cur);
                }
                return CraftStep::Done(Err(CraftError::Rejected));
            }
        },
        CraftPhase::Depositing => {
            if cur.full_content_revision > s.baseline.full_content_revision {
                if cur.carried.count() < s.baseline.carried.count() {
                    return deposit(s, elapsed, cur);
                }
                return CraftStep::Done(Err(CraftError::Rejected));
            }
        },
    }
    if timed_out {
        return CraftStep::Done(Err(CraftError::Timeout));
    }
    CraftStep::Continue(
        CraftState {
            recipe: s.recipe,
            container_id: s.container_id,
            expected: s.expected,
            timeout_ticks: s.timeout_ticks,
            elapsed_ticks: elapsed,
            phase: s.phase,
            baseline: s.baseline,
        },
        None,
    )
}

/// What every step of a craft keeps to. A tick past the timeout ends the
/// craft with `Timeout`, and a craft that goes on has counted the tick and
/// stays within its timeout, for the same recipe, container and result. A
/// craft succeeds only with the expected result, once the result has been
/// taken and the cursor is empty again. The only clicks it sends take the
/// result slot (when it holds the expected result and the inventory can take
/// it) or put the cursor stack into the snapshot's destination slot; without
/// a click, it keeps its phase and baseline.
pub proof fn lemma_craft_step_laws(s: CraftState, event: Option<Result<CraftSnapshot, CraftError>>)
    requires
        s.elapsed_ticks < usize::MAX,
    ensures
        (s.timeout_ticks matches Some(t) && s.elapsed_ticks >= t && event is Some) ==> (spec_craft_step(s, event)
            matches CraftStep::Done(Err(e)) && e == CraftError::Timeout),
        spec_craft_step(s, event) matches CraftStep::Continue(next, _) ==> {
            &&& next.elapsed_ticks == s.elapsed_ticks + 1
            &&& (s.timeout_ticks matches Some(t) ==> next.elapsed_ticks <= t)
            &&& next.recipe == s.recipe
            &&& next.container_id == s.container_id
            &&& next.expected == s.expected
            &&& next.timeout_ticks == s.timeout_ticks
        },
        spec_craft_step(s, event) matches CraftStep::Done(Ok(outcome)) ==> {
            &&& outcome.result == s.expected
            &&& s.phase != CraftPhase::Placing
            &&& event matches Some(Ok(cur)) && cur.carried.spec_is_empty()
        },
        spec_craft_step(s, event) matches CraftStep::Continue(next, Some(click)) ==> (event matches Some(
            Ok(cur),
        ) && {
            ||| next.phase == CraftPhase::Taking && click == take_result_click() && cur.result
                == s.expected && cur.can_fit_result
            ||| next.phase == CraftPhase::Depositing && !cur.carried.spec_is_empty()
                && (cur.destination matches Some(d) && click == ClickOperation::Pickup(
                PickupClick::Left { slot: Some(d as u16) },
            ))
        }),
        spec_craft_step(s, event) matches CraftStep::Continue(next, None) ==> next.phase == s.phase
            && next.baseline == s.baseline,
{
}

} // verus!
