//! The fixed slot layouts of every menu.
use vstd::prelude::*;

use crate::item::ItemStack;

verus! {

/// A fixed-size list of [`ItemStack`]s.
#[derive(Clone, Copy, Debug)]
pub struct SlotList<const N: usize>([ItemStack; N]);

impl<const N: usize> View for SlotList<N> {
    type V = Seq<ItemStack>;

    closed spec fn view(&self) -> Seq<ItemStack> {
        self.0@
    }
}

impl<const N: usize> SlotList<N> {
    pub fn new(items: [ItemStack; N]) -> (r: Self)
        ensures
            r@ == items@,
    {
        SlotList(items)
    }

    /// The stacks of the list.
    pub fn items(&self) -> (r: &[ItemStack; N])
        ensures
            r@ == self@,
    {
        &self.0
    }
}

impl<const N: usize> Default for SlotList<N> {
    /// A list of empty slots.
    fn default() -> (r: Self)
        ensures
            r@.len() == N,
            forall|i: int| 0 <= i < N ==> r@[i] == ItemStack::Empty,
    {
        SlotList(vstd::array::array_fill_for_copy_types(ItemStack::Empty))
    }
}

/// An inclusive range of slot indexes, `start..=end`.
#[derive(Clone, Copy, Debug, PartialEq, Eq, Structural)]
pub struct SlotRange {
    pub start: usize,
    pub end: usize,
}

impl SlotRange {
    pub open spec fn spec_contains(self, i: int) -> bool {
        self.start <= i <= self.end
    }

    /// Whether `i` lies in the range.
    pub fn contains(&self, i: usize) -> (b: bool)
        ensures
            b == self.spec_contains(i as int),
    {
        self.start <= i && i <= self.end
    }

    /// The indexes of the range, walked forwards, or backwards when
    /// `reverse` is set.
    pub open spec fn order(self, reverse: bool) -> Seq<usize> {
        let n = if self.end >= self.start {
            (self.end - self.start + 1) as nat
        } else {
            0
        };
        Seq::new(n, |k: int| (if reverse { self.end - k } else { self.start + k }) as usize)
    }
}

/// Which of the menus a [`Menu`] is, without its contents.
#[derive(Clone, Copy, Debug, PartialEq, Eq, Structural)]
pub enum MenuKind {
    Player,
    Generic9x1,
    Generic9x2,
    Generic9x3,
    Generic9x4,
    Generic9x5,
    Generic9x6,
    Generic3x3,
    Crafter3x3,
    Anvil,
    Beacon,
    BlastFurnace,
    BrewingStand,
    Crafting,
    Enchantment,
    Furnace,
    Grindstone,
    Hopper,
    Lectern,
    Loom,
    Merchant,
    ShulkerBox,
    Smithing,
    Smoker,
    CartographyTable,
    Stonecutter,
}

/// Which field of its menu a slot index falls in.
#[derive(Clone, Copy, Debug, PartialEq, Eq, Structural)]
pub enum MenuLocation {
    Player(PlayerMenuLocation),
    Generic9x1(Generic9x1MenuLocation),
    Generic9x2(Generic9x2MenuLocation),
    Generic9x3(Generic9x3MenuLocation),
    Generic9x4(Generic9x4MenuLocation),
    Generic9x5(Generic9x5MenuLocation),
    Generic9x6(Generic9x6MenuLocation),
    Generic3x3(Generic3x3MenuLocation),
    Crafter3x3(Crafter3x3MenuLocation),
    Anvil(AnvilMenuLocation),
    Beacon(BeaconMenuLocation),
    BlastFurnace(BlastFurnaceMenuLocation),
    BrewingStand(BrewingStandMenuLocation),
    Crafting(CraftingMenuLocation),
    Enchantment(EnchantmentMenuLocation),
    Furnace(FurnaceMenuLocation),
    Grindstone(GrindstoneMenuLocation),
    Hopper(HopperMenuLocation),
    Lectern(LecternMenuLocation),
    Loom(LoomMenuLocation),
    Merchant(MerchantMenuLocation),
    ShulkerBox(ShulkerBoxMenuLocation),
    Smithing(SmithingMenuLocation),
    Smoker(SmokerMenuLocation),
    CartographyTable(CartographyTableMenuLocation),
    Stonecutter(StonecutterMenuLocation),
}

#[derive(Clone, Copy, Debug, PartialEq, Eq, Structural)]
pub enum PlayerMenuLocation {
    CraftResult,
    Craft,
    Armor,
    Inventory,
    Offhand,
}

#[derive(Clone, Copy, Debug, PartialEq, Eq, Structural)]
pub enum Generic9x1MenuLocation {
    Contents,
    Player,
}

#[derive(Clone, Copy, Debug, PartialEq, Eq, Structural)]
pub enum Generic9x2MenuLocation {
    Contents,
    Player,
}

#[derive(Clone, Copy, Debug, PartialEq, Eq, Structural)]
pub enum Generic9x3MenuLocation {
    Contents,
    Player,
}

#[derive(Clone, Copy, Debug, PartialEq, Eq, Structural)]
pub enum Generic9x4MenuLocation {
    Contents,
    Player,
}

#[derive(Clone, Copy, Debug, PartialEq, Eq, Structural)]
pub enum Generic9x5MenuLocation {
    Contents,
    Player,
}

#[derive(Clone, Copy, Debug, PartialEq, Eq, Structural)]
pub enum Generic9x6MenuLocation {
    Contents,
    Player,
}

#[derive(Clone, Copy, Debug, PartialEq, Eq, Structural)]
pub enum Generic3x3MenuLocation {
    Contents,
    Player,
}

#[derive(Clone, Copy, Debug, PartialEq, Eq, Structural)]
pub enum Crafter3x3MenuLocation {
    Contents,
    Player,
}

#[derive(Clone, Copy, Debug, PartialEq, Eq, Structural)]
pub enum AnvilMenuLocation {
    First,
    Second,
    Result,
    Player,
}

#[derive(Clone, Copy, Debug, PartialEq, Eq, Structural)]
pub enum BeaconMenuLocation {
    Payment,
    Player,
}

#[derive(Clone, Copy, Debug, PartialEq, Eq, Structural)]
pub enum BlastFurnaceMenuLocation {
    Ingredient,
    Fuel,
    Result,
    Player,
}

#[derive(Clone, Copy, Debug, PartialEq, Eq, Structural)]
pub enum BrewingStandMenuLocation {
    Bottles,
    Ingredient,
    Fuel,
    Player,
}

#[derive(Clone, Copy, Debug, PartialEq, Eq, Structural)]
pub enum CraftingMenuLocation {
    Result,
    Grid,
    Player,
}

#[derive(Clone, Copy, Debug, PartialEq, Eq, Structural)]
pub enum EnchantmentMenuLocation {
    Item,
    Lapis,
    Player,
}

#[derive(Clone, Copy, Debug, PartialEq, Eq, Structural)]
pub enum FurnaceMenuLocation {
    Ingredient,
    Fuel,
    Result,
    Player,
}

#[derive(Clone, Copy, Debug, PartialEq, Eq, Structural)]
pub enum GrindstoneMenuLocation {
    Input,
    Additional,
    Result,
    Player,
}

#[derive(Clone, Copy, Debug, PartialEq, Eq, Structural)]
pub enum HopperMenuLocation {
    Contents,
    Player,
}

#[derive(Clone, Copy, Debug, PartialEq, Eq, Structural)]
pub enum LecternMenuLocation {
    Book,
    Player,
}

#[derive(Clone, Copy, Debug, PartialEq, Eq, Structural)]
pub enum LoomMenuLocation {
    Banner,
    Dye,
    Pattern,
    Result,
    Player,
}

#[derive(Clone, Copy, Debug, PartialEq, Eq, Structural)]
pub enum MerchantMenuLocation {
    Payments,
    Result,
    Player,
}

#[derive(Clone, Copy, Debug, PartialEq, Eq, Structural)]
pub enum ShulkerBoxMenuLocation {
    Contents,
    Player,
}

#[derive(Clone, Copy, Debug, PartialEq, Eq, Structural)]
pub enum SmithingMenuLocation {
    Template,
    Base,
    Additional,
    Result,
    Player,
}

#[derive(Clone, Copy, Debug, PartialEq, Eq, Structural)]
pub enum SmokerMenuLocation {
    Ingredient,
    Fuel,
    Result,
    Player,
}

#[derive(Clone, Copy, Debug, PartialEq, Eq, Structural)]
pub enum CartographyTableMenuLocation {
    MapInput,
    Additional,
    Result,
    Player,
}

#[derive(Clone, Copy, Debug, PartialEq, Eq, Structural)]
pub enum StonecutterMenuLocation {
    Input,
    Result,
    Player,
}

/// The player's own inventory menu, with the crafting grid and armor slots.
#[derive(Clone, Copy, Debug)]
pub struct Player {
    pub craft_result: ItemStack,
    pub craft: SlotList<4>,
    pub armor: SlotList<4>,
    pub inventory: SlotList<36>,
    pub offhand: ItemStack,
}

/// A menu, which is a fixed collection of slots.
#[derive(Clone, Copy, Debug)]
pub enum Menu {
    Player(Player),
    Generic9x1 {
        contents: SlotList<9>,
        player: SlotList<36>,
    },
    Generic9x2 {
        contents: SlotList<18>,
        player: SlotList<36>,
    },
    Generic9x3 {
        contents: SlotList<27>,
        player: SlotList<36>,
    },
    Generic9x4 {
        contents: SlotList<36>,
        player: SlotList<36>,
    },
    Generic9x5 {
        contents: SlotList<45>,
        player: SlotList<36>,
    },
    Generic9x6 {
        contents: SlotList<54>,
        player: SlotList<36>,
    },
    Generic3x3 {
        contents: SlotList<9>,
        player: SlotList<36>,
    },
    Crafter3x3 {
        contents: SlotList<9>,
        player: SlotList<36>,
    },
    Anvil {
        first: ItemStack,
        second: ItemStack,
        result: ItemStack,
        player: SlotList<36>,
    },
    Beacon {
        payment: ItemStack,
        player: SlotList<36>,
    },
    BlastFurnace {
        ingredient: ItemStack,
        fuel: ItemStack,
        result: ItemStack,
        player: SlotList<36>,
    },
    BrewingStand {
        bottles: SlotList<3>,
        ingredient: ItemStack,
        fuel: ItemStack,
        player: SlotList<36>,
    },
    Crafting {
        result: ItemStack,
        grid: SlotList<9>,
        player: SlotList<36>,
    },
    Enchantment {
        item: ItemStack,
        lapis: ItemStack,
        player: SlotList<36>,
    },
    Furnace {
        ingredient: ItemStack,
        fuel: ItemStack,
        result: ItemStack,
        player: SlotList<36>,
    },
    Grindstone {
        input: ItemStack,
        additional: ItemStack,
        result: ItemStack,
        player: SlotList<36>,
    },
    Hopper {
        contents: SlotList<5>,
        player: SlotList<36>,
    },
    Lectern {
        book: ItemStack,
        player: SlotList<36>,
    },
    Loom {
        banner: ItemStack,
        dye: ItemStack,
        pattern: ItemStack,
        result: ItemStack,
        player: SlotList<36>,
    },
    Merchant {
        payments: SlotList<2>,
        result: ItemStack,
        player: SlotList<36>,
    },
    ShulkerBox {
        contents: SlotList<27>,
        player: SlotList<36>,
    },
    Smithing {
        template: ItemStack,
        base: ItemStack,
        additional: ItemStack,
        result: ItemStack,
        player: SlotList<36>,
    },
    Smoker {
        ingredient: ItemStack,
        fuel: ItemStack,
        result: ItemStack,
        player: SlotList<36>,
    },
    CartographyTable {
        map: ItemStack,
        additional: ItemStack,
        result: ItemStack,
        player: SlotList<36>,
    },
    Stonecutter {
        input: ItemStack,
        result: ItemStack,
        player: SlotList<36>,
    },
}

pub const PLAYER_CRAFT_RESULT_SLOT: usize = 0;
pub const PLAYER_CRAFT_SLOTS_START: usize = 1;
pub const PLAYER_CRAFT_SLOTS_END: usize = 4;
pub const PLAYER_ARMOR_SLOTS_START: usize = 5;
pub const PLAYER_ARMOR_SLOTS_END: usize = 8;
pub const PLAYER_INVENTORY_SLOTS_START: usize = 9;
pub const PLAYER_INVENTORY_SLOTS_END: usize = 44;
pub const PLAYER_OFFHAND_SLOT: usize = 45;
pub const GENERIC9X1_CONTENTS_SLOTS_START: usize = 0;
pub const GENERIC9X1_CONTENTS_SLOTS_END: usize = 8;
pub const GENERIC9X1_PLAYER_SLOTS_START: usize = 9;
pub const GENERIC9X1_PLAYER_SLOTS_END: usize = 44;
pub const GENERIC9X2_CONTENTS_SLOTS_START: usize = 0;
pub const GENERIC9X2_CONTENTS_SLOTS_END: usize = 17;
pub const GENERIC9X2_PLAYER_SLOTS_START: usize = 18;
pub const GENERIC9X2_PLAYER_SLOTS_END: usize = 53;
pub const GENERIC9X3_CONTENTS_SLOTS_START: usize = 0;
pub const GENERIC9X3_CONTENTS_SLOTS_END: usize = 26;
pub const GENERIC9X3_PLAYER_SLOTS_START: usize = 27;
pub const GENERIC9X3_PLAYER_SLOTS_END: usize = 62;
pub const GENERIC9X4_CONTENTS_SLOTS_START: usize = 0;
pub const GENERIC9X4_CONTENTS_SLOTS_END: usize = 35;
pub const GENERIC9X4_PLAYER_SLOTS_START: usize = 36;
pub const GENERIC9X4_PLAYER_SLOTS_END: usize = 71;
pub const GENERIC9X5_CONTENTS_SLOTS_START: usize = 0;
pub const GENERIC9X5_CONTENTS_SLOTS_END: usize = 44;
pub const GENERIC9X5_PLAYER_SLOTS_START: usize = 45;
pub const GENERIC9X5_PLAYER_SLOTS_END: usize = 80;
pub const GENERIC9X6_CONTENTS_SLOTS_START: usize = 0;
pub const GENERIC9X6_CONTENTS_SLOTS_END: usize = 53;
pub const GENERIC9X6_PLAYER_SLOTS_START: usize = 54;
pub const GENERIC9X6_PLAYER_SLOTS_END: usize = 89;
pub const GENERIC3X3_CONTENTS_SLOTS_START: usize = 0;
pub const GENERIC3X3_CONTENTS_SLOTS_END: usize = 8;
pub const GENERIC3X3_PLAYER_SLOTS_START: usize = 9;
pub const GENERIC3X3_PLAYER_SLOTS_END: usize = 44;
pub const CRAFTER3X3_CONTENTS_SLOTS_START: usize = 0;
pub const CRAFTER3X3_CONTENTS_SLOTS_END: usize = 8;
pub const CRAFTER3X3_PLAYER_SLOTS_START: usize = 9;
pub const CRAFTER3X3_PLAYER_SLOTS_END: usize = 44;
pub const ANVIL_FIRST_SLOT: usize = 0;
pub const ANVIL_SECOND_SLOT: usize = 1;
pub const ANVIL_RESULT_SLOT: usize = 2;
pub const ANVIL_PLAYER_SLOTS_START: usize = 3;
pub const ANVIL_PLAYER_SLOTS_END: usize = 38;
pub const BEACON_PAYMENT_SLOT: usize = 0;
pub const BEACON_PLAYER_SLOTS_START: usize = 1;
pub const BEACON_PLAYER_SLOTS_END: usize = 36;
pub const BLAST_FURNACE_INGREDIENT_SLOT: usize = 0;
pub const BLAST_FURNACE_FUEL_SLOT: usize = 1;
pub const BLAST_FURNACE_RESULT_SLOT: usize = 2;
pub const BLAST_FURNACE_PLAYER_SLOTS_START: usize = 3;
pub const BLAST_FURNACE_PLAYER_SLOTS_END: usize = 38;
pub const BREWING_STAND_BOTTLES_SLOTS_START: usize = 0;
pub const BREWING_STAND_BOTTLES_SLOTS_END: usize = 2;
pub const BREWING_STAND_INGREDIENT_SLOT: usize = 3;
pub const BREWING_STAND_FUEL_SLOT: usize = 4;
pub const BREWING_STAND_PLAYER_SLOTS_START: usize = 5;
pub const BREWING_STAND_PLAYER_SLOTS_END: usize = 40;
pub const CRAFTING_RESULT_SLOT: usize = 0;
pub const CRAFTING_GRID_SLOTS_START: usize = 1;
pub const CRAFTING_GRID_SLOTS_END: usize = 9;
pub const CRAFTING_PLAYER_SLOTS_START: usize = 10;
pub const CRAFTING_PLAYER_SLOTS_END: usize = 45;
pub const ENCHANTMENT_ITEM_SLOT: usize = 0;
pub const ENCHANTMENT_LAPIS_SLOT: usize = 1;
pub const ENCHANTMENT_PLAYER_SLOTS_START: usize = 2;
pub const ENCHANTMENT_PLAYER_SLOTS_END: usize = 37;
pub const FURNACE_INGREDIENT_SLOT: usize = 0;
pub const FURNACE_FUEL_SLOT: usize = 1;
pub const FURNACE_RESULT_SLOT: usize = 2;
pub const FURNACE_PLAYER_SLOTS_START: usize = 3;
pub const FURNACE_PLAYER_SLOTS_END: usize = 38;
pub const GRINDSTONE_INPUT_SLOT: usize = 0;
pub const GRINDSTONE_ADDITIONAL_SLOT: usize = 1;
pub const GRINDSTONE_RESULT_SLOT: usize = 2;
pub const GRINDSTONE_PLAYER_SLOTS_START: usize = 3;
pub const GRINDSTONE_PLAYER_SLOTS_END: usize = 38;
pub const HOPPER_CONTENTS_SLOTS_START: usize = 0;
pub const HOPPER_CONTENTS_SLOTS_END: usize = 4;
pub const HOPPER_PLAYER_SLOTS_START: usize = 5;
pub const HOPPER_PLAYER_SLOTS_END: usize = 40;
pub const LECTERN_BOOK_SLOT: usize = 0;
pub const LECTERN_PLAYER_SLOTS_START: usize = 1;
pub const LECTERN_PLAYER_SLOTS_END: usize = 36;
pub const LOOM_BANNER_SLOT: usize = 0;
pub const LOOM_DYE_SLOT: usize = 1;
pub const LOOM_PATTERN_SLOT: usize = 2;
pub const LOOM_RESULT_SLOT: usize = 3;
pub const LOOM_PLAYER_SLOTS_START: usize = 4;
pub const LOOM_PLAYER_SLOTS_END: usize = 39;
pub const MERCHANT_PAYMENTS_SLOTS_START: usize = 0;
pub const MERCHANT_PAYMENTS_SLOTS_END: usize = 1;
pub const MERCHANT_RESULT_SLOT: usize = 2;
pub const MERCHANT_PLAYER_SLOTS_START: usize = 3;
pub const MERCHANT_PLAYER_SLOTS_END: usize = 38;
pub const SHULKER_BOX_CONTENTS_SLOTS_START: usize = 0;
pub const SHULKER_BOX_CONTENTS_SLOTS_END: usize = 26;
pub const SHULKER_BOX_PLAYER_SLOTS_START: usize = 27;
pub const SHULKER_BOX_PLAYER_SLOTS_END: usize = 62;
pub const SMITHING_TEMPLATE_SLOT: usize = 0;
pub const SMITHING_BASE_SLOT: usize = 1;
pub const SMITHING_ADDITIONAL_SLOT: usize = 2;
pub const SMITHING_RESULT_SLOT: usize = 3;
pub const SMITHING_PLAYER_SLOTS_START: usize = 4;
pub const SMITHING_PLAYER_SLOTS_END: usize = 39;
pub const SMOKER_INGREDIENT_SLOT: usize = 0;
pub const SMOKER_FUEL_SLOT: usize = 1;
pub const SMOKER_RESULT_SLOT: usize = 2;
pub const SMOKER_PLAYER_SLOTS_START: usize = 3;
pub const SMOKER_PLAYER_SLOTS_END: usize = 38;
pub const CARTOGRAPHY_TABLE_MAP_SLOT: usize = 0;
pub const CARTOGRAPHY_TABLE_ADDITIONAL_SLOT: usize = 1;
pub const CARTOGRAPHY_TABLE_RESULT_SLOT: usize = 2;
pub const CARTOGRAPHY_TABLE_PLAYER_SLOTS_START: usize = 3;
pub const CARTOGRAPHY_TABLE_PLAYER_SLOTS_END: usize = 38;
pub const STONECUTTER_INPUT_SLOT: usize = 0;
pub const STONECUTTER_RESULT_SLOT: usize = 1;
pub const STONECUTTER_PLAYER_SLOTS_START: usize = 2;
pub const STONECUTTER_PLAYER_SLOTS_END: usize = 37;

impl MenuKind {
    /// The number of slots of this kind of menu.
    pub open spec fn spec_len(self) -> nat {
        match self {
            MenuKind::Player => 46,
            MenuKind::Generic9x1 => 45,
            MenuKind::Generic9x2 => 54,
            MenuKind::Generic9x3 => 63,
            MenuKind::Generic9x4 => 72,
            MenuKind::Generic9x5 => 81,
            MenuKind::Generic9x6 => 90,
            MenuKind::Generic3x3 => 45,
            MenuKind::Crafter3x3 => 45,
            MenuKind::Anvil => 39,
            MenuKind::Beacon => 37,
            MenuKind::BlastFurnace => 39,
            MenuKind::BrewingStand => 41,
            MenuKind::Crafting => 46,
            MenuKind::Enchantment => 38,
            MenuKind::Furnace => 39,
            MenuKind::Grindstone => 39,
            MenuKind::Hopper => 41,
            MenuKind::Lectern => 37,
            MenuKind::Loom => 40,
            MenuKind::Merchant => 39,
            MenuKind::ShulkerBox => 63,
            MenuKind::Smithing => 40,
            MenuKind::Smoker => 39,
            MenuKind::CartographyTable => 39,
            MenuKind::Stonecutter => 38,
        }
    }

    /// The number of slots of this kind of menu.
    pub fn len(self) -> (n: usize)
        ensures
            n == self.spec_len(),
    {
        match self {
            MenuKind::Player => 46,
            MenuKind::Generic9x1 => 45,
            MenuKind::Generic9x2 => 54,
            MenuKind::Generic9x3 => 63,
            MenuKind::Generic9x4 => 72,
            MenuKind::Generic9x5 => 81,
            MenuKind::Generic9x6 => 90,
            MenuKind::Generic3x3 => 45,
            MenuKind::Crafter3x3 => 45,
            MenuKind::Anvil => 39,
            MenuKind::Beacon => 37,
            MenuKind::BlastFurnace => 39,
            MenuKind::BrewingStand => 41,
            MenuKind::Crafting => 46,
            MenuKind::Enchantment => 38,
            MenuKind::Furnace => 39,
            MenuKind::Grindstone => 39,
            MenuKind::Hopper => 41,
            MenuKind::Lectern => 37,
            MenuKind::Loom => 40,
            MenuKind::Merchant => 39,
            MenuKind::ShulkerBox => 63,
            MenuKind::Smithing => 40,
            MenuKind::Smoker => 39,
            MenuKind::CartographyTable => 39,
            MenuKind::Stonecutter => 38,
        }
    }

    /// The field of this kind of menu that slot `i` falls in.
    pub open spec fn spec_location(self, i: int) -> Option<MenuLocation> {
        match self {
            MenuKind::Player => {
                if i == 0 {
                    Some(MenuLocation::Player(PlayerMenuLocation::CraftResult))
                } else if 1 <= i <= 4 {
                    Some(MenuLocation::Player(PlayerMenuLocation::Craft))
                } else if 5 <= i <= 8 {
                    Some(MenuLocation::Player(PlayerMenuLocation::Armor))
                } else if 9 <= i <= 44 {
                    Some(MenuLocation::Player(PlayerMenuLocation::Inventory))
                } else if i == 45 {
                    Some(MenuLocation::Player(PlayerMenuLocation::Offhand))
                } else {
                    None
                }
            },
            MenuKind::Generic9x1 => {
                if 0 <= i <= 8 {
                    Some(MenuLocation::Generic9x1(Generic9x1MenuLocation::Contents))
                } else if 9 <= i <= 44 {
                    Some(MenuLocation::Generic9x1(Generic9x1MenuLocation::Player))
                } else {
                    None
                }
            },
            MenuKind::Generic9x2 => {
                if 0 <= i <= 17 {
                    Some(MenuLocation::Generic9x2(Generic9x2MenuLocation::Contents))
                } else if 18 <= i <= 53 {
                    Some(MenuLocation::Generic9x2(Generic9x2MenuLocation::Player))
                } else {
                    None
                }
            },
            MenuKind::Generic9x3 => {
                if 0 <= i <= 26 {
                    Some(MenuLocation::Generic9x3(Generic9x3MenuLocation::Contents))
                } else if 27 <= i <= 62 {
                    Some(MenuLocation::Generic9x3(Generic9x3MenuLocation::Player))
                } else {
                    None
                }
            },
            MenuKind::Generic9x4 => {
                if 0 <= i <= 35 {
                    Some(MenuLocation::Generic9x4(Generic9x4MenuLocation::Contents))
                } else if 36 <= i <= 71 {
                    Some(MenuLocation::Generic9x4(Generic9x4MenuLocation::Player))
                } else {
                    None
                }
            },
            MenuKind::Generic9x5 => {
                if 0 <= i <= 44 {
                    Some(MenuLocation::Generic9x5(Generic9x5MenuLocation::Contents))
                } else if 45 <= i <= 80 {
                    Some(MenuLocation::Generic9x5(Generic9x5MenuLocation::Player))
                } else {
                    None
                }
            },
            MenuKind::Generic9x6 => {
                if 0 <= i <= 53 {
                    Some(MenuLocation::Generic9x6(Generic9x6MenuLocation::Contents))
                } else if 54 <= i <= 89 {
                    Some(MenuLocation::Generic9x6(Generic9x6MenuLocation::Player))
                } else {
                    None
                }
            },
            MenuKind::Generic3x3 => {
                if 0 <= i <= 8 {
                    Some(MenuLocation::Generic3x3(Generic3x3MenuLocation::Contents))
                } else if 9 <= i <= 44 {
                    Some(MenuLocation::Generic3x3(Generic3x3MenuLocation::Player))
                } else {
                    None
                }
            },
            MenuKind::Crafter3x3 => {
                if 0 <= i <= 8 {
                    Some(MenuLocation::Crafter3x3(Crafter3x3MenuLocation::Contents))
                } else if 9 <= i <= 44 {
                    Some(MenuLocation::Crafter3x3(Crafter3x3MenuLocation::Player))
                } else {
                    None
                }
            },
            MenuKind::Anvil => {
                if i == 0 {
                    Some(MenuLocation::Anvil(AnvilMenuLocation::First))
                } else if i == 1 {
                    Some(MenuLocation::Anvil(AnvilMenuLocation::Second))
                } else if i == 2 {
                    Some(MenuLocation::Anvil(AnvilMenuLocation::Result))
                } else if 3 <= i <= 38 {
                    Some(MenuLocation::Anvil(AnvilMenuLocation::Player))
                } else {
                    None
                }
            },
            MenuKind::Beacon => {
                if i == 0 {
                    Some(MenuLocation::Beacon(BeaconMenuLocation::Payment))
                } else if 1 <= i <= 36 {
                    Some(MenuLocation::Beacon(BeaconMenuLocation::Player))
                } else {
                    None
                }
            },
            MenuKind::BlastFurnace => {
                if i == 0 {
                    Some(MenuLocation::BlastFurnace(BlastFurnaceMenuLocation::Ingredient))
                } else if i == 1 {
                    Some(MenuLocation::BlastFurnace(BlastFurnaceMenuLocation::Fuel))
                } else if i == 2 {
                    Some(MenuLocation::BlastFurnace(BlastFurnaceMenuLocation::Result))
                } else if 3 <= i <= 38 {
                    Some(MenuLocation::BlastFurnace(BlastFurnaceMenuLocation::Player))
                } else {
                    None
                }
            },
            MenuKind::BrewingStand => {
                if 0 <= i <= 2 {
                    Some(MenuLocation::BrewingStand(BrewingStandMenuLocation::Bottles))
                } else if i == 3 {
                    Some(MenuLocation::BrewingStand(BrewingStandMenuLocation::Ingredient))
                } else if i == 4 {
                    Some(MenuLocation::BrewingStand(BrewingStandMenuLocation::Fuel))
                } else if 5 <= i <= 40 {
                    Some(MenuLocation::BrewingStand(BrewingStandMenuLocation::Player))
                } else {
                    None
                }
            },
            MenuKind::Crafting => {
                if i == 0 {
                    Some(MenuLocation::Crafting(CraftingMenuLocation::Result))
                } else if 1 <= i <= 9 {
                    Some(MenuLocation::Crafting(CraftingMenuLocation::Grid))
                } else if 10 <= i <= 45 {
                    Some(MenuLocation::Crafting(CraftingMenuLocation::Player))
                } else {
                    None
                }
            },
            MenuKind::Enchantment => {
                if i == 0 {
                    Some(MenuLocation::Enchantment(EnchantmentMenuLocation::Item))
                } else if i == 1 {
                    Some(MenuLocation::Enchantment(EnchantmentMenuLocation::Lapis))
                } else if 2 <= i <= 37 {
                    Some(MenuLocation::Enchantment(EnchantmentMenuLocation::Player))
                } else {
                    None
                }
            },
            MenuKind::Furnace => {
                if i == 0 {
                    Some(MenuLocation::Furnace(FurnaceMenuLocation::Ingredient))
                } else if i == 1 {
                    Some(MenuLocation::Furnace(FurnaceMenuLocation::Fuel))
                } else if i == 2 {
                    Some(MenuLocation::Furnace(FurnaceMenuLocation::Result))
                } else if 3 <= i <= 38 {
                    Some(MenuLocation::Furnace(FurnaceMenuLocation::Player))
                } else {
                    None
                }
            },
            MenuKind::Grindstone => {
                if i == 0 {
                    Some(MenuLocation::Grindstone(GrindstoneMenuLocation::Input))
                } else if i == 1 {
                    Some(MenuLocation::Grindstone(GrindstoneMenuLocation::Additional))
                } else if i == 2 {
                    Some(MenuLocation::Grindstone(GrindstoneMenuLocation::Result))
                } else if 3 <= i <= 38 {
                    Some(MenuLocation::Grindstone(GrindstoneMenuLocation::Player))
                } else {
                    None
                }
            },
            MenuKind::Hopper => {
                if 0 <= i <= 4 {
                    Some(MenuLocation::Hopper(HopperMenuLocation::Contents))
                } else if 5 <= i <= 40 {
                    Some(MenuLocation::Hopper(HopperMenuLocation::Player))
                } else {
                    None
                }
            },
            MenuKind::Lectern => {
                if i == 0 {
                    Some(MenuLocation::Lectern(LecternMenuLocation::Book))
                } else if 1 <= i <= 36 {
                    Some(MenuLocation::Lectern(LecternMenuLocation::Player))
                } else {
                    None
                }
            },
            MenuKind::Loom => {
                if i == 0 {
                    Some(MenuLocation::Loom(LoomMenuLocation::Banner))
                } else if i == 1 {
                    Some(MenuLocation::Loom(LoomMenuLocation::Dye))
                } else if i == 2 {
                    Some(MenuLocation::Loom(LoomMenuLocation::Pattern))
                } else if i == 3 {
                    Some(MenuLocation::Loom(LoomMenuLocation::Result))
                } else if 4 <= i <= 39 {
                    Some(MenuLocation::Loom(LoomMenuLocation::Player))
                } else {
                    None
                }
            },
            MenuKind::Merchant => {
                if 0 <= i <= 1 {
                    Some(MenuLocation::Merchant(MerchantMenuLocation::Payments))
                } else if i == 2 {
                    Some(MenuLocation::Merchant(MerchantMenuLocation::Result))
                } else if 3 <= i <= 38 {
                    Some(MenuLocation::Merchant(MerchantMenuLocation::Player))
                } else {
                    None
                }
            },
            MenuKind::ShulkerBox => {
                if 0 <= i <= 26 {
                    Some(MenuLocation::ShulkerBox(ShulkerBoxMenuLocation::Contents))
                } else if 27 <= i <= 62 {
                    Some(MenuLocation::ShulkerBox(ShulkerBoxMenuLocation::Player))
                } else {
                    None
                }
            },
            MenuKind::Smithing => {
                if i == 0 {
                    Some(MenuLocation::Smithing(SmithingMenuLocation::Template))
                } else if i == 1 {
                    Some(MenuLocation::Smithing(SmithingMenuLocation::Base))
                } else if i == 2 {
                    Some(MenuLocation::Smithing(SmithingMenuLocation::Additional))
                } else if i == 3 {
                    Some(MenuLocation::Smithing(SmithingMenuLocation::Result))
                } else if 4 <= i <= 39 {
                    Some(MenuLocation::Smithing(SmithingMenuLocation::Player))
                } else {
                    None
                }
            },
            MenuKind::Smoker => {
                if i == 0 {
                    Some(MenuLocation::Smoker(SmokerMenuLocation::Ingredient))
                } else if i == 1 {
                    Some(MenuLocation::Smoker(SmokerMenuLocation::Fuel))
                } else if i == 2 {
                    Some(MenuLocation::Smoker(SmokerMenuLocation::Result))
                } else if 3 <= i <= 38 {
                    Some(MenuLocation::Smoker(SmokerMenuLocation::Player))
                } else {
                    None
                }
            },
            MenuKind::CartographyTable => {
                if i == 0 {
                    Some(MenuLocation::CartographyTable(CartographyTableMenuLocation::MapInput))
                } else if i == 1 {
                    Some(MenuLocation::CartographyTable(CartographyTableMenuLocation::Additional))
                } else if i == 2 {
                    Some(MenuLocation::CartographyTable(CartographyTableMenuLocation::Result))
                } else if 3 <= i <= 38 {
                    Some(MenuLocation::CartographyTable(CartographyTableMenuLocation::Player))
                } else {
                    None
                }
            },
            MenuKind::Stonecutter => {
                if i == 0 {
                    Some(MenuLocation::Stonecutter(StonecutterMenuLocation::Input))
                } else if i == 1 {
                    Some(MenuLocation::Stonecutter(StonecutterMenuLocation::Result))
                } else if 2 <= i <= 37 {
                    Some(MenuLocation::Stonecutter(StonecutterMenuLocation::Player))
                } else {
                    None
                }
            },
        }
    }

    /// The field of this kind of menu that slot `i` falls in.
    pub fn location(self, i: usize) -> (r: Option<MenuLocation>)
        ensures
            r == self.spec_location(i as int),
    {
        match self {
            MenuKind::Player => {
                if i == 0 {
                    Some(MenuLocation::Player(PlayerMenuLocation::CraftResult))
                } else if 1 <= i && i <= 4 {
                    Some(MenuLocation::Player(PlayerMenuLocation::Craft))
                } else if 5 <= i && i <= 8 {
                    Some(MenuLocation::Player(PlayerMenuLocation::Armor))
                } else if 9 <= i && i <= 44 {
                    Some(MenuLocation::Player(PlayerMenuLocation::Inventory))
                } else if i == 45 {
                    Some(MenuLocation::Player(PlayerMenuLocation::Offhand))
                } else {
                    None
                }
            },
            MenuKind::Generic9x1 => {
                if i <= 8 {
                    Some(MenuLocation::Generic9x1(Generic9x1MenuLocation::Contents))
                } else if 9 <= i && i <= 44 {
                    Some(MenuLocation::Generic9x1(Generic9x1MenuLocation::Player))
                } else {
                    None
                }
            },
            MenuKind::Generic9x2 => {
                if i <= 17 {
                    Some(MenuLocation::Generic9x2(Generic9x2MenuLocation::Contents))
                } else if 18 <= i && i <= 53 {
                    Some(MenuLocation::Generic9x2(Generic9x2MenuLocation::Player))
                } else {
                    None
                }
            },
            MenuKind::Generic9x3 => {
                if i <= 26 {
                    Some(MenuLocation::Generic9x3(Generic9x3MenuLocation::Contents))
                } else if 27 <= i && i <= 62 {
                    Some(MenuLocation::Generic9x3(Generic9x3MenuLocation::Player))
                } else {
                    None
                }
            },
            MenuKind::Generic9x4 => {
                if i <= 35 {
                    Some(MenuLocation::Generic9x4(Generic9x4MenuLocation::Contents))
                } else if 36 <= i && i <= 71 {
                    Some(MenuLocation::Generic9x4(Generic9x4MenuLocation::Player))
                } else {
                    None
                }
            },
            MenuKind::Generic9x5 => {
                if i <= 44 {
                    Some(MenuLocation::Generic9x5(Generic9x5MenuLocation::Contents))
                } else if 45 <= i && i <= 80 {
                    Some(MenuLocation::Generic9x5(Generic9x5MenuLocation::Player))
                } else {
                    None
                }
            },
            MenuKind::Generic9x6 => {
                if i <= 53 {
                    Some(MenuLocation::Generic9x6(Generic9x6MenuLocation::Contents))
                } else if 54 <= i && i <= 89 {
                    Some(MenuLocation::Generic9x6(Generic9x6MenuLocation::Player))
                } else {
                    None
                }
            },
            MenuKind::Generic3x3 => {
                if i <= 8 {
                    Some(MenuLocation::Generic3x3(Generic3x3MenuLocation::Contents))
                } else if 9 <= i && i <= 44 {
                    Some(MenuLocation::Generic3x3(Generic3x3MenuLocation::Player))
                } else {
                    None
                }
            },
            MenuKind::Crafter3x3 => {
                if i <= 8 {
                    Some(MenuLocation::Crafter3x3(Crafter3x3MenuLocation::Contents))
                } else if 9 <= i && i <= 44 {
                    Some(MenuLocation::Crafter3x3(Crafter3x3MenuLocation::Player))
                } else {
                    None
                }
            },
            MenuKind::Anvil => {
                if i == 0 {
                    Some(MenuLocation::Anvil(AnvilMenuLocation::First))
                } else if i == 1 {
                    Some(MenuLocation::Anvil(AnvilMenuLocation::Second))
                } else if i == 2 {
                    Some(MenuLocation::Anvil(AnvilMenuLocation::Result))
                } else if 3 <= i && i <= 38 {
                    Some(MenuLocation::Anvil(AnvilMenuLocation::Player))
                } else {
                    None
                }
            },
            MenuKind::Beacon => {
                if i == 0 {
                    Some(MenuLocation::Beacon(BeaconMenuLocation::Payment))
                } else if 1 <= i && i <= 36 {
                    Some(MenuLocation::Beacon(BeaconMenuLocation::Player))
                } else {
                    None
                }
            },
            MenuKind::BlastFurnace => {
                if i == 0 {
                    Some(MenuLocation::BlastFurnace(BlastFurnaceMenuLocation::Ingredient))
                } else if i == 1 {
                    Some(MenuLocation::BlastFurnace(BlastFurnaceMenuLocation::Fuel))
                } else if i == 2 {
                    Some(MenuLocation::BlastFurnace(BlastFurnaceMenuLocation::Result))
                } else if 3 <= i && i <= 38 {
                    Some(MenuLocation::BlastFurnace(BlastFurnaceMenuLocation::Player))
                } else {
                    None
                }
            },
            MenuKind::BrewingStand => {
                if i <= 2 {
                    Some(MenuLocation::BrewingStand(BrewingStandMenuLocation::Bottles))
                } else if i == 3 {
                    Some(MenuLocation::BrewingStand(BrewingStandMenuLocation::Ingredient))
                } else if i == 4 {
                    Some(MenuLocation::BrewingStand(BrewingStandMenuLocation::Fuel))
                } else if 5 <= i && i <= 40 {
                    Some(MenuLocation::BrewingStand(BrewingStandMenuLocation::Player))
                } else {
                    None
                }
            },
            MenuKind::Crafting => {
                if i == 0 {
                    Some(MenuLocation::Crafting(CraftingMenuLocation::Result))
                } else if 1 <= i && i <= 9 {
                    Some(MenuLocation::Crafting(CraftingMenuLocation::Grid))
                } else if 10 <= i && i <= 45 {
                    Some(MenuLocation::Crafting(CraftingMenuLocation::Player))
                } else {
                    None
                }
            },
            MenuKind::Enchantment => {
                if i == 0 {
                    Some(MenuLocation::Enchantment(EnchantmentMenuLocation::Item))
                } else if i == 1 {
                    Some(MenuLocation::Enchantment(EnchantmentMenuLocation::Lapis))
                } else if 2 <= i && i <= 37 {
                    Some(MenuLocation::Enchantment(EnchantmentMenuLocation::Player))
                } else {
                    None
                }
            },
            MenuKind::Furnace => {
                if i == 0 {
                    Some(MenuLocation::Furnace(FurnaceMenuLocation::Ingredient))
                } else if i == 1 {
                    Some(MenuLocation::Furnace(FurnaceMenuLocation::Fuel))
                } else if i == 2 {
                    Some(MenuLocation::Furnace(FurnaceMenuLocation::Result))
                } else if 3 <= i && i <= 38 {
                    Some(MenuLocation::Furnace(FurnaceMenuLocation::Player))
                } else {
                    None
                }
            },
            MenuKind::Grindstone => {
                if i == 0 {
                    Some(MenuLocation::Grindstone(GrindstoneMenuLocation::Input))
                } else if i == 1 {
                    Some(MenuLocation::Grindstone(GrindstoneMenuLocation::Additional))
                } else if i == 2 {
                    Some(MenuLocation::Grindstone(GrindstoneMenuLocation::Result))
                } else if 3 <= i && i <= 38 {
                    Some(MenuLocation::Grindstone(GrindstoneMenuLocation::Player))
                } else {
                    None
                }
            },
            MenuKind::Hopper => {
                if i <= 4 {
                    Some(MenuLocation::Hopper(HopperMenuLocation::Contents))
                } else if 5 <= i && i <= 40 {
                    Some(MenuLocation::Hopper(HopperMenuLocation::Player))
                } else {
                    None
                }
            },
            MenuKind::Lectern => {
                if i == 0 {
                    Some(MenuLocation::Lectern(LecternMenuLocation::Book))
                } else if 1 <= i && i <= 36 {
                    Some(MenuLocation::Lectern(LecternMenuLocation::Player))
                } else {
                    None
                }
            },
            MenuKind::Loom => {
                if i == 0 {
                    Some(MenuLocation::Loom(LoomMenuLocation::Banner))
                } else if i == 1 {
                    Some(MenuLocation::Loom(LoomMenuLocation::Dye))
                } else if i == 2 {
                    Some(MenuLocation::Loom(LoomMenuLocation::Pattern))
                } else if i == 3 {
                    Some(MenuLocation::Loom(LoomMenuLocation::Result))
                } else if 4 <= i && i <= 39 {
                    Some(MenuLocation::Loom(LoomMenuLocation::Player))
                } else {
                    None
                }
            },
            MenuKind::Merchant => {
                if i <= 1 {
                    Some(MenuLocation::Merchant(MerchantMenuLocation::Payments))
                } else if i == 2 {
                    Some(MenuLocation::Merchant(MerchantMenuLocation::Result))
                } else if 3 <= i && i <= 38 {
                    Some(MenuLocation::Merchant(MerchantMenuLocation::Player))
                } else {
                    None
                }
            },
            MenuKind::ShulkerBox => {
                if i <= 26 {
                    Some(MenuLocation::ShulkerBox(ShulkerBoxMenuLocation::Contents))
                } else if 27 <= i && i <= 62 {
                    Some(MenuLocation::ShulkerBox(ShulkerBoxMenuLocation::Player))
                } else {
                    None
                }
            },
            MenuKind::Smithing => {
                if i == 0 {
                    Some(MenuLocation::Smithing(SmithingMenuLocation::Template))
                } else if i == 1 {
                    Some(MenuLocation::Smithing(SmithingMenuLocation::Base))
                } else if i == 2 {
                    Some(MenuLocation::Smithing(SmithingMenuLocation::Additional))
                } else if i == 3 {
                    Some(MenuLocation::Smithing(SmithingMenuLocation::Result))
                } else if 4 <= i && i <= 39 {
                    Some(MenuLocation::Smithing(SmithingMenuLocation::Player))
                } else {
                    None
                }
            },
            MenuKind::Smoker => {
                if i == 0 {
                    Some(MenuLocation::Smoker(SmokerMenuLocation::Ingredient))
                } else if i == 1 {
                    Some(MenuLocation::Smoker(SmokerMenuLocation::Fuel))
                } else if i == 2 {
                    Some(MenuLocation::Smoker(SmokerMenuLocation::Result))
                } else if 3 <= i && i <= 38 {
                    Some(MenuLocation::Smoker(SmokerMenuLocation::Player))
                } else {
                    None
                }
            },
            MenuKind::CartographyTable => {
                if i == 0 {
                    Some(MenuLocation::CartographyTable(CartographyTableMenuLocation::MapInput))
                } else if i == 1 {
                    Some(MenuLocation::CartographyTable(CartographyTableMenuLocation::Additional))
                } else if i == 2 {
                    Some(MenuLocation::CartographyTable(CartographyTableMenuLocation::Result))
                } else if 3 <= i && i <= 38 {
                    Some(MenuLocation::CartographyTable(CartographyTableMenuLocation::Player))
                } else {
                    None
                }
            },
            MenuKind::Stonecutter => {
                if i == 0 {
                    Some(MenuLocation::Stonecutter(StonecutterMenuLocation::Input))
                } else if i == 1 {
                    Some(MenuLocation::Stonecutter(StonecutterMenuLocation::Result))
                } else if 2 <= i && i <= 37 {
                    Some(MenuLocation::Stonecutter(StonecutterMenuLocation::Player))
                } else {
                    None
                }
            },
        }
    }
}

impl View for Menu {
    type V = Seq<ItemStack>;

    /// Every slot of the menu, in protocol order.
    open spec fn view(&self) -> Seq<ItemStack> {
        match self {
            Menu::Player(p) => p@,
            Menu::Generic9x1 { contents, player } => contents@ + player@,
            Menu::Generic9x2 { contents, player } => contents@ + player@,
            Menu::Generic9x3 { contents, player } => contents@ + player@,
            Menu::Generic9x4 { contents, player } => contents@ + player@,
            Menu::Generic9x5 { contents, player } => contents@ + player@,
            Menu::Generic9x6 { contents, player } => contents@ + player@,
            Menu::Generic3x3 { contents, player } => contents@ + player@,
            Menu::Crafter3x3 { contents, player } => contents@ + player@,
            Menu::Anvil { first, second, result, player } => seq![*first] + seq![*second] + seq![*result] + player@,
            Menu::Beacon { payment, player } => seq![*payment] + player@,
            Menu::BlastFurnace { ingredient, fuel, result, player } => seq![*ingredient] + seq![*fuel] + seq![*result] + player@,
            Menu::BrewingStand { bottles, ingredient, fuel, player } => bottles@ + seq![*ingredient] + seq![*fuel] + player@,
            Menu::Crafting { result, grid, player } => seq![*result] + grid@ + player@,
            Menu::Enchantment { item, lapis, player } => seq![*item] + seq![*lapis] + player@,
            Menu::Furnace { ingredient, fuel, result, player } => seq![*ingredient] + seq![*fuel] + seq![*result] + player@,
            Menu::Grindstone { input, additional, result, player } => seq![*input] + seq![*additional] + seq![*result] + player@,
            Menu::Hopper { contents, player } => contents@ + player@,
            Menu::Lectern { book, player } => seq![*book] + player@,
            Menu::Loom { banner, dye, pattern, result, player } => seq![*banner] + seq![*dye] + seq![*pattern] + seq![*result] + player@,
            Menu::Merchant { payments, result, player } => payments@ + seq![*result] + player@,
            Menu::ShulkerBox { contents, player } => contents@ + player@,
            Menu::Smithing { template, base, additional, result, player } => seq![*template] + seq![*base] + seq![*additional] + seq![*result] + player@,
            Menu::Smoker { ingredient, fuel, result, player } => seq![*ingredient] + seq![*fuel] + seq![*result] + player@,
            Menu::CartographyTable { map, additional, result, player } => seq![*map] + seq![*additional] + seq![*result] + player@,
            Menu::Stonecutter { input, result, player } => seq![*input] + seq![*result] + player@,
        }
    }
}

impl View for Player {
    type V = Seq<ItemStack>;

    open spec fn view(&self) -> Seq<ItemStack> {
        seq![self.craft_result] + self.craft@ + self.armor@ + self.inventory@ + seq![self.offhand]
    }
}

impl Menu {
    /// Which kind of menu this is.
    pub open spec fn spec_kind(&self) -> MenuKind {
        match self {
            Menu::Player(_) => MenuKind::Player,
            Menu::Generic9x1 { .. } => MenuKind::Generic9x1,
            Menu::Generic9x2 { .. } => MenuKind::Generic9x2,
            Menu::Generic9x3 { .. } => MenuKind::Generic9x3,
            Menu::Generic9x4 { .. } => MenuKind::Generic9x4,
            Menu::Generic9x5 { .. } => MenuKind::Generic9x5,
            Menu::Generic9x6 { .. } => MenuKind::Generic9x6,
            Menu::Generic3x3 { .. } => MenuKind::Generic3x3,
            Menu::Crafter3x3 { .. } => MenuKind::Crafter3x3,
            Menu::Anvil { .. } => MenuKind::Anvil,
            Menu::Beacon { .. } => MenuKind::Beacon,
            Menu::BlastFurnace { .. } => MenuKind::BlastFurnace,
            Menu::BrewingStand { .. } => MenuKind::BrewingStand,
            Menu::Crafting { .. } => MenuKind::Crafting,
            Menu::Enchantment { .. } => MenuKind::Enchantment,
            Menu::Furnace { .. } => MenuKind::Furnace,
            Menu::Grindstone { .. } => MenuKind::Grindstone,
            Menu::Hopper { .. } => MenuKind::Hopper,
            Menu::Lectern { .. } => MenuKind::Lectern,
            Menu::Loom { .. } => MenuKind::Loom,
            Menu::Merchant { .. } => MenuKind::Merchant,
            Menu::ShulkerBox { .. } => MenuKind::ShulkerBox,
            Menu::Smithing { .. } => MenuKind::Smithing,
            Menu::Smoker { .. } => MenuKind::Smoker,
            Menu::CartographyTable { .. } => MenuKind::CartographyTable,
            Menu::Stonecutter { .. } => MenuKind::Stonecutter,
        }
    }

    /// Which kind of menu this is.
    pub fn kind(&self) -> (k: MenuKind)
        ensures
            k == self.spec_kind(),
    {
        match self {
            Menu::Player(_) => MenuKind::Player,
            Menu::Generic9x1 { .. } => MenuKind::Generic9x1,
            Menu::Generic9x2 { .. } => MenuKind::Generic9x2,
            Menu::Generic9x3 { .. } => MenuKind::Generic9x3,
            Menu::Generic9x4 { .. } => MenuKind::Generic9x4,
            Menu::Generic9x5 { .. } => MenuKind::Generic9x5,
            Menu::Generic9x6 { .. } => MenuKind::Generic9x6,
            Menu::Generic3x3 { .. } => MenuKind::Generic3x3,
            Menu::Crafter3x3 { .. } => MenuKind::Crafter3x3,
            Menu::Anvil { .. } => MenuKind::Anvil,
            Menu::Beacon { .. } => MenuKind::Beacon,
            Menu::BlastFurnace { .. } => MenuKind::BlastFurnace,
            Menu::BrewingStand { .. } => MenuKind::BrewingStand,
            Menu::Crafting { .. } => MenuKind::Crafting,
            Menu::Enchantment { .. } => MenuKind::Enchantment,
            Menu::Furnace { .. } => MenuKind::Furnace,
            Menu::Grindstone { .. } => MenuKind::Grindstone,
            Menu::Hopper { .. } => MenuKind::Hopper,
            Menu::Lectern { .. } => MenuKind::Lectern,
            Menu::Loom { .. } => MenuKind::Loom,
            Menu::Merchant { .. } => MenuKind::Merchant,
            Menu::ShulkerBox { .. } => MenuKind::ShulkerBox,
            Menu::Smithing { .. } => MenuKind::Smithing,
            Menu::Smoker { .. } => MenuKind::Smoker,
            Menu::CartographyTable { .. } => MenuKind::CartographyTable,
            Menu::Stonecutter { .. } => MenuKind::Stonecutter,
        }
    }

    /// The number of slots is fixed by the kind of menu.
    pub proof fn lemma_len(&self)
        ensures
            self@.len() == self.spec_kind().spec_len(),
    {
        broadcast use vstd::array::array_len_matches_n;

        match self {
            Menu::Player(p) => {
                assert(p.craft@.len() == 4);
                assert(p.armor@.len() == 4);
                assert(p.inventory@.len() == 36);
            },
            Menu::Generic9x1 { contents, player } => {
                assert(contents@.len() == 9);
                assert(player@.len() == 36);
            },
            Menu::Generic9x2 { contents, player } => {
                assert(contents@.len() == 18);
                assert(player@.len() == 36);
            },
            Menu::Generic9x3 { contents, player } => {
                assert(contents@.len() == 27);
                assert(player@.len() == 36);
            },
            Menu::Generic9x4 { contents, player } => {
                assert(contents@.len() == 36);
                assert(player@.len() == 36);
            },
            Menu::Generic9x5 { contents, player } => {
                assert(contents@.len() == 45);
                assert(player@.len() == 36);
            },
            Menu::Generic9x6 { contents, player } => {
                assert(contents@.len() == 54);
                assert(player@.len() == 36);
            },
            Menu::Generic3x3 { contents, player } => {
                assert(contents@.len() == 9);
                assert(player@.len() == 36);
            },
            Menu::Crafter3x3 { contents, player } => {
                assert(contents@.len() == 9);
                assert(player@.len() == 36);
            },
            Menu::Anvil { first, second, result, player } => {
                assert(player@.len() == 36);
            },
            Menu::Beacon { payment, player } => {
                assert(player@.len() == 36);
            },
            Menu::BlastFurnace { ingredient, fuel, result, player } => {
                assert(player@.len() == 36);
            },
            Menu::BrewingStand { bottles, ingredient, fuel, player } => {
                assert(bottles@.len() == 3);
                assert(player@.len() == 36);
            },
            Menu::Crafting { result, grid, player } => {
                assert(grid@.len() == 9);
                assert(player@.len() == 36);
            },
            Menu::Enchantment { item, lapis, player } => {
                assert(player@.len() == 36);
            },
            Menu::Furnace { ingredient, fuel, result, player } => {
                assert(player@.len() == 36);
            },
            Menu::Grindstone { input, additional, result, player } => {
                assert(player@.len() == 36);
            },
            Menu::Hopper { contents, player } => {
                assert(contents@.len() == 5);
                assert(player@.len() == 36);
            },
            Menu::Lectern { book, player } => {
                assert(player@.len() == 36);
            },
            Menu::Loom { banner, dye, pattern, result, player } => {
                assert(player@.len() == 36);
            },
            Menu::Merchant { payments, result, player } => {
                assert(payments@.len() == 2);
                assert(player@.len() == 36);
            },
            Menu::ShulkerBox { contents, player } => {
                assert(contents@.len() == 27);
                assert(player@.len() == 36);
            },
            Menu::Smithing { template, base, additional, result, player } => {
                assert(player@.len() == 36);
            },
            Menu::Smoker { ingredient, fuel, result, player } => {
                assert(player@.len() == 36);
            },
            Menu::CartographyTable { map, additional, result, player } => {
                assert(player@.len() == 36);
            },
            Menu::Stonecutter { input, result, player } => {
                assert(player@.len() == 36);
            },
        }
    }

    /// Get a reference to the [`ItemStack`] at the given protocol index, or
    /// `None` if the index is out of bounds.
    pub fn slot(&self, i: usize) -> (r: Option<&ItemStack>)
        ensures
            match r {
                Some(s) => i < self@.len() && *s == self@[i as int],
                None => i >= self@.len(),
            },
    {
        proof { self.lemma_len(); }
        broadcast use vstd::array::array_len_matches_n;

        match self {
            Menu::Player(p) => {
                if i == 0 {
                    Some(&p.craft_result)
                } else if i <= 4 {
                    Some(&p.craft.0[i - 1])
                } else if i <= 8 {
                    Some(&p.armor.0[i - 5])
                } else if i <= 44 {
                    Some(&p.inventory.0[i - 9])
                } else if i == 45 {
                    Some(&p.offhand)
                } else {
                    None
                }
            },
            Menu::Generic9x1 { contents, player } => {
                if i <= 8 {
                    Some(&contents.0[i])
                } else if i <= 44 {
                    Some(&player.0[i - 9])
                } else {
                    None
                }
            },
            Menu::Generic9x2 { contents, player } => {
                if i <= 17 {
                    Some(&contents.0[i])
                } else if i <= 53 {
                    Some(&player.0[i - 18])
                } else {
                    None
                }
            },
            Menu::Generic9x3 { contents, player } => {
                if i <= 26 {
                    Some(&contents.0[i])
                } else if i <= 62 {
                    Some(&player.0[i - 27])
                } else {
                    None
                }
            },
            Menu::Generic9x4 { contents, player } => {
                if i <= 35 {
                    Some(&contents.0[i])
                } else if i <= 71 {
                    Some(&player.0[i - 36])
                } else {
                    None
                }
            },
            Menu::Generic9x5 { contents, player } => {
                if i <= 44 {
                    Some(&contents.0[i])
                } else if i <= 80 {
                    Some(&player.0[i - 45])
                } else {
                    None
                }
            },
            Menu::Generic9x6 { contents, player } => {
                if i <= 53 {
                    Some(&contents.0[i])
                } else if i <= 89 {
                    Some(&player.0[i - 54])
                } else {
                    None
                }
            },
            Menu::Generic3x3 { contents, player } => {
                if i <= 8 {
                    Some(&contents.0[i])
                } else if i <= 44 {
                    Some(&player.0[i - 9])
                } else {
                    None
                }
            },
            Menu::Crafter3x3 { contents, player } => {
                if i <= 8 {
                    Some(&contents.0[i])
                } else if i <= 44 {
                    Some(&player.0[i - 9])
                } else {
                    None
                }
            },
            Menu::Anvil { first, second, result, player } => {
                if i == 0 {
                    Some(first)
                } else if i == 1 {
                    Some(second)
                } else if i == 2 {
                    Some(result)
                } else if i <= 38 {
                    Some(&player.0[i - 3])
                } else {
                    None
                }
            },
            Menu::Beacon { payment, player } => {
                if i == 0 {
                    Some(payment)
                } else if i <= 36 {
                    Some(&player.0[i - 1])
                } else {
                    None
                }
            },
            Menu::BlastFurnace { ingredient, fuel, result, player } => {
                if i == 0 {
                    Some(ingredient)
                } else if i == 1 {
                    Some(fuel)
                } else if i == 2 {
                    Some(result)
                } else if i <= 38 {
                    Some(&player.0[i - 3])
                } else {
                    None
                }
            },
            Menu::BrewingStand { bottles, ingredient, fuel, player } => {
                if i <= 2 {
                    Some(&bottles.0[i])
                } else if i == 3 {
                    Some(ingredient)
                } else if i == 4 {
                    Some(fuel)
                } else if i <= 40 {
                    Some(&player.0[i - 5])
                } else {
                    None
                }
            },
            Menu::Crafting { result, grid, player } => {
                if i == 0 {
                    Some(result)
                } else if i <= 9 {
                    Some(&grid.0[i - 1])
                } else if i <= 45 {
                    Some(&player.0[i - 10])
                } else {
                    None
                }
            },
            Menu::Enchantment { item, lapis, player } => {
                if i == 0 {
                    Some(item)
                } else if i == 1 {
                    Some(lapis)
                } else if i <= 37 {
                    Some(&player.0[i - 2])
                } else {
                    None
                }
            },
            Menu::Furnace { ingredient, fuel, result, player } => {
                if i == 0 {
                    Some(ingredient)
                } else if i == 1 {
                    Some(fuel)
                } else if i == 2 {
                    Some(result)
                } else if i <= 38 {
                    Some(&player.0[i - 3])
                } else {
                    None
                }
            },
            Menu::Grindstone { input, additional, result, player } => {
                if i == 0 {
                    Some(input)
                } else if i == 1 {
                    Some(additional)
                } else if i == 2 {
                    Some(result)
                } else if i <= 38 {
                    Some(&player.0[i - 3])
                } else {
                    None
                }
            },
            Menu::Hopper { contents, player } => {
                if i <= 4 {
                    Some(&contents.0[i])
                } else if i <= 40 {
                    Some(&player.0[i - 5])
                } else {
                    None
                }
            },
            Menu::Lectern { book, player } => {
                if i == 0 {
                    Some(book)
                } else if i <= 36 {
                    Some(&player.0[i - 1])
                } else {
                    None
                }
            },
            Menu::Loom { banner, dye, pattern, result, player } => {
                if i == 0 {
                    Some(banner)
                } else if i == 1 {
                    Some(dye)
                } else if i == 2 {
                    Some(pattern)
                } else if i == 3 {
                    Some(result)
                } else if i <= 39 {
                    Some(&player.0[i - 4])
                } else {
                    None
                }
            },
            Menu::Merchant { payments, result, player } => {
                if i <= 1 {
                    Some(&payments.0[i])
                } else if i == 2 {
                    Some(result)
                } else if i <= 38 {
                    Some(&player.0[i - 3])
                } else {
                    None
                }
            },
            Menu::ShulkerBox { contents, player } => {
                if i <= 26 {
                    Some(&contents.0[i])
                } else if i <= 62 {
                    Some(&player.0[i - 27])
                } else {
                    None
                }
            },
            Menu::Smithing { template, base, additional, result, player } => {
                if i == 0 {
                    Some(template)
                } else if i == 1 {
                    Some(base)
                } else if i == 2 {
                    Some(additional)
                } else if i == 3 {
                    Some(result)
                } else if i <= 39 {
                    Some(&player.0[i - 4])
                } else {
                    None
                }
            },
            Menu::Smoker { ingredient, fuel, result, player } => {
                if i == 0 {
                    Some(ingredient)
                } else if i == 1 {
                    Some(fuel)
                } else if i == 2 {
                    Some(result)
                } else if i <= 38 {
                    Some(&player.0[i - 3])
                } else {
                    None
                }
            },
            Menu::CartographyTable { map, additional, result, player } => {
                if i == 0 {
                    Some(map)
                } else if i == 1 {
                    Some(additional)
                } else if i == 2 {
                    Some(result)
                } else if i <= 38 {
                    Some(&player.0[i - 3])
                } else {
                    None
                }
            },
            Menu::Stonecutter { input, result, player } => {
                if i == 0 {
                    Some(input)
                } else if i == 1 {
                    Some(result)
                } else if i <= 37 {
                    Some(&player.0[i - 2])
                } else {
                    None
                }
            },
        }
    }

    /// Replace the [`ItemStack`] at the given protocol index.
    #[verifier::rlimit(80)]
    #[verifier::spinoff_prover]
    pub fn set_slot(&mut self, i: usize, v: ItemStack)
        requires
            i < old(self)@.len(),
        ensures
            final(self)@ == old(self)@.update(i as int, v),
            final(self).spec_kind() == old(self).spec_kind(),
    {
        proof { old(self).lemma_len(); }
        broadcast use vstd::array::array_len_matches_n;

        match self {
            Menu::Player(p) => {
                if i == 0 {
                    p.craft_result = v;
                } else if i <= 4 {
                    p.craft.0[i - 1] = v;
                } else if i <= 8 {
                    p.armor.0[i - 5] = v;
                } else if i <= 44 {
                    p.inventory.0[i - 9] = v;
                } else if i == 45 {
                    p.offhand = v;
                } else {
                    
                }
            },
            Menu::Generic9x1 { contents, player } => {
                if i <= 8 {
                    contents.0[i] = v;
                } else if i <= 44 {
                    player.0[i - 9] = v;
                } else {
                    
                }
            },
            Menu::Generic9x2 { contents, player } => {
                if i <= 17 {
                    contents.0[i] = v;
                } else if i <= 53 {
                    player.0[i - 18] = v;
                } else {
                    
                }
            },
            Menu::Generic9x3 { contents, player } => {
                if i <= 26 {
                    contents.0[i] = v;
                } else if i <= 62 {
                    player.0[i - 27] = v;
                } else {
                    
                }
            },
            Menu::Generic9x4 { contents, player } => {
                if i <= 35 {
                    contents.0[i] = v;
                } else if i <= 71 {
                    player.0[i - 36] = v;
                } else {
                    
                }
            },
            Menu::Generic9x5 { contents, player } => {
                if i <= 44 {
                    contents.0[i] = v;
                } else if i <= 80 {
                    player.0[i - 45] = v;
                } else {
                    
                }
            },
            Menu::Generic9x6 { contents, player } => {
                if i <= 53 {
                    contents.0[i] = v;
                } else if i <= 89 {
                    player.0[i - 54] = v;
                } else {
                    
                }
            },
            Menu::Generic3x3 { contents, player } => {
                if i <= 8 {
                    contents.0[i] = v;
                } else if i <= 44 {
                    player.0[i - 9] = v;
                } else {
                    
                }
            },
            Menu::Crafter3x3 { contents, player } => {
                if i <= 8 {
                    contents.0[i] = v;
                } else if i <= 44 {
                    player.0[i - 9] = v;
                } else {
                    
                }
            },
            Menu::Anvil { first, second, result, player } => {
                if i == 0 {
                    *first = v;
                } else if i == 1 {
                    *second = v;
                } else if i == 2 {
                    *result = v;
                } else if i <= 38 {
                    player.0[i - 3] = v;
                } else {
                    
                }
            },
            Menu::Beacon { payment, player } => {
                if i == 0 {
                    *payment = v;
                } else if i <= 36 {
                    player.0[i - 1] = v;
                } else {
                    
                }
            },
            Menu::BlastFurnace { ingredient, fuel, result, player } => {
                if i == 0 {
                    *ingredient = v;
                } else if i == 1 {
                    *fuel = v;
                } else if i == 2 {
                    *result = v;
                } else if i <= 38 {
                    player.0[i - 3] = v;
                } else {
                    
                }
            },
            Menu::BrewingStand { bottles, ingredient, fuel, player } => {
                if i <= 2 {
                    bottles.0[i] = v;
                } else if i == 3 {
                    *ingredient = v;
                } else if i == 4 {
                    *fuel = v;
                } else if i <= 40 {
                    player.0[i - 5] = v;
                } else {
                    
                }
            },
            Menu::Crafting { result, grid, player } => {
                if i == 0 {
                    *result = v;
                } else if i <= 9 {
                    grid.0[i - 1] = v;
                } else if i <= 45 {
                    player.0[i - 10] = v;
                } else {
                    
                }
            },
            Menu::Enchantment { item, lapis, player } => {
                if i == 0 {
                    *item = v;
                } else if i == 1 {
                    *lapis = v;
                } else if i <= 37 {
                    player.0[i - 2] = v;
                } else {
                    
                }
            },
            Menu::Furnace { ingredient, fuel, result, player } => {
                if i == 0 {
                    *ingredient = v;
                } else if i == 1 {
                    *fuel = v;
                } else if i == 2 {
                    *result = v;
                } else if i <= 38 {
                    player.0[i - 3] = v;
                } else {
                    
                }
            },
            Menu::Grindstone { input, additional, result, player } => {
                if i == 0 {
                    *input = v;
                } else if i == 1 {
                    *additional = v;
                } else if i == 2 {
                    *result = v;
                } else if i <= 38 {
                    player.0[i - 3] = v;
                } else {
                    
                }
            },
            Menu::Hopper { contents, player } => {
                if i <= 4 {
                    contents.0[i] = v;
                } else if i <= 40 {
                    player.0[i - 5] = v;
                } else {
                    
                }
            },
            Menu::Lectern { book, player } => {
                if i == 0 {
                    *book = v;
                } else if i <= 36 {
                    player.0[i - 1] = v;
                } else {
                    
                }
            },
            Menu::Loom { banner, dye, pattern, result, player } => {
                if i == 0 {
                    *banner = v;
                } else if i == 1 {
                    *dye = v;
                } else if i == 2 {
                    *pattern = v;
                } else if i == 3 {
                    *result = v;
                } else if i <= 39 {
                    player.0[i - 4] = v;
                } else {
                    
                }
            },
            Menu::Merchant { payments, result, player } => {
                if i <= 1 {
                    payments.0[i] = v;
                } else if i == 2 {
                    *result = v;
                } else if i <= 38 {
                    player.0[i - 3] = v;
                } else {
                    
                }
            },
            Menu::ShulkerBox { contents, player } => {
                if i <= 26 {
                    contents.0[i] = v;
                } else if i <= 62 {
                    player.0[i - 27] = v;
                } else {
                    
                }
            },
            Menu::Smithing { template, base, additional, result, player } => {
                if i == 0 {
                    *template = v;
                } else if i == 1 {
                    *base = v;
                } else if i == 2 {
                    *additional = v;
                } else if i == 3 {
                    *result = v;
                } else if i <= 39 {
                    player.0[i - 4] = v;
                } else {
                    
                }
            },
            Menu::Smoker { ingredient, fuel, result, player } => {
                if i == 0 {
                    *ingredient = v;
                } else if i == 1 {
                    *fuel = v;
                } else if i == 2 {
                    *result = v;
                } else if i <= 38 {
                    player.0[i - 3] = v;
                } else {
                    
                }
            },
            Menu::CartographyTable { map, additional, result, player } => {
                if i == 0 {
                    *map = v;
                } else if i == 1 {
                    *additional = v;
                } else if i == 2 {
                    *result = v;
                } else if i <= 38 {
                    player.0[i - 3] = v;
                } else {
                    
                }
            },
            Menu::Stonecutter { input, result, player } => {
                if i == 0 {
                    *input = v;
                } else if i == 1 {
                    *result = v;
                } else if i <= 37 {
                    player.0[i - 2] = v;
                } else {
                    
                }
            },
        }
    }
}impl Menu {
    /// An empty menu of the given kind.
    #[verifier::rlimit(40)]
    pub fn from_kind(kind: MenuKind) -> (m: Menu)
        ensures
            m.spec_kind() == kind,
            m@.len() == kind.spec_len(),
            forall|i: int| 0 <= i < m@.len() ==> m@[i] == ItemStack::Empty,
    {
        let m = match kind {
            MenuKind::Player => Menu::Player(Player::default()),
            MenuKind::Generic9x1 => Menu::Generic9x1 { contents: SlotList::default(), player: SlotList::default() },
            MenuKind::Generic9x2 => Menu::Generic9x2 { contents: SlotList::default(), player: SlotList::default() },
            MenuKind::Generic9x3 => Menu::Generic9x3 { contents: SlotList::default(), player: SlotList::default() },
            MenuKind::Generic9x4 => Menu::Generic9x4 { contents: SlotList::default(), player: SlotList::default() },
            MenuKind::Generic9x5 => Menu::Generic9x5 { contents: SlotList::default(), player: SlotList::default() },
            MenuKind::Generic9x6 => Menu::Generic9x6 { contents: SlotList::default(), player: SlotList::default() },
            MenuKind::Generic3x3 => Menu::Generic3x3 { contents: SlotList::default(), player: SlotList::default() },
            MenuKind::Crafter3x3 => Menu::Crafter3x3 { contents: SlotList::default(), player: SlotList::default() },
            MenuKind::Anvil => Menu::Anvil { first: ItemStack::Empty, second: ItemStack::Empty, result: ItemStack::Empty, player: SlotList::default() },
            MenuKind::Beacon => Menu::Beacon { payment: ItemStack::Empty, player: SlotList::default() },
            MenuKind::BlastFurnace => Menu::BlastFurnace { ingredient: ItemStack::Empty, fuel: ItemStack::Empty, result: ItemStack::Empty, player: SlotList::default() },
            MenuKind::BrewingStand => Menu::BrewingStand { bottles: SlotList::default(), ingredient: ItemStack::Empty, fuel: ItemStack::Empty, player: SlotList::default() },
            MenuKind::Crafting => Menu::Crafting { result: ItemStack::Empty, grid: SlotList::default(), player: SlotList::default() },
            MenuKind::Enchantment => Menu::Enchantment { item: ItemStack::Empty, lapis: ItemStack::Empty, player: SlotList::default() },
            MenuKind::Furnace => Menu::Furnace { ingredient: ItemStack::Empty, fuel: ItemStack::Empty, result: ItemStack::Empty, player: SlotList::default() },
            MenuKind::Grindstone => Menu::Grindstone { input: ItemStack::Empty, additional: ItemStack::Empty, result: ItemStack::Empty, player: SlotList::default() },
            MenuKind::Hopper => Menu::Hopper { contents: SlotList::default(), player: SlotList::default() },
            MenuKind::Lectern => Menu::Lectern { book: ItemStack::Empty, player: SlotList::default() },
            MenuKind::Loom => Menu::Loom { banner: ItemStack::Empty, dye: ItemStack::Empty, pattern: ItemStack::Empty, result: ItemStack::Empty, player: SlotList::default() },
            MenuKind::Merchant => Menu::Merchant { payments: SlotList::default(), result: ItemStack::Empty, player: SlotList::default() },
            MenuKind::ShulkerBox => Menu::ShulkerBox { contents: SlotList::default(), player: SlotList::default() },
            MenuKind::Smithing => Menu::Smithing { template: ItemStack::Empty, base: ItemStack::Empty, additional: ItemStack::Empty, result: ItemStack::Empty, player: SlotList::default() },
            MenuKind::Smoker => Menu::Smoker { ingredient: ItemStack::Empty, fuel: ItemStack::Empty, result: ItemStack::Empty, player: SlotList::default() },
            MenuKind::CartographyTable => Menu::CartographyTable { map: ItemStack::Empty, additional: ItemStack::Empty, result: ItemStack::Empty, player: SlotList::default() },
            MenuKind::Stonecutter => Menu::Stonecutter { input: ItemStack::Empty, result: ItemStack::Empty, player: SlotList::default() },
        };
        proof { m.lemma_len(); }
        m
    }
}impl MenuLocation {
    /// The kind of menu that a location belongs to.
    pub open spec fn spec_menu_kind(self) -> MenuKind {
        match self {
            MenuLocation::Player(_) => MenuKind::Player,
            MenuLocation::Generic9x1(_) => MenuKind::Generic9x1,
            MenuLocation::Generic9x2(_) => MenuKind::Generic9x2,
            MenuLocation::Generic9x3(_) => MenuKind::Generic9x3,
            MenuLocation::Generic9x4(_) => MenuKind::Generic9x4,
            MenuLocation::Generic9x5(_) => MenuKind::Generic9x5,
            MenuLocation::Generic9x6(_) => MenuKind::Generic9x6,
            MenuLocation::Generic3x3(_) => MenuKind::Generic3x3,
            MenuLocation::Crafter3x3(_) => MenuKind::Crafter3x3,
            MenuLocation::Anvil(_) => MenuKind::Anvil,
            MenuLocation::Beacon(_) => MenuKind::Beacon,
            MenuLocation::BlastFurnace(_) => MenuKind::BlastFurnace,
            MenuLocation::BrewingStand(_) => MenuKind::BrewingStand,
            MenuLocation::Crafting(_) => MenuKind::Crafting,
            MenuLocation::Enchantment(_) => MenuKind::Enchantment,
            MenuLocation::Furnace(_) => MenuKind::Furnace,
            MenuLocation::Grindstone(_) => MenuKind::Grindstone,
            MenuLocation::Hopper(_) => MenuKind::Hopper,
            MenuLocation::Lectern(_) => MenuKind::Lectern,
            MenuLocation::Loom(_) => MenuKind::Loom,
            MenuLocation::Merchant(_) => MenuKind::Merchant,
            MenuLocation::ShulkerBox(_) => MenuKind::ShulkerBox,
            MenuLocation::Smithing(_) => MenuKind::Smithing,
            MenuLocation::Smoker(_) => MenuKind::Smoker,
            MenuLocation::CartographyTable(_) => MenuKind::CartographyTable,
            MenuLocation::Stonecutter(_) => MenuKind::Stonecutter,
        }
    }
}

impl MenuKind {
    /// A location found in a kind of menu belongs to that kind.
    pub proof fn lemma_location_kind(self, i: int)
        ensures
            self.spec_location(i) matches Some(loc) ==> loc.spec_menu_kind() == self,
    {
    }
}
impl Default for Player {
    /// A player inventory with every slot empty.
    fn default() -> (p: Player)
        ensures
            p@.len() == 46,
            forall|i: int| 0 <= i < 46 ==> p@[i] == ItemStack::Empty,
    {
        Player {
            craft_result: ItemStack::Empty,
            craft: SlotList::default(),
            armor: SlotList::default(),
            inventory: SlotList::default(),
            offhand: ItemStack::Empty,
        }
    }
}

impl Player {
    /// The player's main inventory and hotbar, `9..=44`.
    pub fn inventory_slots() -> (r: SlotRange)
        ensures
            r == (SlotRange { start: 9, end: 44 }),
    {
        SlotRange { start: PLAYER_INVENTORY_SLOTS_START, end: PLAYER_INVENTORY_SLOTS_END }
    }

    /// The hotbar, `36..=44`.
    pub fn hotbar_slots() -> (r: SlotRange)
        ensures
            r == (SlotRange { start: 36, end: 44 }),
    {
        SlotRange { start: 36, end: 44 }
    }

    /// The main inventory without the hotbar, `9..=35`.
    pub fn inventory_without_hotbar_slots() -> (r: SlotRange)
        ensures
            r == (SlotRange { start: 9, end: 35 }),
    {
        SlotRange { start: 9, end: 35 }
    }

    /// The crafting grid, `1..=4`.
    pub fn craft_slots() -> (r: SlotRange)
        ensures
            r == (SlotRange { start: 1, end: 4 }),
    {
        SlotRange { start: PLAYER_CRAFT_SLOTS_START, end: PLAYER_CRAFT_SLOTS_END }
    }

    /// The armor slots, `5..=8`.
    pub fn armor_slots() -> (r: SlotRange)
        ensures
            r == (SlotRange { start: 5, end: 8 }),
    {
        SlotRange { start: PLAYER_ARMOR_SLOTS_START, end: PLAYER_ARMOR_SLOTS_END }
    }

    /// Returns whether the given protocol index is in the player's hotbar.
    pub fn is_hotbar_slot(i: usize) -> (b: bool)
        ensures
            b == (36 <= i <= 44),
    {
        36 <= i && i <= 44
    }
}

impl MenuKind {
    /// The slot indexes that hold the player's inventory: `9..=44` in the
    /// player menu, the last 36 slots everywhere else.
    pub open spec fn spec_player_slots(self) -> SlotRange {
        if self == MenuKind::Player {
            SlotRange { start: 9, end: 44 }
        } else {
            SlotRange { start: (self.spec_len() - 36) as usize, end: (self.spec_len() - 1) as usize }
        }
    }

    /// The hotbar: the last 9 of the player slots.
    pub open spec fn spec_hotbar_slots(self) -> SlotRange {
        SlotRange {
            start: (self.spec_player_slots().end - 8) as usize,
            end: self.spec_player_slots().end,
        }
    }

    /// The player slots without the hotbar.
    pub open spec fn spec_player_slots_without_hotbar(self) -> SlotRange {
        SlotRange {
            start: self.spec_player_slots().start,
            end: (self.spec_player_slots().end - 9) as usize,
        }
    }

    pub proof fn lemma_player_slots(self)
        ensures
            self.spec_len() >= 46 || (self.spec_len() >= 37 && self != MenuKind::Player),
            self.spec_player_slots().end == self.spec_len() - 1 || self == MenuKind::Player,
            self.spec_player_slots().start + 35 == self.spec_player_slots().end,
            self.spec_player_slots().end < self.spec_len(),
            self.spec_player_slots().start >= 1,
    {
    }

    pub fn player_slots(self) -> (r: SlotRange)
        ensures
            r == self.spec_player_slots(),
    {
        match self {
            MenuKind::Player => SlotRange { start: 9, end: 44 },
            _ => {
                let n = self.len();
                SlotRange { start: n - 36, end: n - 1 }
            },
        }
    }
}

impl Menu {
    /// The number of slots in the menu.
    pub fn len(&self) -> (n: usize)
        ensures
            n == self@.len(),
    {
        proof {
            self.lemma_len();
        }
        self.kind().len()
    }

    /// Which field of the menu slot `i` falls in, or `None` past the end.
    pub fn location_for_slot(&self, i: usize) -> (r: Option<MenuLocation>)
        ensures
            r == self.spec_kind().spec_location(i as int),
    {
        self.kind().location(i)
    }

    /// The range of slot indexes that contain the player's inventory.
    pub fn player_slots_range(&self) -> (r: SlotRange)
        ensures
            r == self.spec_kind().spec_player_slots(),
    {
        self.kind().player_slots()
    }

    /// The range of slot indexes that contain the player's hotbar.
    pub fn hotbar_slots_range(&self) -> (r: SlotRange)
        ensures
            r == self.spec_kind().spec_hotbar_slots(),
    {
        proof {
            self.spec_kind().lemma_player_slots();
        }
        let p = self.player_slots_range();
        SlotRange { start: p.end - 8, end: p.end }
    }

    /// The player's inventory without the hotbar.
    pub fn player_slots_without_hotbar_range(&self) -> (r: SlotRange)
        ensures
            r == self.spec_kind().spec_player_slots_without_hotbar(),
    {
        proof {
            self.spec_kind().lemma_player_slots();
        }
        let p = self.player_slots_range();
        SlotRange { start: p.start, end: p.end - 9 }
    }

    /// Returns whether the given index would be in the player's hotbar.
    pub fn is_hotbar_slot(&self, i: usize) -> (b: bool)
        ensures
            b == self.spec_kind().spec_hotbar_slots().spec_contains(i as int),
    {
        self.hotbar_slots_range().contains(i)
    }

    /// Every slot of the menu, including the player's inventory.
    pub fn slots(&self) -> (v: Vec<ItemStack>)
        ensures
            v@ == self@,
    {
        let n = self.len();
        let mut v: Vec<ItemStack> = Vec::new();
        let mut i: usize = 0;
        while i < n
            invariant
                n == self@.len(),
                i <= n,
                v@ == self@.subrange(0, i as int),
            decreases n - i,
        {
            let s = self.slot(i).unwrap();
            v.push(*s);
            i = i + 1;
        }
        v
    }

    /// Get the [`Player`] from this [`Menu`], or returns `None` if the menu
    /// isn't a player menu.
    pub fn try_as_player(&self) -> (r: Option<&Player>)
        ensures
            match self {
                Menu::Player(p) => r == Some(p),
                _ => r.is_none(),
            },
    {
        if let Menu::Player(player) = self {
            Some(player)
        } else {
            None
        }
    }

    /// Get the [`Player`] from this [`Menu`]; the menu must be
    /// `Menu::Player`.
    pub fn as_player(&self) -> (r: &Player)
        requires
            self is Player,
        ensures
            *self == Menu::Player(*r),
    {
        match self {
            Menu::Player(player) => player,
            _ => unreached(),
        }
    }

    /// Same as [`Menu::try_as_player`], but returns a mutable reference to
    /// the [`Player`].
    pub fn try_as_player_mut(&mut self) -> (r: Option<&mut Player>)
        ensures
            match *old(self) {
                Menu::Player(p) => r.is_some() && *r.unwrap() == p && *final(self) == Menu::Player(
                    *final(r.unwrap()),
                ),
                _ => r.is_none() && *final(self) == *old(self),
            },
    {
        if let Menu::Player(player) = self {
            Some(player)
        } else {
            None
        }
    }

    /// Same as [`Menu::as_player`], but returns a mutable reference to the
    /// [`Player`].
    pub fn as_player_mut(&mut self) -> (r: &mut Player)
        requires
            *old(self) is Player,
        ensures
            *old(self) == Menu::Player(*r),
            *final(self) == Menu::Player(*final(r)),
    {
        match self {
            Menu::Player(player) => player,
            _ => unreached(),
        }
    }
}

} // verus!
