//! Item kinds, data component patches and item stacks, modeled by the plain
//! values that the inventory logic reads.
use vstd::prelude::*;

verus! {

/// Registry ids of the item kinds that the inventory rules name.
pub const AIR: u32 = 0;
pub const STONE: u32 = 1;
pub const DIRT: u32 = 28;
pub const OAK_PLANKS: u32 = 36;
pub const OAK_LOG: u32 = 134;
pub const CRAFTING_TABLE: u32 = 333;
pub const CARVED_PUMPKIN: u32 = 358;
pub const GLASS_PANE: u32 = 409;
pub const SHULKER_BOX: u32 = 582;
pub const WHITE_SHULKER_BOX: u32 = 583;
pub const BLACK_SHULKER_BOX: u32 = 598;
pub const DIAMOND: u32 = 899;
pub const EMERALD: u32 = 900;
pub const LAPIS_LAZULI: u32 = 901;
pub const IRON_INGOT: u32 = 905;
pub const GOLD_INGOT: u32 = 909;
pub const NETHERITE_INGOT: u32 = 910;
pub const STICK: u32 = 947;
pub const IRON_HELMET: u32 = 967;
pub const DIAMOND_HELMET: u32 = 971;
pub const DIAMOND_BOOTS: u32 = 974;
pub const BUCKET: u32 = 1013;
pub const WATER_BUCKET: u32 = 1014;
pub const LAVA_BUCKET: u32 = 1015;
pub const MILK_BUCKET: u32 = 1019;
pub const PAPER: u32 = 1029;
pub const BUNDLE: u32 = 1037;
pub const GLASS_BOTTLE: u32 = 1121;
pub const POTION: u32 = 1122;
pub const BLAZE_POWDER: u32 = 1125;
pub const MAP: u32 = 1232;
pub const DRAGON_BREATH: u32 = 1291;
pub const SPLASH_POTION: u32 = 1292;
pub const LINGERING_POTION: u32 = 1295;
pub const HONEY_BOTTLE: u32 = 1382;

/// The slot that an `equippable` component names.
#[derive(Clone, Copy, Debug, PartialEq, Eq, Structural)]
pub enum EquipmentSlot {
    Mainhand,
    Offhand,
    Feet,
    Legs,
    Chest,
    Head,
    Body,
    Saddle,
}

/// A kind of item: its registry id, and the default components of that kind
/// that the inventory rules read (`max_stack_size` and `equippable`).
///
/// The defaults are a function of the id in the game's registry; values of
/// this type are expected to be built that way.
#[derive(Clone, Copy, Debug, PartialEq, Eq, Structural)]
pub struct ItemKind {
    pub id: u32,
    pub default_max_stack_size: Option<i32>,
    pub default_equippable: Option<EquipmentSlot>,
}

impl ItemKind {
    pub fn new(id: u32, default_max_stack_size: Option<i32>, default_equippable: Option<
        EquipmentSlot,
    >) -> (k: ItemKind)
        ensures
            k.id == id,
            k.default_max_stack_size == default_max_stack_size,
            k.default_equippable == default_equippable,
    {
        ItemKind { id, default_max_stack_size, default_equippable }
    }

    /// The kind that stands for "no item".
    pub fn air() -> (k: ItemKind)
        ensures
            k.id == AIR,
            k.default_max_stack_size == Some(64i32),
            k.default_equippable.is_none(),
    {
        ItemKind { id: AIR, default_max_stack_size: Some(64), default_equippable: None }
    }

    pub fn bucket() -> (k: ItemKind)
        ensures
            k.id == BUCKET,
            k.default_max_stack_size == Some(16i32),
            k.default_equippable.is_none(),
    {
        ItemKind { id: BUCKET, default_max_stack_size: Some(16), default_equippable: None }
    }

    pub fn glass_bottle() -> (k: ItemKind)
        ensures
            k.id == GLASS_BOTTLE,
            k.default_max_stack_size == Some(64i32),
            k.default_equippable.is_none(),
    {
        ItemKind { id: GLASS_BOTTLE, default_max_stack_size: Some(64), default_equippable: None }
    }

    /// Stack sizes are positive (the game's codec keeps them in 1..=99).
    pub open spec fn valid(self) -> bool {
        self.default_max_stack_size matches Some(n) ==> n >= 1
    }
}

/// The changes a stack makes to its kind's default components. For each
/// component the logic reads: `None` leaves the default, `Some(None)` removes
/// the component, `Some(Some(v))` sets it to `v`.
///
/// `others` identifies every other entry of the patch: patches whose other
/// entries are equal carry equal values, and `0` stands for no other entry.
#[derive(Clone, Copy, Debug, PartialEq, Eq, Structural)]
pub struct DataComponentPatch {
    pub max_stack_size: Option<Option<i32>>,
    pub equippable: Option<Option<EquipmentSlot>>,
    pub map_id: Option<Option<i32>>,
    pub others: u64,
}

impl DataComponentPatch {
    pub open spec fn spec_empty() -> DataComponentPatch {
        DataComponentPatch { max_stack_size: None, equippable: None, map_id: None, others: 0 }
    }

    /// A patch that changes nothing.
    pub fn empty() -> (p: DataComponentPatch)
        ensures
            p == DataComponentPatch::spec_empty(),
    {
        DataComponentPatch { max_stack_size: None, equippable: None, map_id: None, others: 0 }
    }

    /// Whether the `max_stack_size` component is removed by this patch.
    pub fn is_max_stack_size_removed(&self) -> (b: bool)
        ensures
            b == (self.max_stack_size == Some(None::<i32>)),
    {
        matches!(self.max_stack_size, Some(None))
    }

    pub open spec fn valid(self) -> bool {
        self.max_stack_size matches Some(Some(n)) ==> n >= 1
    }
}

/// The contents of a non-empty slot.
#[derive(Clone, Copy, Debug, PartialEq, Eq, Structural)]
pub struct ItemStackData {
    pub kind: ItemKind,
    pub count: i32,
    pub component_patch: DataComponentPatch,
}

/// An item in an inventory, with a count and a set of data components.
/// Usually used in the context of a [`crate::menu::Menu`].
#[derive(Clone, Copy, Debug, PartialEq, Eq, Structural)]
pub enum ItemStack {
    Empty,
    Present(ItemStackData),
}

/// Maximum stack sizes.
pub trait MaxStackSizeExt {
    /// The maximum stack size, as the mathematical value of
    /// [`MaxStackSizeExt::max_stack_size`].
    spec fn spec_max_stack_size(&self) -> int;

    /// Get the maximum stack size for this item.
    ///
    /// This is a signed integer to be consistent with the `count` field of
    /// [`ItemStackData`].
    fn max_stack_size(&self) -> (r: i32)
        ensures
            r == self.spec_max_stack_size(),
    ;

    /// Whether this item can be stacked with other items.
    ///
    /// This is equivalent to `self.max_stack_size() > 1`.
    fn stackable(&self) -> (b: bool)
        ensures
            b == (self.spec_max_stack_size() > 1),
    {
        self.max_stack_size() > 1
    }
}

impl MaxStackSizeExt for ItemKind {
    /// The kind's default `max_stack_size` component, or 64 without one.
    open spec fn spec_max_stack_size(&self) -> int {
        match self.default_max_stack_size {
            Some(n) => n as int,
            None => 64,
        }
    }

    fn max_stack_size(&self) -> (r: i32) {
        match self.default_max_stack_size {
            Some(n) => n,
            None => 64,
        }
    }
}

impl MaxStackSizeExt for ItemStackData {
    /// 1 when the patch removes the component, the patched value when it sets
    /// one, and the kind's default otherwise.
    open spec fn spec_max_stack_size(&self) -> int {
        match self.component_patch.max_stack_size {
            Some(None) => 1,
            Some(Some(n)) => n as int,
            None => self.kind.spec_max_stack_size(),
        }
    }

    fn max_stack_size(&self) -> (r: i32) {
        if self.component_patch.is_max_stack_size_removed() {
            return 1;
        }
        match self.component_patch.max_stack_size {
            Some(Some(n)) => n,
            _ => self.kind.max_stack_size(),
        }
    }
}

impl MaxStackSizeExt for ItemStack {
    /// 0 for an empty slot.
    open spec fn spec_max_stack_size(&self) -> int {
        match self {
            ItemStack::Empty => 0,
            ItemStack::Present(d) => d.spec_max_stack_size(),
        }
    }

    fn max_stack_size(&self) -> (r: i32) {
        match self {
            ItemStack::Empty => 0,
            ItemStack::Present(d) => d.max_stack_size(),
        }
    }
}

/// Crafting remainders.
pub trait CraftingRemainderExt {
    spec fn spec_crafting_remainder(&self) -> Option<ItemKind>;

    /// The item left behind in a crafting grid cell when this item is
    /// consumed as an ingredient.
    fn crafting_remainder(&self) -> (r: Option<ItemKind>)
        ensures
            r == self.spec_crafting_remainder(),
    ;
}

impl CraftingRemainderExt for ItemKind {
    /// Water, lava and milk buckets leave a bucket; dragon's breath and honey
    /// bottles leave a glass bottle; nothing else leaves anything.
    open spec fn spec_crafting_remainder(&self) -> Option<ItemKind> {
        if self.id == WATER_BUCKET || self.id == LAVA_BUCKET || self.id == MILK_BUCKET {
            Some(ItemKind { id: BUCKET, default_max_stack_size: Some(16), default_equippable: None })
        } else if self.id == DRAGON_BREATH || self.id == HONEY_BOTTLE {
            Some(
                ItemKind {
                    id: GLASS_BOTTLE,
                    default_max_stack_size: Some(64),
                    default_equippable: None,
                },
            )
        } else {
            None
        }
    }

    fn crafting_remainder(&self) -> (r: Option<ItemKind>) {
        if self.id == WATER_BUCKET || self.id == LAVA_BUCKET || self.id == MILK_BUCKET {
            Some(ItemKind::bucket())
        } else if self.id == DRAGON_BREATH || self.id == HONEY_BOTTLE {
            Some(ItemKind::glass_bottle())
        } else {
            None
        }
    }
}

impl ItemStackData {
    pub fn new(kind: ItemKind, count: i32) -> (d: ItemStackData)
        ensures
            d.kind == kind,
            d.count == count,
            d.component_patch == DataComponentPatch::spec_empty(),
    {
        ItemStackData { kind, count, component_patch: DataComponentPatch::empty() }
    }

    pub open spec fn spec_is_empty(self) -> bool {
        self.count <= 0 || self.kind.id == AIR
    }

    /// Whether this stack holds no item: a count of zero or less, or air.
    pub fn is_empty(&self) -> (b: bool)
        ensures
            b == self.spec_is_empty(),
    {
        self.count <= 0 || self.kind.id == AIR
    }

    pub open spec fn same_item(self, other: ItemStackData) -> bool {
        self.kind == other.kind && self.component_patch == other.component_patch
    }

    /// Whether the two stacks hold the same kind of item with the same
    /// component patch, so that they may merge.
    pub fn is_same_item_and_components(&self, other: &ItemStackData) -> (b: bool)
        ensures
            b == self.same_item(*other),
    {
        self.kind == other.kind && self.component_patch == other.component_patch
    }

    /// Take up to `count` items off this stack and return them as a stack of
    /// their own.
    pub fn split(&mut self, count: u32) -> (taken: ItemStackData)
        requires
            count <= i32::MAX,
        ensures
            taken.kind == old(self).kind,
            taken.component_patch == old(self).component_patch,
            taken.count == if (count as int) < old(self).count {
                count as int
            } else {
                old(self).count as int
            },
            final(self).kind == old(self).kind,
            final(self).component_patch == old(self).component_patch,
            final(self).count == old(self).count - taken.count,
    {
        let c = count as i32;
        let returning_count = if c < self.count {
            c
        } else {
            self.count
        };
        let mut returning = *self;
        returning.count = returning_count;
        self.count = self.count - returning_count;
        returning
    }

    /// The same stack with its `max_stack_size` component set.
    pub fn with_max_stack_size(self, n: i32) -> (d: ItemStackData)
        ensures
            d == (ItemStackData {
                component_patch: DataComponentPatch {
                    max_stack_size: Some(Some(n)),
                    ..self.component_patch
                },
                ..self
            }),
    {
        let mut d = self;
        d.component_patch.max_stack_size = Some(Some(n));
        d
    }

    /// Stack sizes are non-negative and stack-size components positive.
    pub open spec fn valid(self) -> bool {
        &&& self.count >= 0
        &&& self.kind.valid()
        &&& self.component_patch.valid()
    }
}

impl From<ItemStackData> for ItemStack {
    /// An empty stack becomes [`ItemStack::Empty`].
    fn from(item: ItemStackData) -> (s: ItemStack)
        ensures
            s == ItemStack::spec_from_data(item),
    {
        if item.is_empty() {
            ItemStack::Empty
        } else {
            ItemStack::Present(item)
        }
    }
}

impl vstd::std_specs::convert::FromSpecImpl<ItemStackData> for ItemStack {
    open spec fn obeys_from_spec() -> bool {
        true
    }

    open spec fn from_spec(item: ItemStackData) -> ItemStack {
        ItemStack::spec_from_data(item)
    }
}

impl ItemStack {
    pub open spec fn spec_from_data(item: ItemStackData) -> ItemStack {
        if item.spec_is_empty() {
            ItemStack::Empty
        } else {
            ItemStack::Present(item)
        }
    }

    /// A stack of `count` items of `kind`, or [`ItemStack::Empty`] when that
    /// holds no item.
    pub fn new(kind: ItemKind, count: i32) -> (s: ItemStack)
        ensures
            s == ItemStack::spec_from_data(
                ItemStackData { kind, count, component_patch: DataComponentPatch::spec_empty() },
            ),
    {
        ItemStack::from(ItemStackData::new(kind, count))
    }

    pub open spec fn spec_is_empty(self) -> bool {
        match self {
            ItemStack::Empty => true,
            ItemStack::Present(d) => d.spec_is_empty(),
        }
    }

    /// Whether the slot holds no item.
    pub fn is_empty(&self) -> (b: bool)
        ensures
            b == self.spec_is_empty(),
    {
        match self {
            ItemStack::Empty => true,
            ItemStack::Present(d) => d.is_empty(),
        }
    }

    /// Whether the slot holds an item.
    pub fn is_present(&self) -> (b: bool)
        ensures
            b == !self.spec_is_empty(),
    {
        !self.is_empty()
    }

    pub open spec fn spec_count(self) -> int {
        match self {
            ItemStack::Empty => 0,
            ItemStack::Present(d) => d.count as int,
        }
    }

    /// The number of items in the slot; 0 for an empty slot.
    pub fn count(&self) -> (c: i32)
        ensures
            c == self.spec_count(),
    {
        match self {
            ItemStack::Empty => 0,
            ItemStack::Present(d) => d.count,
        }
    }

    pub open spec fn spec_kind(self) -> u32 {
        match self {
            ItemStack::Empty => AIR,
            ItemStack::Present(d) => d.kind.id,
        }
    }

    /// The registry id of the item in the slot; air for an empty slot.
    pub fn kind_id(&self) -> (k: u32)
        ensures
            k == self.spec_kind(),
    {
        match self {
            ItemStack::Empty => AIR,
            ItemStack::Present(d) => d.kind.id,
        }
    }

    pub open spec fn spec_item_kind(self) -> ItemKind {
        match self {
            ItemStack::Empty => ItemKind {
                id: AIR,
                default_max_stack_size: Some(64),
                default_equippable: None,
            },
            ItemStack::Present(d) => d.kind,
        }
    }

    /// The kind of item in the slot; air for an empty slot.
    pub fn kind(&self) -> (k: ItemKind)
        ensures
            k == self.spec_item_kind(),
    {
        match self {
            ItemStack::Empty => ItemKind::air(),
            ItemStack::Present(d) => d.kind,
        }
    }

    /// The slot's contents, if any.
    pub fn as_present(&self) -> (r: Option<&ItemStackData>)
        ensures
            match self {
                ItemStack::Empty => r.is_none(),
                ItemStack::Present(d) => r == Some(d),
            },
    {
        match self {
            ItemStack::Empty => None,
            ItemStack::Present(d) => Some(d),
        }
    }

    /// Take up to `count` items off this stack; the rest stays, and an
    /// emptied stack becomes [`ItemStack::Empty`].
    pub fn split(&mut self, count: u32) -> (taken: ItemStack)
        requires
            count <= i32::MAX,
        ensures
            match *old(self) {
                ItemStack::Empty => *final(self) == ItemStack::Empty && taken == ItemStack::Empty,
                ItemStack::Present(d) => {
                    let t = if (count as int) < d.count {
                        count as int
                    } else {
                        d.count as int
                    };
                    &&& *final(self) == ItemStack::Present(
                        ItemStackData { count: (d.count - t) as i32, ..d },
                    ).spec_normalized()
                    &&& taken == ItemStack::spec_from_data(ItemStackData { count: t as i32, ..d })
                },
            },
    {
        match *self {
            ItemStack::Empty => ItemStack::Empty,
            ItemStack::Present(d) => {
                let mut rest = d;
                let taken = rest.split(count);
                *self = ItemStack::Present(rest);
                self.update_empty();
                ItemStack::from(taken)
            },
        }
    }

    pub open spec fn spec_normalized(self) -> ItemStack {
        if self.spec_is_empty() {
            ItemStack::Empty
        } else {
            self
        }
    }

    /// Turn a stack that holds no item into [`ItemStack::Empty`].
    pub fn update_empty(&mut self)
        ensures
            *final(self) == old(self).spec_normalized(),
    {
        if self.is_empty() {
            *self = ItemStack::Empty;
        }
    }

    /// The same stack with its `max_stack_size` component set; an empty slot
    /// stays empty.
    pub fn with_max_stack_size(self, n: i32) -> (s: ItemStack)
        ensures
            s == match self {
                ItemStack::Empty => ItemStack::Empty,
                ItemStack::Present(d) => ItemStack::Present(
                    ItemStackData {
                        component_patch: DataComponentPatch {
                            max_stack_size: Some(Some(n)),
                            ..d.component_patch
                        },
                        ..d
                    },
                ),
            },
    {
        match self {
            ItemStack::Empty => ItemStack::Empty,
            ItemStack::Present(d) => ItemStack::Present(d.with_max_stack_size(n)),
        }
    }

    pub open spec fn valid(self) -> bool {
        self matches ItemStack::Present(d) ==> d.valid()
    }
}

} // verus!
