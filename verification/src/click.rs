//! The clicks a player can make in a menu, and how each is numbered in the
//! protocol.
use vstd::prelude::*;

verus! {

/// A type of click in a Minecraft inventory.
#[derive(Clone, Copy, Debug, PartialEq, Eq, Structural)]
pub enum ClickOperation {
    Pickup(PickupClick),
    QuickMove(QuickMoveClick),
    Swap(SwapClick),
    Clone(CloneClick),
    Throw(ThrowClick),
    QuickCraft(QuickCraftClick),
    PickupAll(PickupAllClick),
}

#[derive(Clone, Copy, Debug, PartialEq, Eq, Structural)]
pub enum PickupClick {
    /// Left mouse click.
    ///
    /// Note that in the protocol, None is represented as -999.
    Left { slot: Option<u16> },
    /// Right mouse click.
    ///
    /// Note that in the protocol, None is represented as -999.
    Right { slot: Option<u16> },
    /// Drop cursor stack.
    LeftOutside,
    /// Drop cursor single item.
    RightOutside,
}

/// Shift click
#[derive(Clone, Copy, Debug, PartialEq, Eq, Structural)]
pub enum QuickMoveClick {
    /// Shift + left mouse click
    Left { slot: u16 },
    /// Shift + right mouse click (identical behavior)
    Right { slot: u16 },
}

/// Used when you press number keys or F in an inventory.
#[derive(Clone, Copy, Debug, PartialEq, Eq, Structural)]
pub struct SwapClick {
    pub source_slot: u16,
    /// 0-8 for hotbar slots, 40 for offhand, everything else is treated as a
    /// slot index.
    pub target_slot: u8,
}

/// Middle click, only defined for creative players in non-player
/// inventories.
#[derive(Clone, Copy, Debug, PartialEq, Eq, Structural)]
pub struct CloneClick {
    pub slot: u16,
}

#[derive(Clone, Copy, Debug, PartialEq, Eq, Structural)]
pub enum ThrowClick {
    /// Drop key (Q)
    Single { slot: u16 },
    /// Ctrl + drop key (Q)
    All { slot: u16 },
}

#[derive(Clone, Copy, Debug, PartialEq, Eq, Structural)]
pub struct QuickCraftClick {
    pub kind: QuickCraftKind,
    pub status: QuickCraftStatus,
}

#[derive(Clone, Copy, Debug, PartialEq, Eq, Structural)]
pub enum QuickCraftKind {
    Left,
    Right,
    Middle,
}

#[derive(Clone, Copy, Debug, PartialEq, Eq, Structural)]
pub enum QuickCraftStatusKind {
    /// Starting drag
    Start,
    /// Add slot
    Add,
    /// Ending drag
    End,
}

#[derive(Clone, Copy, Debug, PartialEq, Eq, Structural)]
pub enum QuickCraftStatus {
    /// Starting drag
    Start,
    /// Add a slot.
    Add { slot: u16 },
    /// Ending drag
    End,
}

/// Double click.
#[derive(Clone, Copy, Debug, PartialEq, Eq, Structural)]
pub struct PickupAllClick {
    /// The slot that we're double clicking on.
    ///
    /// It should be empty or at least not pickup-able (since the carried item
    /// is used as the filter).
    pub slot: u16,
    /// Impossible in vanilla clients.
    pub reversed: bool,
}

/// The protocol's click modes.
#[derive(Clone, Copy, Debug, PartialEq, Eq, Structural)]
pub enum ClickType {
    Pickup,
    QuickMove,
    Swap,
    Clone,
    Throw,
    QuickCraft,
    PickupAll,
}

impl ClickType {
    /// The number of the mode on the wire, `0` for `Pickup` up to `6` for
    /// `PickupAll`.
    pub open spec fn spec_id(self) -> u32 {
        match self {
            ClickType::Pickup => 0,
            ClickType::QuickMove => 1,
            ClickType::Swap => 2,
            ClickType::Clone => 3,
            ClickType::Throw => 4,
            ClickType::QuickCraft => 5,
            ClickType::PickupAll => 6,
        }
    }

    pub fn id(self) -> (n: u32)
        ensures
            n == self.spec_id(),
    {
        match self {
            ClickType::Pickup => 0,
            ClickType::QuickMove => 1,
            ClickType::Swap => 2,
            ClickType::Clone => 3,
            ClickType::Throw => 4,
            ClickType::QuickCraft => 5,
            ClickType::PickupAll => 6,
        }
    }

    /// The mode with the given wire number, if any.
    pub fn from_id(n: u32) -> (r: Option<ClickType>)
        ensures
            match r {
                Some(t) => t.spec_id() == n,
                None => n > 6,
            },
    {
        match n {
            0 => Some(ClickType::Pickup),
            1 => Some(ClickType::QuickMove),
            2 => Some(ClickType::Swap),
            3 => Some(ClickType::Clone),
            4 => Some(ClickType::Throw),
            5 => Some(ClickType::QuickCraft),
            6 => Some(ClickType::PickupAll),
            _ => None,
        }
    }
}

impl QuickCraftKind {
    /// 0, 1 and 2 for the left, right and middle button.
    pub open spec fn spec_index(self) -> int {
        match self {
            QuickCraftKind::Left => 0,
            QuickCraftKind::Right => 1,
            QuickCraftKind::Middle => 2,
        }
    }
}

impl QuickCraftStatus {
    /// 0, 1 and 2 for the start, an added slot and the end of a drag.
    pub open spec fn spec_index(self) -> int {
        match self {
            QuickCraftStatus::Start => 0,
            QuickCraftStatus::Add { .. } => 1,
            QuickCraftStatus::End => 2,
        }
    }
}

impl From<QuickCraftStatus> for QuickCraftStatusKind {
    fn from(status: QuickCraftStatus) -> (k: Self) {
        match status {
            QuickCraftStatus::Start => QuickCraftStatusKind::Start,
            QuickCraftStatus::Add { .. } => QuickCraftStatusKind::Add,
            QuickCraftStatus::End => QuickCraftStatusKind::End,
        }
    }
}

impl vstd::std_specs::convert::FromSpecImpl<QuickCraftStatus> for QuickCraftStatusKind {
    open spec fn obeys_from_spec() -> bool {
        true
    }

    /// The status without its slot.
    open spec fn from_spec(status: QuickCraftStatus) -> QuickCraftStatusKind {
        match status {
            QuickCraftStatus::Start => QuickCraftStatusKind::Start,
            QuickCraftStatus::Add { .. } => QuickCraftStatusKind::Add,
            QuickCraftStatus::End => QuickCraftStatusKind::End,
        }
    }
}

impl From<PickupClick> for ClickOperation {
    fn from(click: PickupClick) -> (op: Self) {
        ClickOperation::Pickup(click)
    }
}

impl vstd::std_specs::convert::FromSpecImpl<PickupClick> for ClickOperation {
    open spec fn obeys_from_spec() -> bool {
        true
    }

    open spec fn from_spec(click: PickupClick) -> ClickOperation {
        ClickOperation::Pickup(click)
    }
}

impl From<QuickMoveClick> for ClickOperation {
    fn from(click: QuickMoveClick) -> (op: Self) {
        ClickOperation::QuickMove(click)
    }
}

impl vstd::std_specs::convert::FromSpecImpl<QuickMoveClick> for ClickOperation {
    open spec fn obeys_from_spec() -> bool {
        true
    }

    open spec fn from_spec(click: QuickMoveClick) -> ClickOperation {
        ClickOperation::QuickMove(click)
    }
}

impl From<SwapClick> for ClickOperation {
    fn from(click: SwapClick) -> (op: Self) {
        ClickOperation::Swap(click)
    }
}

impl vstd::std_specs::convert::FromSpecImpl<SwapClick> for ClickOperation {
    open spec fn obeys_from_spec() -> bool {
        true
    }

    open spec fn from_spec(click: SwapClick) -> ClickOperation {
        ClickOperation::Swap(click)
    }
}

impl From<CloneClick> for ClickOperation {
    fn from(click: CloneClick) -> (op: Self) {
        ClickOperation::Clone(click)
    }
}

impl vstd::std_specs::convert::FromSpecImpl<CloneClick> for ClickOperation {
    open spec fn obeys_from_spec() -> bool {
        true
    }

    open spec fn from_spec(click: CloneClick) -> ClickOperation {
        ClickOperation::Clone(click)
    }
}

impl From<ThrowClick> for ClickOperation {
    fn from(click: ThrowClick) -> (op: Self) {
        ClickOperation::Throw(click)
    }
}

impl vstd::std_specs::convert::FromSpecImpl<ThrowClick> for ClickOperation {
    open spec fn obeys_from_spec() -> bool {
        true
    }

    open spec fn from_spec(click: ThrowClick) -> ClickOperation {
        ClickOperation::Throw(click)
    }
}

impl From<PickupAllClick> for ClickOperation {
    fn from(click: PickupAllClick) -> (op: Self) {
        ClickOperation::PickupAll(click)
    }
}

impl vstd::std_specs::convert::FromSpecImpl<PickupAllClick> for ClickOperation {
    open spec fn obeys_from_spec() -> bool {
        true
    }

    open spec fn from_spec(click: PickupAllClick) -> ClickOperation {
        ClickOperation::PickupAll(click)
    }
}

impl ClickOperation {
    /// The slot a click acts on: the clicked slot of a pickup, quick move,
    /// swap, clone, throw or pickup-all click, the added slot of a drag, and
    /// none for clicks outside the menu and the start and end of a drag.
    pub open spec fn spec_slot_num(self) -> Option<u16> {
        match self {
            ClickOperation::Pickup(PickupClick::Left { slot }) => slot,
            ClickOperation::Pickup(PickupClick::Right { slot }) => slot,
            ClickOperation::Pickup(_) => None,
            ClickOperation::QuickMove(QuickMoveClick::Left { slot }) => Some(slot),
            ClickOperation::QuickMove(QuickMoveClick::Right { slot }) => Some(slot),
            ClickOperation::Swap(swap) => Some(swap.source_slot),
            ClickOperation::Clone(clone) => Some(clone.slot),
            ClickOperation::Throw(ThrowClick::Single { slot }) => Some(slot),
            ClickOperation::Throw(ThrowClick::All { slot }) => Some(slot),
            ClickOperation::QuickCraft(qc) => match qc.status {
                QuickCraftStatus::Add { slot } => Some(slot),
                _ => None,
            },
            ClickOperation::PickupAll(pickup_all) => Some(pickup_all.slot),
        }
    }

    /// Return the slot number that this operation is acting on, if any.
    ///
    /// Note that in the protocol, "None" is represented as -999.
    pub fn slot_num(&self) -> (r: Option<u16>)
        ensures
            r == self.spec_slot_num(),
    {
        match self {
            ClickOperation::Pickup(pickup) => match pickup {
                PickupClick::Left { slot } => *slot,
                PickupClick::Right { slot } => *slot,
                PickupClick::LeftOutside => None,
                PickupClick::RightOutside => None,
            },
            ClickOperation::QuickMove(quick_move) => match quick_move {
                QuickMoveClick::Left { slot } => Some(*slot),
                QuickMoveClick::Right { slot } => Some(*slot),
            },
            ClickOperation::Swap(swap) => Some(swap.source_slot),
            ClickOperation::Clone(clone) => Some(clone.slot),
            ClickOperation::Throw(throw) => match throw {
                ThrowClick::Single { slot } => Some(*slot),
                ThrowClick::All { slot } => Some(*slot),
            },
            ClickOperation::QuickCraft(quick_craft) => match quick_craft.status {
                QuickCraftStatus::Start => None,
                QuickCraftStatus::Add { slot } => Some(slot),
                QuickCraftStatus::End => None,
            },
            ClickOperation::PickupAll(pickup_all) => Some(pickup_all.slot),
        }
    }

    /// The button number: 0 for a left and 1 for a right pickup, quick move
    /// or throw-all click (throwing a single item is 0), the hotbar target of
    /// a swap, 2 for a clone, 0 for a pickup-all, and for a drag four times
    /// the button (left 0, right 1, middle 2) plus the phase (start 0, add 1,
    /// end 2).
    pub open spec fn spec_button_num(self) -> int {
        match self {
            ClickOperation::Pickup(PickupClick::Left { .. }) => 0,
            ClickOperation::Pickup(PickupClick::LeftOutside) => 0,
            ClickOperation::Pickup(_) => 1,
            ClickOperation::QuickMove(QuickMoveClick::Left { .. }) => 0,
            ClickOperation::QuickMove(QuickMoveClick::Right { .. }) => 1,
            ClickOperation::Swap(swap) => swap.target_slot as int,
            ClickOperation::Clone(_) => 2,
            ClickOperation::Throw(ThrowClick::Single { .. }) => 0,
            ClickOperation::Throw(ThrowClick::All { .. }) => 1,
            ClickOperation::QuickCraft(qc) => 4 * qc.kind.spec_index() + qc.status.spec_index(),
            ClickOperation::PickupAll(_) => 0,
        }
    }

    pub fn button_num(&self) -> (b: u8)
        ensures
            b == self.spec_button_num(),
    {
        match self {
            ClickOperation::Pickup(pickup) => match pickup {
                PickupClick::Left { .. } => 0,
                PickupClick::Right { .. } => 1,
                PickupClick::LeftOutside => 0,
                PickupClick::RightOutside => 1,
            },
            ClickOperation::QuickMove(quick_move) => match quick_move {
                QuickMoveClick::Left { .. } => 0,
                QuickMoveClick::Right { .. } => 1,
            },
            ClickOperation::Swap(swap) => swap.target_slot,
            ClickOperation::Clone(_) => 2,
            ClickOperation::Throw(throw) => match throw {
                ThrowClick::Single { .. } => 0,
                ThrowClick::All { .. } => 1,
            },
            ClickOperation::QuickCraft(quick_craft) => match quick_craft {
                QuickCraftClick { kind: QuickCraftKind::Left, status: QuickCraftStatus::Start } => 0,
                QuickCraftClick { kind: QuickCraftKind::Right, status: QuickCraftStatus::Start } => 4,
                QuickCraftClick {
                    kind: QuickCraftKind::Middle,
                    status: QuickCraftStatus::Start,
                } => 8,
                QuickCraftClick { kind: QuickCraftKind::Left, status: QuickCraftStatus::Add { .. } } => 1,
                QuickCraftClick {
                    kind: QuickCraftKind::Right,
                    status: QuickCraftStatus::Add { .. },
                } => 5,
                QuickCraftClick {
                    kind: QuickCraftKind::Middle,
                    status: QuickCraftStatus::Add { .. },
                } => 9,
                QuickCraftClick { kind: QuickCraftKind::Left, status: QuickCraftStatus::End } => 2,
                QuickCraftClick { kind: QuickCraftKind::Right, status: QuickCraftStatus::End } => 6,
                QuickCraftClick { kind: QuickCraftKind::Middle, status: QuickCraftStatus::End } => 10,
            },
            ClickOperation::PickupAll(_) => 0,
        }
    }

    /// The click mode: the one named like the operation's variant.
    pub open spec fn spec_click_type(self) -> ClickType {
        match self {
            ClickOperation::Pickup(_) => ClickType::Pickup,
            ClickOperation::QuickMove(_) => ClickType::QuickMove,
            ClickOperation::Swap(_) => ClickType::Swap,
            ClickOperation::Clone(_) => ClickType::Clone,
            ClickOperation::Throw(_) => ClickType::Throw,
            ClickOperation::QuickCraft(_) => ClickType::QuickCraft,
            ClickOperation::PickupAll(_) => ClickType::PickupAll,
        }
    }

    pub fn click_type(&self) -> (t: ClickType)
        ensures
            t == self.spec_click_type(),
    {
        match self {
            ClickOperation::Pickup(_) => ClickType::Pickup,
            ClickOperation::QuickMove(_) => ClickType::QuickMove,
            ClickOperation::Swap(_) => ClickType::Swap,
            ClickOperation::Clone(_) => ClickType::Clone,
            ClickOperation::Throw(_) => ClickType::Throw,
            ClickOperation::QuickCraft(_) => ClickType::QuickCraft,
            ClickOperation::PickupAll(_) => ClickType::PickupAll,
        }
    }
}

} // verus!
