use azalea_inventory_logic::click::{
    ClickOperation, ClickType, CloneClick, PickupAllClick, PickupClick, QuickCraftClick,
    QuickCraftKind, QuickCraftStatus, QuickCraftStatusKind, QuickMoveClick, SwapClick, ThrowClick,
};

#[test]
fn click_types_are_numbered_as_on_the_wire() {
    let all = [
        ClickType::Pickup,
        ClickType::QuickMove,
        ClickType::Swap,
        ClickType::Clone,
        ClickType::Throw,
        ClickType::QuickCraft,
        ClickType::PickupAll,
    ];
    for (n, t) in all.iter().enumerate() {
        assert_eq!(t.id(), n as u32);
        assert_eq!(ClickType::from_id(n as u32), Some(*t));
    }
    assert_eq!(ClickType::from_id(7), None);
}

#[test]
fn clicks_name_their_slot_button_and_mode() {
    let pickup: ClickOperation = PickupClick::Right { slot: Some(5) }.into();
    assert_eq!(pickup.slot_num(), Some(5));
    assert_eq!(pickup.button_num(), 1);
    assert_eq!(pickup.click_type(), ClickType::Pickup);

    let outside: ClickOperation = PickupClick::LeftOutside.into();
    assert_eq!(outside.slot_num(), None);
    assert_eq!(outside.button_num(), 0);

    let swap: ClickOperation = SwapClick {
        source_slot: 12,
        target_slot: 40,
    }
    .into();
    assert_eq!(swap.slot_num(), Some(12));
    assert_eq!(swap.button_num(), 40);
    assert_eq!(swap.click_type(), ClickType::Swap);

    let clone: ClickOperation = CloneClick { slot: 3 }.into();
    assert_eq!(clone.button_num(), 2);
    assert_eq!(clone.click_type(), ClickType::Clone);

    let throw: ClickOperation = ThrowClick::All { slot: 8 }.into();
    assert_eq!(throw.slot_num(), Some(8));
    assert_eq!(throw.button_num(), 1);

    let quick: ClickOperation = QuickMoveClick::Right { slot: 2 }.into();
    assert_eq!(quick.button_num(), 1);
    assert_eq!(quick.click_type(), ClickType::QuickMove);

    let all: ClickOperation = PickupAllClick {
        slot: 0,
        reversed: false,
    }
    .into();
    assert_eq!(all.slot_num(), Some(0));
    assert_eq!(all.button_num(), 0);
    assert_eq!(all.click_type(), ClickType::PickupAll);
}

#[test]
fn drag_buttons_combine_the_mouse_button_and_the_drag_step() {
    let drag = |kind, status| {
        ClickOperation::QuickCraft(QuickCraftClick { kind, status })
    };
    assert_eq!(drag(QuickCraftKind::Left, QuickCraftStatus::Start).button_num(), 0);
    assert_eq!(
        drag(QuickCraftKind::Right, QuickCraftStatus::Add { slot: 4 }).button_num(),
        5
    );
    assert_eq!(drag(QuickCraftKind::Middle, QuickCraftStatus::End).button_num(), 10);
    assert_eq!(
        drag(QuickCraftKind::Middle, QuickCraftStatus::Add { slot: 4 }).slot_num(),
        Some(4)
    );
    assert_eq!(drag(QuickCraftKind::Left, QuickCraftStatus::End).slot_num(), None);
    assert_eq!(
        QuickCraftStatusKind::from(QuickCraftStatus::Add { slot: 1 }),
        QuickCraftStatusKind::Add
    );
}
