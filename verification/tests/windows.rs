use crafting_core::dispatch::{
    handle_click_window, handle_creative_inventory_action, ClickWindow, CreativeInventoryAction,
    Gamemode,
};
use crafting_core::events::{CreativeFlyingEvent, DropItemEvent, SneakEvent, SprintEvent};
use crafting_core::item::{ItemCatalog, ItemStack};
use crafting_core::window::{BackingWindow, GestureError, Window};

fn catalog() -> ItemCatalog {
    let mut cat = ItemCatalog::new();
    cat.add_item("minecraft:diamond".to_string(), 64);
    cat.add_item("minecraft:stone".to_string(), 64);
    cat
}

fn diamond() -> u32 {
    0
}

fn stone() -> u32 {
    1
}

fn player_window() -> Window {
    Window::new(BackingWindow::Player { player_slots: 46 })
}

#[test]
fn creative_inventory_action_survival_mode() {
    let mut window = player_window();

    let packet = CreativeInventoryAction {
        slot: 10,
        clicked_item: Some(ItemStack::new(diamond(), 64)),
    };
    handle_creative_inventory_action(Gamemode::Survival, &mut window, packet).unwrap_err();

    assert!(window.item(10).unwrap().is_none());
}

#[test]
fn creative_inventory_action_non_player_window() {
    let mut window = Window::new(BackingWindow::Paired {
        container_slots: 27,
        player_slots: 36,
    });

    let packet = CreativeInventoryAction {
        slot: 5,
        clicked_item: Some(ItemStack::new(diamond(), 64)),
    };
    handle_creative_inventory_action(Gamemode::Creative, &mut window, packet).unwrap_err();

    assert!(window.item(5).unwrap().is_none());
}

#[test]
fn creative_inventory_action() {
    let mut window = player_window();

    let packet = CreativeInventoryAction {
        slot: 5,
        clicked_item: Some(ItemStack::new(diamond(), 64)),
    };
    handle_creative_inventory_action(Gamemode::Creative, &mut window, packet).unwrap();

    assert_eq!(
        window.item(5).unwrap(),
        Some(ItemStack::new(diamond(), 64))
    );
}

#[test]
fn creative_inventory_action_no_slot_is_a_noop() {
    let mut window = player_window();
    window.set_item(3, Some(ItemStack::new(stone(), 4))).unwrap();

    let packet = CreativeInventoryAction {
        slot: -1,
        clicked_item: Some(ItemStack::new(diamond(), 64)),
    };
    handle_creative_inventory_action(Gamemode::Creative, &mut window, packet).unwrap();

    assert_eq!(window.item(3).unwrap(), Some(ItemStack::new(stone(), 4)));
    assert!(window.cursor_item().is_none());
}

#[test]
fn left_click_exchanges_cursor_and_empty_slot() {
    let cat = catalog();
    let mut window = player_window();
    window.cursor = Some(ItemStack::new(diamond(), 17));

    window.left_click(8, &cat).unwrap();
    assert_eq!(window.item(8).unwrap(), Some(ItemStack::new(diamond(), 17)));
    assert!(window.cursor_item().is_none());

    // and back again: an empty cursor picks the whole stack up
    window.left_click(8, &cat).unwrap();
    assert!(window.item(8).unwrap().is_none());
    assert_eq!(window.cursor_item(), Some(ItemStack::new(diamond(), 17)));
}

#[test]
fn left_click_merges_up_to_the_stack_bound() {
    let cat = catalog();
    let mut window = player_window();
    window.set_item(2, Some(ItemStack::new(diamond(), 40))).unwrap();
    window.cursor = Some(ItemStack::new(diamond(), 40));

    window.left_click(2, &cat).unwrap();
    assert_eq!(window.item(2).unwrap(), Some(ItemStack::new(diamond(), 64)));
    assert_eq!(window.cursor_item(), Some(ItemStack::new(diamond(), 16)));
}

#[test]
fn left_click_swaps_different_items() {
    let cat = catalog();
    let mut window = player_window();
    window.set_item(2, Some(ItemStack::new(stone(), 7))).unwrap();
    window.cursor = Some(ItemStack::new(diamond(), 3));

    window.left_click(2, &cat).unwrap();
    assert_eq!(window.item(2).unwrap(), Some(ItemStack::new(diamond(), 3)));
    assert_eq!(window.cursor_item(), Some(ItemStack::new(stone(), 7)));
}

#[test]
fn right_click_picks_up_half_rounded_up() {
    let cat = catalog();
    let mut window = player_window();
    window.set_item(4, Some(ItemStack::new(stone(), 9))).unwrap();

    window.right_click(4, &cat).unwrap();
    assert_eq!(window.cursor_item(), Some(ItemStack::new(stone(), 5)));
    assert_eq!(window.item(4).unwrap(), Some(ItemStack::new(stone(), 4)));
}

#[test]
fn right_click_places_one_unit() {
    let cat = catalog();
    let mut window = player_window();
    window.cursor = Some(ItemStack::new(stone(), 3));

    window.right_click(6, &cat).unwrap();
    assert_eq!(window.item(6).unwrap(), Some(ItemStack::new(stone(), 1)));
    assert_eq!(window.cursor_item(), Some(ItemStack::new(stone(), 2)));

    window.right_click(6, &cat).unwrap();
    assert_eq!(window.item(6).unwrap(), Some(ItemStack::new(stone(), 2)));
    assert_eq!(window.cursor_item(), Some(ItemStack::new(stone(), 1)));
}

#[test]
fn shift_click_relocates_to_first_open_slot() {
    let cat = catalog();
    let mut window = player_window();
    window.set_item(0, Some(ItemStack::new(stone(), 60))).unwrap();
    window.set_item(9, Some(ItemStack::new(stone(), 10))).unwrap();

    // slot 0 holds the same item but lacks room for all ten: the first
    // empty slot takes the whole stack instead
    window.shift_click(9, &cat).unwrap();
    assert_eq!(window.item(0).unwrap(), Some(ItemStack::new(stone(), 60)));
    assert_eq!(window.item(1).unwrap(), Some(ItemStack::new(stone(), 10)));
    assert!(window.item(9).unwrap().is_none());
}

#[test]
fn shift_click_merges_when_room_allows() {
    let cat = catalog();
    let mut window = Window::new(BackingWindow::Player { player_slots: 2 });
    window.set_item(0, Some(ItemStack::new(stone(), 30))).unwrap();
    window.set_item(1, Some(ItemStack::new(stone(), 10))).unwrap();

    window.shift_click(1, &cat).unwrap();
    assert_eq!(window.item(0).unwrap(), Some(ItemStack::new(stone(), 40)));
    assert!(window.item(1).unwrap().is_none());
}

#[test]
fn shift_click_without_capacity_is_a_noop() {
    let cat = catalog();
    let mut window = Window::new(BackingWindow::Player { player_slots: 2 });
    window.set_item(0, Some(ItemStack::new(stone(), 64))).unwrap();
    window.set_item(1, Some(ItemStack::new(stone(), 10))).unwrap();

    window.shift_click(1, &cat).unwrap();
    assert_eq!(window.item(0).unwrap(), Some(ItemStack::new(stone(), 64)));
    assert_eq!(window.item(1).unwrap(), Some(ItemStack::new(stone(), 10)));
}

#[test]
fn end_paint_without_session_changes_nothing() {
    let cat = catalog();
    let mut window = player_window();
    window.set_item(0, Some(ItemStack::new(stone(), 12))).unwrap();
    window.cursor = Some(ItemStack::new(diamond(), 9));

    assert_eq!(window.end_paint(&cat), Err(GestureError::NoPaintSession));
    assert_eq!(window.item(0).unwrap(), Some(ItemStack::new(stone(), 12)));
    assert_eq!(window.cursor_item(), Some(ItemStack::new(diamond(), 9)));
    for slot in 1..window.slot_count() {
        assert!(window.item(slot).unwrap().is_none());
    }
}

#[test]
fn add_paint_slot_requires_a_session() {
    let mut window = player_window();
    assert_eq!(window.add_paint_slot(3), Err(GestureError::NoPaintSession));
}

#[test]
fn even_paint_splits_the_cursor_stack() {
    let cat = catalog();
    let mut window = player_window();
    window.cursor = Some(ItemStack::new(diamond(), 10));

    window.begin_left_mouse_paint();
    window.add_paint_slot(0).unwrap();
    window.add_paint_slot(1).unwrap();
    window.add_paint_slot(2).unwrap();
    window.end_paint(&cat).unwrap();

    assert_eq!(window.item(0).unwrap(), Some(ItemStack::new(diamond(), 3)));
    assert_eq!(window.item(1).unwrap(), Some(ItemStack::new(diamond(), 3)));
    assert_eq!(window.item(2).unwrap(), Some(ItemStack::new(diamond(), 3)));
    assert_eq!(window.cursor_item(), Some(ItemStack::new(diamond(), 1)));
}

#[test]
fn single_paint_places_one_unit_per_slot() {
    let cat = catalog();
    let mut window = player_window();
    window.cursor = Some(ItemStack::new(diamond(), 2));
    window.set_item(1, Some(ItemStack::new(stone(), 5))).unwrap();

    window.begin_right_mouse_paint();
    window.add_paint_slot(0).unwrap();
    window.add_paint_slot(1).unwrap();  // ineligible: a different item
    window.add_paint_slot(2).unwrap();
    window.add_paint_slot(3).unwrap();  // cursor exhausted before this one
    window.end_paint(&cat).unwrap();

    assert_eq!(window.item(0).unwrap(), Some(ItemStack::new(diamond(), 1)));
    assert_eq!(window.item(1).unwrap(), Some(ItemStack::new(stone(), 5)));
    assert_eq!(window.item(2).unwrap(), Some(ItemStack::new(diamond(), 1)));
    assert!(window.item(3).unwrap().is_none());
    assert!(window.cursor_item().is_none());
}

#[test]
fn drop_item_empties_the_slot() {
    let mut window = player_window();
    window.set_item(7, Some(ItemStack::new(stone(), 21))).unwrap();

    assert_eq!(
        window.drop_item(7).unwrap(),
        Some(ItemStack::new(stone(), 21))
    );
    assert!(window.item(7).unwrap().is_none());
    assert_eq!(window.drop_item(7).unwrap(), None);
    assert_eq!(window.drop_item(999), Err(GestureError::OutOfBounds));
}

#[test]
fn click_dispatch_success_reports_the_full_state() {
    let cat = catalog();
    let mut window = player_window();
    window.cursor = Some(ItemStack::new(diamond(), 5));

    let outcome = handle_click_window(
        &mut window,
        ClickWindow {
            window_id: 1,
            slot: 4,
            button: 0,
            mode: 0,
            action_number: 77,
        },
        &cat,
    )
    .unwrap();

    assert_eq!(outcome.confirmation.window_id, 1);
    assert_eq!(outcome.confirmation.action_number, 77);
    assert!(outcome.confirmation.accepted);
    assert_eq!(
        outcome.slot_update,
        Some((4, Some(ItemStack::new(diamond(), 5))))
    );
    assert!(outcome.cursor.is_none());
    assert_eq!(outcome.window_items.len(), 46);
    assert_eq!(outcome.window_items[4], Some(ItemStack::new(diamond(), 5)));
    assert!(outcome.drop.is_none());
}

#[test]
fn click_dispatch_drop_gesture_raises_the_event() {
    let cat = catalog();
    let mut window = player_window();
    window.set_item(2, Some(ItemStack::new(stone(), 3))).unwrap();

    let outcome = handle_click_window(
        &mut window,
        ClickWindow {
            window_id: 0,
            slot: 2,
            button: 0,
            mode: 4,
            action_number: 5,
        },
        &cat,
    )
    .unwrap();

    assert_eq!(outcome.drop, Some(DropItemEvent::new(stone())));
    assert!(window.item(2).unwrap().is_none());
}

#[test]
fn unsupported_gesture_fails_without_any_outbound_message() {
    let cat = catalog();
    let mut window = player_window();
    window.set_item(0, Some(ItemStack::new(stone(), 8))).unwrap();
    window.cursor = Some(ItemStack::new(diamond(), 2));

    for (mode, button) in [(0u8, 2u8), (2, 0), (3, 0), (5, 3), (6, 0)] {
        let r = handle_click_window(
            &mut window,
            ClickWindow {
                window_id: 0,
                slot: 0,
                button,
                mode,
                action_number: 1,
            },
            &cat,
        );
        assert_eq!(r.unwrap_err(), GestureError::UnrecognizedGesture);
        assert_eq!(window.item(0).unwrap(), Some(ItemStack::new(stone(), 8)));
        assert_eq!(window.cursor_item(), Some(ItemStack::new(diamond(), 2)));
    }
}

#[test]
fn paint_gestures_route_through_the_dispatcher() {
    let cat = catalog();
    let mut window = player_window();
    window.cursor = Some(ItemStack::new(diamond(), 4));

    let packet = |slot: i16, button: u8| ClickWindow {
        window_id: 0,
        slot,
        button,
        mode: 5,
        action_number: 9,
    };

    handle_click_window(&mut window, packet(-999, 0), &cat).unwrap();
    handle_click_window(&mut window, packet(0, 1), &cat).unwrap();
    handle_click_window(&mut window, packet(1, 5), &cat).unwrap();
    let outcome = handle_click_window(&mut window, packet(-999, 2), &cat).unwrap();

    assert!(outcome.slot_update.is_none());
    assert_eq!(window.item(0).unwrap(), Some(ItemStack::new(diamond(), 2)));
    assert_eq!(window.item(1).unwrap(), Some(ItemStack::new(diamond(), 2)));
    assert!(window.cursor_item().is_none());
}

#[test]
fn change_events_carry_their_values() {
    assert!(CreativeFlyingEvent::new(true).is_flying);
    assert!(!SneakEvent::new(false).is_sneaking);
    assert!(SprintEvent::new(true).is_sprinting);
    assert_eq!(DropItemEvent::new(42).item, 42);
}
