use camlet::menu_windows::{
    menu_page_height, MenuCascade, MenuClosing, MenuPage, MenuWindow, OpenedWindowReaction,
    SubmenuChange,
};

fn cascade_with_advanced_and_fit() -> MenuCascade {
    let mut cascade = MenuCascade::new();
    assert_eq!(cascade.open_root(1), Vec::<u64>::new());
    assert_eq!(
        cascade.open_submenu(1, MenuPage::Advanced, 10),
        SubmenuChange::Opened { window: 10 }
    );
    assert_eq!(
        cascade.open_submenu(10, MenuPage::Fit, 12),
        SubmenuChange::Opened { window: 12 }
    );
    cascade
}

#[test]
fn each_level_keeps_one_window_for_its_branch() {
    let mut cascade = cascade_with_advanced_and_fit();
    assert_eq!(cascade.level_below(1), Some(0));
    assert_eq!(cascade.level_below(10), Some(1));
    assert_eq!(cascade.level_below(12), Some(2));
    assert_eq!(cascade.level_below(99), None);

    assert_eq!(
        cascade.open_submenu(1, MenuPage::Advanced, 13),
        SubmenuChange::Kept { closed: vec![12] }
    );
    assert_eq!(
        cascade.submenus,
        vec![MenuWindow { id: 10, page: MenuPage::Advanced }]
    );
    assert_eq!(
        cascade.open_submenu(1, MenuPage::Shape, 14),
        SubmenuChange::Replaced { window: 10, closed: Vec::new() }
    );
    assert_eq!(
        cascade.submenus,
        vec![MenuWindow { id: 10, page: MenuPage::Shape }]
    );
    assert_eq!(cascade.open_submenu(99, MenuPage::Theme, 15), SubmenuChange::NoParent);
}

#[test]
fn closing_a_submenu_closes_the_deeper_ones() {
    let mut cascade = cascade_with_advanced_and_fit();
    assert_eq!(
        cascade.window_closed(10, true),
        MenuClosing { close: vec![10, 12], dismissed: false }
    );
    assert!(cascade.submenus.is_empty());
    assert_eq!(cascade.root, Some(1));

    let mut closed = cascade_with_advanced_and_fit();
    assert_eq!(
        closed.window_closed(10, false),
        MenuClosing { close: vec![12], dismissed: false }
    );
    assert!(!closed.is_menu_window(10));

    let mut after = cascade_with_advanced_and_fit();
    assert_eq!(after.close_after(10), vec![12]);
    assert_eq!(after.close_after(42), Vec::<u64>::new());
}

#[test]
fn the_root_menu_takes_the_whole_cascade_with_it() {
    let mut requested = cascade_with_advanced_and_fit();
    assert_eq!(
        requested.window_closed(1, true),
        MenuClosing { close: vec![10, 12, 1], dismissed: true }
    );
    assert_eq!(requested.root, None);

    let mut closed = cascade_with_advanced_and_fit();
    assert_eq!(
        closed.window_closed(1, false),
        MenuClosing { close: vec![10, 12], dismissed: true }
    );

    let mut reopened = cascade_with_advanced_and_fit();
    assert_eq!(reopened.open_root(2), vec![10, 12, 1]);
    assert_eq!(reopened.root, Some(2));
    assert_eq!(reopened.close_all(), vec![2]);
}

#[test]
fn an_unfocused_menu_is_dismissed_only_by_its_latest_timer() {
    let mut cascade = cascade_with_advanced_and_fit();
    cascade.window_focused(1);
    assert_eq!(cascade.focused, Some(1));
    let timer = cascade.window_unfocused(1).expect("a menu window arms the timer");
    assert!(cascade.should_dismiss(timer));
    cascade.window_focused(10);
    assert!(!cascade.should_dismiss(timer));
    let later = cascade.window_unfocused(1).expect("a menu window arms the timer");
    assert_eq!(cascade.focused, Some(10));
    assert!(!cascade.should_dismiss(later));
    assert_eq!(cascade.window_unfocused(77), None);
}

#[test]
fn stray_popups_are_closed_when_they_open() {
    let cascade = cascade_with_advanced_and_fit();
    assert_eq!(cascade.opened_window(12, Some(5)), OpenedWindowReaction::Focus);
    assert_eq!(cascade.opened_window(5, Some(5)), OpenedWindowReaction::Keep);
    assert_eq!(cascade.opened_window(30, Some(5)), OpenedWindowReaction::Close);
}

#[test]
fn late_hover_and_aim_timers_find_themselves_stale() {
    let mut cascade = cascade_with_advanced_and_fit();
    let hover = cascade.schedule_hover();
    assert!(cascade.hover_is_current(hover));
    let aim = cascade.defer_intent(10);
    assert!(!cascade.hover_is_current(hover));
    assert!(!cascade.resolve_intent(aim, 1));
    assert!(cascade.resolve_intent(aim, 10));
    assert!(!cascade.resolve_intent(aim, 10));

    let again = cascade.defer_intent(1);
    cascade.cancel_intent();
    assert!(!cascade.resolve_intent(again, 1));

    let pending = cascade.defer_intent(1);
    let hovered = cascade.schedule_hover();
    assert_eq!(cascade.close_all(), vec![10, 12, 1]);
    assert!(!cascade.resolve_intent(pending, 1));
    assert!(!cascade.hover_is_current(hovered));
}

#[test]
fn losing_focus_cancels_pending_submenu_timers() {
    let mut cascade = cascade_with_advanced_and_fit();
    let hover = cascade.schedule_hover();
    let aim = cascade.defer_intent(10);
    assert!(cascade.window_unfocused(12).is_some());
    assert!(!cascade.hover_is_current(hover));
    assert!(!cascade.resolve_intent(aim, 10));
    assert_eq!(cascade.timers.deferred_parent, None);
}

#[test]
fn submenu_pages_are_as_tall_as_their_rows() {
    assert_eq!(menu_page_height(MenuPage::Theme, 0), 6 * 28 + 10);
    assert_eq!(menu_page_height(MenuPage::Advanced, 0), 7 * 28 + 9 + 10);
    assert_eq!(menu_page_height(MenuPage::Fit, 3), 2 * 28 + 10);
    assert_eq!(menu_page_height(MenuPage::Camera, 0), 28 + 10);
    assert_eq!(menu_page_height(MenuPage::Camera, 3), 3 * 28 + 10);
    assert_eq!(menu_page_height(MenuPage::Camera, 100_000), 65_535 * 28 + 10);
}
