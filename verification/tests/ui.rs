use selah::ui::banner::BannerState;
use selah::ui::help::{binding_label, help_bindings, tab_offsets, HelpState};
use selah::ui::layout::{hit_test, Rect};
use selah::ui::theme::{get_theme, Color, ThemeName};

#[test]
fn tick_transitions_at_boundaries() {
    let mut state = BannerState::new();

    for _ in 0..50 {
        state.tick();
    }
    assert_eq!(state.phase, 0);
    assert!(!state.done);

    state.tick();
    assert_eq!(state.phase, 1);
    assert_eq!(state.tick, 51);

    for _ in 52..=95 {
        state.tick();
    }
    assert_eq!(state.phase, 1);

    state.tick();
    assert_eq!(state.phase, 2);
    assert_eq!(state.tick, 96);

    for _ in 97..=140 {
        state.tick();
    }
    assert_eq!(state.phase, 2);

    state.tick();
    assert_eq!(state.phase, 3);
    assert_eq!(state.tick, 141);

    for _ in 142..=300 {
        state.tick();
    }
    assert_eq!(state.phase, 3);
    assert!(!state.done);

    state.tick();
    assert!(state.done);
    assert_eq!(state.tick, 301);
}

#[test]
fn hit_test_inside_rect() {
    let rect = Rect::new(10, 10, 20, 10);
    assert!(hit_test(15, 15, rect));
    assert!(hit_test(10, 10, rect));
    assert!(hit_test(29, 19, rect));
}

#[test]
fn hit_test_outside_rect() {
    let rect = Rect::new(10, 10, 20, 10);
    assert!(!hit_test(9, 15, rect));
    assert!(!hit_test(30, 15, rect));
    assert!(!hit_test(15, 9, rect));
    assert!(!hit_test(15, 20, rect));
}

#[test]
fn hit_test_boundary_coordinates() {
    let rect = Rect::new(0, 0, 10, 5);
    assert!(hit_test(0, 0, rect));
    assert!(hit_test(9, 4, rect));
    assert!(!hit_test(10, 0, rect));
    assert!(!hit_test(0, 5, rect));
}

#[test]
fn hit_test_saturates_at_screen_edge() {
    let rect = Rect::new(65530, 0, 100, 1);
    assert!(hit_test(65534, 0, rect));
    assert!(!hit_test(65535, 0, rect));
}

#[test]
fn cycles_through_all_themes_and_wraps() {
    let start = ThemeName::Slate;
    let mut current = start.next();
    assert_eq!(current, ThemeName::Midnight);
    current = current.next();
    assert_eq!(current, ThemeName::Parchment);
    current = current.next();
    assert_eq!(current, ThemeName::Gospel);
    current = current.next();
    assert_eq!(current, ThemeName::Terminal);
    current = current.next();
    assert_eq!(current, ThemeName::Slate);
}

#[test]
fn theme_colors() {
    assert_eq!(get_theme(ThemeName::Slate).bg, Color::Rgb(15, 23, 42));
    assert_eq!(get_theme(ThemeName::Terminal).bg, Color::Reset);
    assert_eq!(get_theme(ThemeName::Gospel).accent, Color::Rgb(37, 99, 235));
    assert_eq!(ThemeName::Parchment.label(), "Parchment");
    assert_eq!(ThemeName::default(), ThemeName::Slate);
}

#[test]
fn help_tabs_are_found_by_column() {
    let mut help = HelpState::default();
    assert_eq!(help.tab_at_col(5), None);
    help.tab_offsets = tab_offsets(10);
    assert_eq!(help.tab_offsets, [10, 27, 41, 51]);
    assert_eq!(help.tab_at_col(9), None);
    assert_eq!(help.tab_at_col(10), Some(0));
    assert_eq!(help.tab_at_col(30), Some(1));
    assert_eq!(help.tab_at_col(45), Some(2));
    assert_eq!(help.tab_at_col(200), Some(3));
}

#[test]
fn help_tables_and_tab_hits() {
    let nav = help_bindings(0);
    assert_eq!(nav.len(), 4);
    assert_eq!(nav[0], ("h / \u{2190}", "Focus previous panel"));
    assert_eq!(help_bindings(1).len(), 10);
    assert_eq!(help_bindings(2)[2], ("?", "This menu"));
    assert_eq!(help_bindings(7)[0], ("Esc", "Close overlay"));
    assert_eq!(binding_label("q"), "  q               ");
    assert_eq!(binding_label("j / k / \u{2191} / \u{2193}"), "  j / k / \u{2191} / \u{2193}   ");

    let mut help = HelpState::default();
    assert_eq!(help.tab_at_col(30), None);
    help.place_tabs(Rect::new(10, 5, 60, 2));
    assert_eq!(help.tab_offsets, [10, 27, 41, 51]);
    assert_eq!(help.tab_at_col(9), None);
    assert_eq!(help.tab_at_col(26), Some(0));
    assert_eq!(help.tab_at_col(27), Some(1));
    assert_eq!(help.tab_at_col(60), Some(3));
}
