use mwm::launcher::{Launcher, LauncherKey};
use mwm::selector::{Selector, SelectorKey};

fn commands(n: usize) -> Vec<String> {
    (0..n).map(|i| format!("command-{}", i)).collect()
}

fn selector_config() -> mwm::selector::config::Config {
    mwm::selector::config::Config {
        width: 600,
        border_thickness: 2,
        border_color: 0x3b7a82,
        font_size: 16,
        font_family: String::from("monospace"),
        font_color: 0xffffff,
        font_active_color: 0x000000,
        background_color: 0x222222,
        background_active_color: 0x3b7a82,
        modifier: 64,
        close_keysym: 0xff1b,
        select_keysym: 0xff0d,
        up_keysym: 0xff52,
        down_keysym: 0xff54,
    }
}

#[test]
fn scrolled_viewport_shows_the_last_five() {
    // Seven commands, selection at index 6: the visible window is
    // indices 2 through 6 and the highlighted row within it is 4.
    let mut s = Selector::new(commands(7));
    s.selection_index = 6;
    let rows = s.visible_commands();
    assert_eq!(rows, commands(7)[2..=6].to_vec());
    assert_eq!(s.highlighted_row(), 4);
}

#[test]
fn unscrolled_viewport_starts_at_the_top() {
    let mut s = Selector::new(commands(7));
    s.selection_index = 1;
    let rows = s.visible_commands();
    assert_eq!(rows, commands(7)[0..5].to_vec());
    assert_eq!(s.highlighted_row(), 1);
}

#[test]
fn filter_keeps_prefix_matches_only() {
    let mut list = commands(5);
    list.push(String::from("other"));
    let mut s = Selector::new(list);
    for c in "command".chars() {
        s.on_key_press(&selector_config(), SelectorKey::Char(c), 0);
    }
    let rows = s.visible_commands();
    assert_eq!(rows, commands(5));
}

#[test]
fn backspace_shortens_the_filter_and_nothing_else() {
    let cfg = selector_config();
    let mut s = Selector::new(commands(6));
    s.on_key_press(&cfg, SelectorKey::Char('a'), 0);
    s.on_key_press(&cfg, SelectorKey::Char('b'), 0);
    s.selection_index = 2;
    s.on_key_press(&cfg, SelectorKey::Backspace, 0);
    assert_eq!(s.search_input, vec!['a']);
    assert_eq!(s.selection_index, 2);
    // Backspace on an empty filter stays empty.
    s.on_key_press(&cfg, SelectorKey::Backspace, 0);
    s.on_key_press(&cfg, SelectorKey::Backspace, 0);
    assert!(s.search_input.is_empty());
}

#[test]
fn selector_navigation_requires_the_modifier() {
    let cfg = selector_config();
    let mut s = Selector::new(commands(6));
    s.on_key_press(&cfg, SelectorKey::Down, 0);
    assert_eq!(s.selection_index, 0);
    s.on_key_press(&cfg, SelectorKey::Down, 64);
    assert_eq!(s.selection_index, 1);
    s.on_key_press(&cfg, SelectorKey::Up, 64);
    s.on_key_press(&cfg, SelectorKey::Up, 64);
    // Wraps to the last command.
    assert_eq!(s.selection_index, 5);
}

#[test]
fn selector_select_prints_the_selected_command() {
    let cfg = selector_config();
    let mut s = Selector::new(commands(6));
    s.selection_index = 3;
    match s.on_key_press(&cfg, SelectorKey::Select, 0) {
        mwm::selector::Outcome::Chosen(c) => assert_eq!(c, "command-3"),
        other => panic!("unexpected outcome: {:?}", other),
    }
    assert!(matches!(
        s.on_key_press(&cfg, SelectorKey::Close, 0),
        mwm::selector::Outcome::Cancel
    ));
}

#[test]
fn launcher_navigation_wraps_unconditionally() {
    let mut l = Launcher::new(commands(4));
    l.on_key_press(LauncherKey::Up);
    assert_eq!(l.selection_index, 3);
    l.on_key_press(LauncherKey::Down);
    assert_eq!(l.selection_index, 0);
    l.on_key_press(LauncherKey::Down);
    assert_eq!(l.selection_index, 1);
}

#[test]
fn launcher_select_and_close() {
    let mut l = Launcher::new(commands(2));
    l.selection_index = 1;
    match l.on_key_press(LauncherKey::Select) {
        mwm::launcher::Outcome::Chosen(c) => assert_eq!(c, "command-1"),
        other => panic!("unexpected outcome: {:?}", other),
    }
    assert!(matches!(
        l.on_key_press(LauncherKey::Close),
        mwm::launcher::Outcome::Cancel
    ));
}

#[test]
fn launcher_rows_grow_with_the_command_count() {
    let cfg = mwm::launcher::config::Config {
        width: 600,
        border_thickness: 2,
        border_color: 0x3b7a82,
        font_size: 16,
        font_family: String::from("monospace"),
        font_color: 0xffffff,
        font_active_color: 0x000000,
        background_color: 0x222222,
        background_active_color: 0x3b7a82,
        close_keysym: 0xff1b,
        select_keysym: 0xff0d,
        up_keysym: 0xff52,
        down_keysym: 0xff54,
    };
    assert_eq!(Launcher::item_height(&cfg), 24);
    let l = Launcher::new(commands(3));
    // One row per command plus the header row.
    assert_eq!(l.window_height(&cfg), 96);
    assert_eq!(Launcher::initial_position(&cfg, 1920, 1080), (660, 540));
}

#[test]
fn selector_height_follows_the_filtered_rows() {
    let cfg = selector_config();
    let mut s = Selector::new(commands(7));
    assert_eq!(s.window_height(&cfg), 24 * 6);
    for c in "command-1".chars() {
        s.on_key_press(&cfg, SelectorKey::Char(c), 0);
    }
    // Only one row matches the filter now.
    assert_eq!(s.window_height(&cfg), 24 * 2);
}
