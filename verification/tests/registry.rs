use mwm::client::{Client, Clients};
use mwm::command::{delete_message_data, Request};
use mwm::config::{Action, Config};
use mwm::screen::Screen;

fn test_config() -> Config {
    Config {
        border_thickness: 2,
        border_gap: 4,
        active_border: 0x3b7a82,
        inactive_border: 0x444444,
        workspace_modifier: 64,
        workspace_move_window_modifier: 65,
        autostart: vec![],
        actions: vec![],
        commands: vec![],
    }
}

fn client(window: u32) -> Client {
    Client {
        window,
        workspace: Some(1),
        visible: true,
        controlled: true,
        full_screen: false,
        padding_top: 0,
    }
}

fn registry(clients: Vec<Client>) -> Clients {
    Clients {
        clients,
        active_workspace: 1,
        active_window: None,
        dock_window: None,
        front_window_ratio: vec![50, 50, 50, 50, 50, 50, 50, 50, 50],
    }
}

const SCREEN: (u16, u16) = (1920, 1080);

fn screen() -> Screen {
    Screen::new(SCREEN.0, SCREEN.1)
}

#[test]
fn full_screen_truth_table() {
    let cfg = test_config();
    for prev in [false, true] {
        for (status, toggle, expected) in [
            (Some(true), true, true),
            (Some(true), false, true),
            (None, true, !prev),
            (None, false, prev),
        ] {
            let mut c = client(5);
            c.full_screen = prev;
            let mut reg = registry(vec![c]);
            let reqs = reg.set_full_screen(&cfg, screen(), 5, status, toggle);
            assert_eq!(reg.clients[0].full_screen, expected);
            assert_eq!(reqs[0], Request::SetFullScreenState { window: 5, full_screen: expected });
        }
    }
}

#[test]
fn close_sends_delete_when_advertised() {
    let cfg = test_config();
    let mut reg = registry(vec![client(5)]);
    reg.active_window = Some(5);
    let reqs = reg.handle_action(&cfg, screen(), 5, Action::Close, true);
    assert_eq!(reqs[0], Request::SendDeleteMessage { window: 5 });
    assert!(!reqs.contains(&Request::KillClient { window: 5 }));
    assert!(!reqs.contains(&Request::SetCloseDownModeDestroyAll));
}

#[test]
fn close_kills_without_the_protocol() {
    let cfg = test_config();
    let mut reg = registry(vec![client(5)]);
    reg.active_window = Some(5);
    let reqs = reg.handle_action(&cfg, screen(), 5, Action::Close, false);
    assert_eq!(reqs[0], Request::SetCloseDownModeDestroyAll);
    assert_eq!(reqs[1], Request::KillClient { window: 5 });
    assert!(!reqs.contains(&Request::SendDeleteMessage { window: 5 }));
}

#[test]
fn close_fallback_matches_the_unsupported_path() {
    let reqs = mwm::client::action::close_fallback(9);
    assert_eq!(
        reqs,
        vec![Request::SetCloseDownModeDestroyAll, Request::KillClient { window: 9 }]
    );
}

#[test]
fn delete_message_payload() {
    assert_eq!(delete_message_data(123, 456), [123, 456, 0, 0, 0]);
}

#[test]
fn selection_wraps_around() {
    let cfg = test_config();
    // Four visible, controlled clients.
    let mk = || registry(vec![client(1), client(2), client(3), client(4)]);

    // From position 0, selecting above wraps to position 3.
    let mut reg = mk();
    reg.active_window = Some(1);
    reg.handle_action(&cfg, screen(), 1, Action::SelectAbove, false);
    assert_eq!(reg.active_window, Some(4));

    // From position 3, selecting below wraps to position 0.
    let mut reg = mk();
    reg.active_window = Some(4);
    reg.handle_action(&cfg, screen(), 4, Action::SelectBelow, false);
    assert_eq!(reg.active_window, Some(1));

    // Interior positions move by exactly one.
    for (start, above, below) in [(2u32, 1u32, 3u32), (3, 2, 4)] {
        let mut reg = mk();
        reg.active_window = Some(start);
        reg.handle_action(&cfg, screen(), start, Action::SelectAbove, false);
        assert_eq!(reg.active_window, Some(above));

        let mut reg = mk();
        reg.active_window = Some(start);
        reg.handle_action(&cfg, screen(), start, Action::SelectBelow, false);
        assert_eq!(reg.active_window, Some(below));
    }
}

#[test]
fn ratio_clamps_at_both_ends() {
    let cfg = test_config();
    let mut reg = registry(vec![client(1)]);
    reg.active_window = Some(1);
    let mut seen = vec![reg.front_window_ratio[0]];
    for _ in 0..6 {
        reg.handle_action(&cfg, screen(), 1, Action::ShrinkFront, false);
        seen.push(reg.front_window_ratio[0]);
    }
    // Starting at one half, six shrinks step down to one fifth.
    assert_eq!(seen, vec![50, 45, 40, 35, 30, 25, 20]);
    // Three more approach but never pass the floor of one tenth.
    for _ in 0..3 {
        reg.handle_action(&cfg, screen(), 1, Action::ShrinkFront, false);
        assert!(reg.front_window_ratio[0] >= 10);
    }
    assert_eq!(reg.front_window_ratio[0], 10);

    // Symmetrically for expansion toward nine tenths.
    let mut reg = registry(vec![client(1)]);
    reg.active_window = Some(1);
    for _ in 0..10 {
        reg.handle_action(&cfg, screen(), 1, Action::ExpandFront, false);
        assert!(reg.front_window_ratio[0] <= 90);
    }
    assert_eq!(reg.front_window_ratio[0], 90);
}

#[test]
fn workspace_labels_carry_superscript_counts() {
    let mut clients = Vec::new();
    for w in 0..2u32 {
        let mut c = client(w + 1);
        c.workspace = Some(3);
        clients.push(c);
    }
    let reg = registry(clients);
    let names = reg.workspace_names();
    assert_eq!(names.len(), 9);
    assert_eq!(names[2], "3\u{00b2}");
    assert_eq!(names[4], "5");
    assert_eq!(names[0], "1");
}

#[test]
fn workspace_label_uses_decimal_superscripts() {
    let mut clients = Vec::new();
    for w in 0..12u32 {
        let mut c = client(w + 1);
        c.workspace = Some(1);
        clients.push(c);
    }
    let reg = registry(clients);
    let names = reg.workspace_names();
    assert_eq!(names[0], "1\u{00b9}\u{00b2}");
}

#[test]
fn create_classifies_docks_and_dialogs() {
    let cfg = test_config();
    let mut reg = registry(vec![]);

    let reqs = reg.create(&cfg, 10, false, false, 0);
    assert_eq!(reg.clients[0].controlled, true);
    assert_eq!(reg.clients[0].workspace, Some(1));
    assert_eq!(reg.active_window, Some(10));
    assert!(reqs.contains(&Request::MapWindow { window: 10 }));
    assert!(reqs.contains(&Request::SetBorderWidth { window: 10, width: 2 }));

    let reqs = reg.create(&cfg, 11, true, false, 24);
    assert_eq!(reg.dock_window, Some(11));
    assert_eq!(reg.clients[0].controlled, false);
    assert_eq!(reg.clients[0].workspace, None);
    // The dock gets no border and does not take the focus.
    assert!(!reqs.contains(&Request::SetBorderWidth { window: 11, width: 2 }));
    assert_eq!(reg.active_window, Some(10));

    let _ = reg.create(&cfg, 12, false, true, 0);
    assert_eq!(reg.clients[0].controlled, false);

    // Creating an already-registered window is a no-op.
    let before = reg.clients.len();
    let reqs = reg.create(&cfg, 10, false, false, 0);
    assert!(reqs.is_empty());
    assert_eq!(reg.clients.len(), before);
}

#[test]
fn destroy_hands_focus_to_first_controlled_client() {
    let cfg = test_config();
    let mut reg = registry(vec![client(1), client(2)]);
    reg.active_window = Some(1);
    let reqs = reg.destroy(&cfg, 1);
    assert_eq!(reg.clients.len(), 1);
    assert_eq!(reg.active_window, Some(2));
    assert!(reqs.contains(&Request::PublishClientList));
    assert!(reqs.contains(&Request::PublishWorkspaceNames));
}

#[test]
fn hide_and_show_toggle_visibility() {
    let cfg = test_config();
    let mut reg = registry(vec![client(1)]);
    let reqs = reg.hide_window(&cfg, screen(), 1);
    assert!(!reg.clients[0].visible);
    assert_eq!(reqs[0], Request::UnmapWindow { window: 1 });
    // Hiding again is idempotent: no second unmap.
    let reqs = reg.hide_window(&cfg, screen(), 1);
    assert!(!reqs.contains(&Request::UnmapWindow { window: 1 }));
    let reqs = reg.show(&cfg, screen(), 1);
    assert!(reg.clients[0].visible);
    assert_eq!(reqs[0], Request::MapWindow { window: 1 });
}

#[test]
fn workspace_switch_maps_and_unmaps_controlled_clients() {
    let cfg = test_config();
    let mut on_two = client(2);
    on_two.workspace = Some(2);
    on_two.visible = false;
    let mut reg = registry(vec![client(1), on_two]);
    reg.active_window = Some(1);
    let reqs = reg.set_active_workspace(&cfg, screen(), 2);
    assert_eq!(reg.active_workspace, 2);
    assert!(!reg.clients[0].visible);
    assert!(reg.clients[1].visible);
    assert_eq!(reg.active_window, None);
    assert!(reqs.contains(&Request::UnmapWindow { window: 1 }));
    assert!(reqs.contains(&Request::MapWindow { window: 2 }));
    assert!(reqs.contains(&Request::PublishCurrentDesktop { desktop: 2 }));
    assert!(reqs.contains(&Request::PublishActiveWindow { window: 0 }));
}

#[test]
fn reassigning_to_the_shown_workspace_is_a_noop() {
    let cfg = test_config();
    let mut reg = registry(vec![client(1)]);
    let reqs = reg.set_window_workspace(&cfg, screen(), 1, Some(1));
    assert!(reqs.is_empty());
    assert_eq!(reg.clients[0].workspace, Some(1));

    let reqs = reg.set_window_workspace(&cfg, screen(), 1, Some(2));
    assert_eq!(reg.clients[0].workspace, Some(2));
    assert!(!reg.clients[0].visible);
    assert!(reqs.contains(&Request::UnmapWindow { window: 1 }));
}

#[test]
fn focusing_the_dock_is_refused() {
    let cfg = test_config();
    let mut reg = registry(vec![client(1)]);
    reg.dock_window = Some(9);
    let reqs = reg.set_active_window(&cfg, Some(9));
    assert!(reqs.is_empty());
    assert_eq!(reg.active_window, None);
}

#[test]
fn focus_change_restores_previous_border() {
    let cfg = test_config();
    let mut reg = registry(vec![client(1), client(2)]);
    reg.active_window = Some(1);
    let reqs = reg.set_active_window(&cfg, Some(2));
    assert_eq!(
        reqs,
        vec![
            Request::SetInputFocus { window: 2 },
            Request::SetBorderColor { window: 2, color: 0x3b7a82 },
            Request::SetBorderColor { window: 1, color: 0x444444 },
            Request::PublishActiveWindow { window: 2 },
        ]
    );
    assert_eq!(reg.active_window, Some(2));
}

#[test]
fn client_list_follows_registry_order() {
    let reg = registry(vec![client(3), client(1), client(2)]);
    assert_eq!(reg.client_list(), vec![3, 1, 2]);
}
