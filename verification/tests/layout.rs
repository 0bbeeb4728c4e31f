use mwm::client::{Client, Clients};
use mwm::command::Request;
use mwm::config::Config;
use mwm::screen::Screen;

fn test_config() -> Config {
    Config {
        border_thickness: 2,
        border_gap: 4,
        active_border: 0x3b7a82,
        inactive_border: 0x444444,
        workspace_modifier: 64,
        workspace_move_window_modifier: 65,
        autostart: vec![],
        actions: vec![],
        commands: vec![],
    }
}

fn client(window: u32) -> Client {
    Client {
        window,
        workspace: Some(1),
        visible: true,
        controlled: true,
        full_screen: false,
        padding_top: 0,
    }
}

fn registry(clients: Vec<Client>) -> Clients {
    Clients {
        clients,
        active_workspace: 1,
        active_window: None,
        dock_window: None,
        front_window_ratio: vec![50, 50, 50, 50, 50, 50, 50, 50, 50],
    }
}

#[test]
fn single_client_fills_usable_area() {
    let cfg = test_config();
    let screen = Screen::new(1920, 1080);
    let registry = registry(vec![client(7)]);
    let reqs = registry.resize(&cfg, screen);
    assert_eq!(
        reqs,
        vec![
            Request::DisableEventMask { window: 7 },
            Request::SetGeometry { window: 7, x: 4, y: 4, width: 1908, height: 1068, border: 2 },
            Request::EnableEventMask { window: 7 },
        ]
    );
}

#[test]
fn two_clients_share_adjusted_base_width() {
    let cfg = test_config();
    let screen = Screen::new(1920, 1080);
    // Newest first: window 2 is the master, window 1 stacks to its right.
    let registry = registry(vec![client(2), client(1)]);
    let reqs = registry.resize(&cfg, screen);
    // The adjusted base width is 1908 - (4 - 8) = 1912; the master gets
    // floor(1912 * 0.5) = 956 and the stack gets 1912 - 956 = 956.
    assert_eq!(reqs.len(), 6);
    assert_eq!(
        reqs[1],
        Request::SetGeometry { window: 2, x: 4, y: 4, width: 956, height: 1068, border: 2 }
    );
    // Stack: x = gap + master + border2 + gap2 = 4 + 956 + 4 + 8 = 972,
    // height = 1080 / 1 - 4 - 8 = 1068.
    assert_eq!(
        reqs[4],
        Request::SetGeometry { window: 1, x: 972, y: 4, width: 956, height: 1068, border: 2 }
    );
}

#[test]
fn padding_shifts_layout_down() {
    let cfg = test_config();
    let screen = Screen::new(1920, 1080);
    let mut dock = client(9);
    dock.controlled = false;
    dock.workspace = None;
    dock.padding_top = 24;
    let registry = registry(vec![client(7), dock]);
    let reqs = registry.resize(&cfg, screen);
    // The dock is not tiled, but its reservation lowers the usable area.
    assert_eq!(
        reqs,
        vec![
            Request::DisableEventMask { window: 7 },
            Request::SetGeometry { window: 7, x: 4, y: 28, width: 1908, height: 1044, border: 2 },
            Request::EnableEventMask { window: 7 },
        ]
    );
}

#[test]
fn full_screen_client_overrides_tiled_geometry() {
    let cfg = test_config();
    let screen = Screen::new(1920, 1080);
    let mut c = client(3);
    c.full_screen = true;
    let registry = registry(vec![c]);
    let reqs = registry.resize(&cfg, screen);
    assert_eq!(reqs.len(), 4);
    assert_eq!(
        reqs[3],
        Request::SetGeometry { window: 3, x: 0, y: 0, width: 1920, height: 1080, border: 0 }
    );
}

#[test]
fn hidden_and_uncontrolled_clients_are_not_tiled() {
    let cfg = test_config();
    let screen = Screen::new(1920, 1080);
    let mut hidden = client(1);
    hidden.visible = false;
    let mut floating = client(2);
    floating.controlled = false;
    let registry = registry(vec![hidden, floating]);
    let reqs = registry.resize(&cfg, screen);
    assert!(reqs.is_empty());
}

#[test]
fn capacity_bound_leaves_excess_clients_alone() {
    let cfg = test_config();
    // 1080 / (8 + 4) - 1 = 89 tiled clients at most; with a tiny screen the
    // bound bites much sooner: height 36 gives 36 / 12 - 1 = 2.
    let screen = Screen::new(1920, 36);
    let registry = registry(vec![client(1), client(2), client(3)]);
    let reqs = registry.resize(&cfg, screen);
    // Only the first two clients receive geometry (three requests each).
    assert_eq!(reqs.len(), 6);
    let touched: Vec<u32> = reqs
        .iter()
        .filter_map(|r| match r {
            Request::SetGeometry { window, .. } => Some(*window),
            _ => None,
        })
        .collect();
    assert_eq!(touched, vec![1, 2]);
}

#[test]
fn padding_sum_counts_only_visible_clients() {
    let mut a = client(1);
    a.padding_top = 10;
    let mut b = client(2);
    b.padding_top = 20;
    b.visible = false;
    let registry = registry(vec![a, b]);
    assert_eq!(registry.get_padding_top(), 10);
}
