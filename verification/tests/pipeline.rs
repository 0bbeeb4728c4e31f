use mwm::client::{Client, Clients};
use mwm::command::Request;
use mwm::config::{Action, ActionKeyPress, CommandKeyPress, Config};
use mwm::event::{
    ClientMessageInfo, ConfigureRequestInfo, KeyPressInfo, MessageKind, PropertyKind,
    PropertyNotifyInfo, STATE_ADD, STATE_TOGGLE,
};
use mwm::handler::Handler;
use mwm::plugins::configure_window::{
    CONFIG_WINDOW_HEIGHT, CONFIG_WINDOW_STACK_MODE, CONFIG_WINDOW_WIDTH, CONFIG_WINDOW_X,
    CONFIG_WINDOW_Y,
};
use mwm::plugins::Commands;
use mwm::screen::Screen;

fn test_config() -> Config {
    Config {
        border_thickness: 2,
        border_gap: 4,
        active_border: 0x3b7a82,
        inactive_border: 0x444444,
        workspace_modifier: 64,
        workspace_move_window_modifier: 65,
        autostart: vec![],
        actions: vec![
            ActionKeyPress { modifier: 64, keysym: 113, action: Action::SelectAbove },
            ActionKeyPress { modifier: 64, keysym: 114, action: Action::SelectBelow },
        ],
        commands: vec![
            CommandKeyPress { modifier: 64, keysym: 36, command: String::from("launcher") },
            CommandKeyPress { modifier: 65, keysym: 36, command: String::from("selector") },
        ],
    }
}

fn client(window: u32) -> Client {
    Client {
        window,
        workspace: Some(1),
        visible: true,
        controlled: true,
        full_screen: false,
        padding_top: 0,
    }
}

fn registry(clients: Vec<Client>) -> Clients {
    Clients {
        clients,
        active_workspace: 1,
        active_window: None,
        dock_window: None,
        front_window_ratio: vec![50, 50, 50, 50, 50, 50, 50, 50, 50],
    }
}

fn screen() -> Screen {
    Screen::new(1920, 1080)
}

#[test]
fn command_bindings_fire_on_their_keycode_and_exact_modifier() {
    let cfg = test_config();
    let plugin = Commands::new();
    // Both bindings share a keysym that resolves to keycode 44.
    let resolved = vec![Some(44u8), Some(44u8)];
    let event = KeyPressInfo { keycode: 44, state: 64, child: 0 };
    assert_eq!(plugin.on_key_press(&cfg.commands, &resolved, &event), vec![0]);
    let event = KeyPressInfo { keycode: 44, state: 65, child: 0 };
    assert_eq!(plugin.on_key_press(&cfg.commands, &resolved, &event), vec![1]);
    let event = KeyPressInfo { keycode: 9, state: 64, child: 0 };
    assert!(plugin.on_key_press(&cfg.commands, &resolved, &event).is_empty());
}

#[test]
fn key_press_dispatches_actions_and_workspace_digits() {
    let cfg = test_config();
    let handler = Handler::new();
    let mut reg = registry(vec![client(1), client(2)]);
    reg.active_window = Some(1);

    let cmd_resolved = vec![Some(44u8), Some(44u8)];
    let act_resolved = vec![Some(30u8), Some(31u8)];
    let digit_resolved: Vec<Option<u8>> =
        (0..9).map(|d| Some(10 + d as u8)).collect();

    // The select-below binding fires.
    let event = KeyPressInfo { keycode: 31, state: 64, child: 0 };
    let outcome = handler.on_key_press(
        &mut reg,
        &cfg,
        screen(),
        &cmd_resolved,
        &act_resolved,
        &digit_resolved,
        &event,
        false,
    );
    assert_eq!(reg.active_window, Some(2));
    assert!(outcome.spawn.is_empty());

    // Workspace digit 2 under the switch modifier switches the view.
    let event = KeyPressInfo { keycode: 11, state: 64, child: 0 };
    handler.on_key_press(
        &mut reg,
        &cfg,
        screen(),
        &cmd_resolved,
        &act_resolved,
        &digit_resolved,
        &event,
        false,
    );
    assert_eq!(reg.active_workspace, 2);

    // Under the move modifier the child window is reassigned instead.
    let event = KeyPressInfo { keycode: 13, state: 65, child: 1 };
    handler.on_key_press(
        &mut reg,
        &cfg,
        screen(),
        &cmd_resolved,
        &act_resolved,
        &digit_resolved,
        &event,
        false,
    );
    assert_eq!(reg.active_workspace, 2);
    assert_eq!(reg.clients[0].workspace, Some(4));
}

#[test]
fn state_message_toggles_full_screen_and_activates() {
    let cfg = test_config();
    let handler = Handler::new();
    let mut reg = registry(vec![client(1)]);
    let msg = ClientMessageInfo {
        window: 1,
        kind: MessageKind::NetWmState,
        data0: STATE_ADD,
        data1: 0,
    };
    let reqs = handler.on_client_message(&mut reg, &cfg, screen(), &msg);
    assert!(reg.clients[0].full_screen);
    assert_eq!(reg.active_window, Some(1));
    assert!(reqs.contains(&Request::SetFullScreenState { window: 1, full_screen: true }));

    let msg = ClientMessageInfo {
        window: 1,
        kind: MessageKind::NetWmState,
        data0: 0,
        data1: STATE_TOGGLE,
    };
    handler.on_client_message(&mut reg, &cfg, screen(), &msg);
    assert!(!reg.clients[0].full_screen);
}

#[test]
fn current_desktop_message_forces_workspace_one() {
    let cfg = test_config();
    let handler = Handler::new();
    let mut reg = registry(vec![client(1)]);
    reg.active_workspace = 3;
    let msg = ClientMessageInfo { window: 1, kind: MessageKind::CurrentDesktop, data0: 7, data1: 0 };
    let reqs = handler.on_client_message(&mut reg, &cfg, screen(), &msg);
    // The requested index is ignored; workspace 1 becomes active.
    assert_eq!(reg.active_workspace, 1);
    assert!(reqs.contains(&Request::PublishCurrentDesktop { desktop: 1 }));
}

#[test]
fn map_request_registers_shows_and_records() {
    let cfg = test_config();
    let mut handler = Handler::new();
    let mut reg = registry(vec![]);
    let reqs = handler.on_map_request(&mut reg, &cfg, screen(), 5, false, false, false, 0);
    assert_eq!(reg.clients.len(), 1);
    assert!(reg.clients[0].visible);
    assert!(reqs.contains(&Request::MapWindow { window: 5 }));
    assert_eq!(handler.workspaces.window_lists[0], vec![5]);

    // An override-redirected window is ignored by the registry but still
    // recorded by the secondary bookkeeping.
    let reqs = handler.on_map_request(&mut reg, &cfg, screen(), 6, true, false, false, 0);
    assert_eq!(reg.clients.len(), 1);
    // Only the relayout runs for it.
    assert!(!reqs.contains(&Request::MapWindow { window: 6 }));
}

#[test]
fn configure_request_honours_the_value_mask() {
    let handler = Handler::new();
    let event = ConfigureRequestInfo {
        window: 5,
        x: 30,
        y: -7,
        width: 640,
        height: 480,
        border_width: 1,
        sibling: 0,
        stack_mode: 0,
        value_mask: CONFIG_WINDOW_X | CONFIG_WINDOW_Y | CONFIG_WINDOW_WIDTH,
    };
    let values = handler.on_configure_request(&event, 100, 100, false, false, screen());
    assert_eq!(
        values,
        vec![
            (CONFIG_WINDOW_WIDTH, 640),
            (CONFIG_WINDOW_X, 30),
            (CONFIG_WINDOW_Y, 0xfff9),
        ]
    );
}

#[test]
fn dialogs_are_centred_regardless_of_the_requested_position() {
    let handler = Handler::new();
    let event = ConfigureRequestInfo {
        window: 5,
        x: 3,
        y: 9,
        width: 640,
        height: 480,
        border_width: 0,
        sibling: 0,
        stack_mode: 1,
        value_mask: CONFIG_WINDOW_X | CONFIG_WINDOW_Y | CONFIG_WINDOW_WIDTH
            | CONFIG_WINDOW_HEIGHT | CONFIG_WINDOW_STACK_MODE,
    };
    let values = handler.on_configure_request(&event, 100, 100, false, true, screen());
    assert_eq!(
        values,
        vec![
            (CONFIG_WINDOW_WIDTH, 640),
            (CONFIG_WINDOW_HEIGHT, 480),
            (CONFIG_WINDOW_STACK_MODE, 1),
            (CONFIG_WINDOW_X, (1920 - 640) / 2),
            (CONFIG_WINDOW_Y, (1080 - 480) / 2),
        ]
    );
}

#[test]
fn dock_type_change_forces_uncontrolled() {
    let cfg = test_config();
    let handler = Handler::new();
    let mut reg = registry(vec![client(1)]);
    let event = PropertyNotifyInfo { window: 1, kind: PropertyKind::WindowType };
    let reqs = handler.on_property_notify(&mut reg, &cfg, screen(), &event, true);
    assert!(!reg.clients[0].controlled);
    assert!(reqs.is_empty());

    // A strut change reflows the layout; with no controlled client left
    // there is nothing to tile.
    let event = PropertyNotifyInfo { window: 1, kind: PropertyKind::StrutPartial };
    let reqs = handler.on_property_notify(&mut reg, &cfg, screen(), &event, false);
    assert!(reqs.is_empty());
    let event = PropertyNotifyInfo { window: 9, kind: PropertyKind::Other };
    let reqs = handler.on_property_notify(&mut reg, &cfg, screen(), &event, false);
    assert!(reqs.is_empty());
}

#[test]
fn enter_unmap_and_destroy_dispatch_to_the_registry() {
    let cfg = test_config();
    let handler = Handler::new();
    let mut reg = registry(vec![client(1), client(2)]);
    handler.on_enter_notify(&mut reg, &cfg, 2);
    assert_eq!(reg.active_window, Some(2));
    handler.on_unmap_notify(&mut reg, &cfg, screen(), 1);
    assert!(!reg.clients[0].visible);
    handler.on_destroy_notify(&mut reg, &cfg, 1);
    assert_eq!(reg.client_list(), vec![2]);
}

#[test]
fn plugin_loading() {
    let plugin = mwm::plugins::window_mapper::load_window_mapper_plugin();
    assert_eq!(plugin.context, mwm::plugins::window_mapper::PluginContext);
}
