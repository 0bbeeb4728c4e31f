use mwm::config::{Action, ActionKeyPress, CommandKeyPress, Config, Modifiers};
use toml::Value;

fn get_u32(v: &Value, key: &str) -> Option<u32> {
    v.get(key).and_then(|x| x.as_integer()).map(|x| x as u32)
}

fn get_u16(v: &Value, key: &str) -> Option<u16> {
    v.get(key).and_then(|x| x.as_integer()).map(|x| x as u16)
}

fn get_string(v: &Value, key: &str) -> Option<String> {
    v.get(key).and_then(|x| x.as_str()).map(|s| s.to_owned())
}

fn action_of(name: &str) -> Option<Action> {
    match name {
        "Close" => Some(Action::Close),
        "SelectAbove" => Some(Action::SelectAbove),
        "SelectBelow" => Some(Action::SelectBelow),
        "ShrinkFront" => Some(Action::ShrinkFront),
        "ExpandFront" => Some(Action::ExpandFront),
        _ => None,
    }
}

fn wm_config_from(v: &Value) -> Option<Config> {
    let autostart = v.get("autostart").and_then(|x| x.as_array()).map(|a| {
        a.iter().filter_map(|e| e.as_str().map(|s| s.to_owned())).collect::<Vec<String>>()
    });
    let actions = v.get("actions").and_then(|x| x.as_array()).map(|a| {
        a.iter()
            .filter_map(|e| {
                Some(ActionKeyPress {
                    modifier: get_u16(e, "modifier")?,
                    keysym: get_u32(e, "keysym")?,
                    action: action_of(e.get("action")?.as_str()?)?,
                })
            })
            .collect::<Vec<ActionKeyPress>>()
    });
    let commands = v.get("commands").and_then(|x| x.as_array()).map(|a| {
        a.iter()
            .filter_map(|e| {
                Some(CommandKeyPress {
                    modifier: get_u16(e, "modifier")?,
                    keysym: get_u32(e, "keysym")?,
                    command: get_string(e, "command")?,
                })
            })
            .collect::<Vec<CommandKeyPress>>()
    });
    Config::from_parts(
        get_u32(v, "border_thickness"),
        get_u32(v, "border_gap"),
        get_u32(v, "active_border"),
        get_u32(v, "inactive_border"),
        get_u16(v, "workspace_modifier"),
        get_u16(v, "workspace_move_window_modifier"),
        autostart,
        actions,
        commands,
    )
}

const WM_TOML: &str = r#"
border_thickness = 2
border_gap = 4
active_border = 3897986
inactive_border = 4473924
workspace_modifier = 64
workspace_move_window_modifier = 65

autostart = ["statusbar"]

[[actions]]
modifier = 64
keysym = 113
action = "Close"

[[commands]]
modifier = 64
keysym = 36
command = "launcher"
"#;

#[test]
fn wm_config_round_trips_through_toml() {
    let value: Value = toml::from_str(WM_TOML).unwrap();
    let cfg = wm_config_from(&value).unwrap();
    assert_eq!(cfg.border_thickness, 2);
    assert_eq!(cfg.border_gap, 4);
    assert_eq!(cfg.active_border, 3897986);
    assert_eq!(cfg.inactive_border, 4473924);
    assert_eq!(cfg.workspace_modifier, 64);
    assert_eq!(cfg.workspace_move_window_modifier, 65);
    assert_eq!(cfg.autostart, vec!["statusbar"]);
    assert_eq!(cfg.actions.len(), 1);
    assert_eq!(cfg.actions[0].keysym, 113);
    assert_eq!(cfg.actions[0].action, Action::Close);
    assert_eq!(cfg.commands.len(), 1);
    assert_eq!(cfg.commands[0].command, "launcher");
}

#[test]
fn a_missing_field_fails_to_build() {
    let value: Value = toml::from_str(WM_TOML).unwrap();
    let mut table = value.as_table().unwrap().clone();
    table.remove("border_gap");
    assert!(wm_config_from(&Value::Table(table)).is_none());
}

const BAR_TOML: &str = r#"
height = 24
margin = 4
font_size = 16
font_family = "monospace"
font_color = 16777215
font_active_color = 0
background_color = 2236962
background_active_color = 3897986
workspace_width = 30
"#;

#[test]
fn statusbar_config_round_trips_through_toml() {
    let v: Value = toml::from_str(BAR_TOML).unwrap();
    let cfg = mwm::statusbar::config::Config::from_parts(
        get_u16(&v, "height"),
        get_u16(&v, "margin"),
        get_u32(&v, "font_size"),
        get_string(&v, "font_family"),
        get_u32(&v, "font_color"),
        get_u32(&v, "font_active_color"),
        get_u32(&v, "background_color"),
        get_u32(&v, "background_active_color"),
        get_u32(&v, "workspace_width"),
    )
    .unwrap();
    assert_eq!(cfg.height, 24);
    assert_eq!(cfg.margin, 4);
    assert_eq!(cfg.font_size, 16);
    assert_eq!(cfg.font_family, "monospace");
    assert_eq!(cfg.workspace_width, 30);
}

#[test]
fn statusbar_config_rejects_a_missing_field() {
    let v: Value = toml::from_str(BAR_TOML).unwrap();
    let mut table = v.as_table().unwrap().clone();
    table.remove("workspace_width");
    let v = Value::Table(table);
    assert!(mwm::statusbar::config::Config::from_parts(
        get_u16(&v, "height"),
        get_u16(&v, "margin"),
        get_u32(&v, "font_size"),
        get_string(&v, "font_family"),
        get_u32(&v, "font_color"),
        get_u32(&v, "font_active_color"),
        get_u32(&v, "background_color"),
        get_u32(&v, "background_active_color"),
        get_u32(&v, "workspace_width"),
    )
    .is_none());
}

const SELECTOR_TOML: &str = r#"
width = 600
border_thickness = 2
border_color = 3897986
font_size = 16
font_family = "monospace"
font_color = 16777215
font_active_color = 0
background_color = 2236962
background_active_color = 3897986
modifier = 64
close_keysym = 65307
select_keysym = 65293
up_keysym = 65362
down_keysym = 65364
"#;

fn selector_config_from(v: &Value) -> Option<mwm::selector::config::Config> {
    mwm::selector::config::Config::from_parts(
        get_u16(v, "width"),
        get_u16(v, "border_thickness"),
        get_u32(v, "border_color"),
        get_u16(v, "font_size"),
        get_string(v, "font_family"),
        get_u32(v, "font_color"),
        get_u32(v, "font_active_color"),
        get_u32(v, "background_color"),
        get_u32(v, "background_active_color"),
        get_u16(v, "modifier"),
        get_u32(v, "close_keysym"),
        get_u32(v, "select_keysym"),
        get_u32(v, "up_keysym"),
        get_u32(v, "down_keysym"),
    )
}

#[test]
fn selector_config_round_trips_through_toml() {
    let v: Value = toml::from_str(SELECTOR_TOML).unwrap();
    let cfg = selector_config_from(&v).unwrap();
    assert_eq!(cfg.width, 600);
    assert_eq!(cfg.modifier, 64);
    assert_eq!(cfg.close_keysym, 65307);
    assert_eq!(cfg.select_keysym, 65293);
    assert_eq!(cfg.up_keysym, 65362);
    assert_eq!(cfg.down_keysym, 65364);
}

#[test]
fn selector_config_rejects_a_missing_field() {
    let v: Value = toml::from_str(SELECTOR_TOML).unwrap();
    let mut table = v.as_table().unwrap().clone();
    table.remove("modifier");
    assert!(selector_config_from(&Value::Table(table)).is_none());
}

#[test]
fn launcher_config_requires_every_field() {
    let cfg = mwm::launcher::config::Config::from_parts(
        Some(600),
        Some(2),
        Some(3897986),
        Some(16),
        Some(String::from("monospace")),
        Some(16777215),
        Some(0),
        Some(2236962),
        Some(3897986),
        Some(65307),
        Some(65293),
        Some(65362),
        Some(65364),
    )
    .unwrap();
    assert_eq!(cfg.width, 600);
    assert!(mwm::launcher::config::Config::from_parts(
        Some(600),
        None,
        Some(3897986),
        Some(16),
        Some(String::from("monospace")),
        Some(16777215),
        Some(0),
        Some(2236962),
        Some(3897986),
        Some(65307),
        Some(65293),
        Some(65362),
        Some(65364),
    )
    .is_none());
}

#[test]
fn modifier_names_build_the_modifier_set() {
    let names = vec![String::from("Ctrl"), String::from("Alt")];
    let m = Modifiers::from_names(&names);
    assert!(m.ctrl && m.alt);
    assert!(!m.shift && !m.logo && !m.caps_lock && !m.num_lock);

    let held = Modifiers::from_names(&vec![
        String::from("Ctrl"),
        String::from("Alt"),
        String::from("Shift"),
    ]);
    // Every required modifier is held; extra held modifiers do not block.
    assert!(m.matches(&held));
    // A required modifier that is not held blocks the match.
    let only_ctrl = Modifiers::from_names(&vec![String::from("Ctrl")]);
    assert!(!m.matches(&only_ctrl));
}
