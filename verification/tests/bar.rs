use mwm::statusbar::{
    bar_geometry, bar_title, decimal_string, human_bytes, memory_text, strut_top, time_text,
    SurfaceState,
};

fn bar_config() -> mwm::statusbar::config::Config {
    mwm::statusbar::config::Config {
        height: 24,
        margin: 4,
        font_size: 16,
        font_family: String::from("monospace"),
        font_color: 0xffffff,
        font_active_color: 0x000000,
        background_color: 0x222222,
        background_active_color: 0x3b7a82,
        workspace_width: 30,
    }
}

#[test]
fn title_with_and_without_a_window_name() {
    let name = String::from("editor");
    assert_eq!(bar_title(Some(&name), "user", "host"), "[editor] user@host");
    assert_eq!(bar_title(None, "user", "host"), "user@host");
}

#[test]
fn memory_block_reads_used_over_total() {
    // 2000 total, 1000 free: 1000 used, 50% used.
    assert_eq!(memory_text(2000, 1000), "Mem: 1.0 KB (50% used)");
    // Free above total saturates at zero used.
    assert_eq!(memory_text(1000, 2000), "Mem: 0 B (0% used)");
}

#[test]
fn human_readable_bytes() {
    assert_eq!(human_bytes(0), "0 B");
    assert_eq!(human_bytes(999), "999 B");
    assert_eq!(human_bytes(1000), "1.0 KB");
    assert_eq!(human_bytes(1536), "1.5 KB");
    assert_eq!(human_bytes(728_300_000), "728.3 MB");
    assert_eq!(human_bytes(3_200_000_000), "3.2 GB");
}

#[test]
fn decimal_rendering() {
    assert_eq!(decimal_string(0), "0");
    assert_eq!(decimal_string(7), "7");
    assert_eq!(decimal_string(105), "105");
}

#[test]
fn clock_block_format() {
    assert_eq!(time_text(10, 9, 4, 15, 5), "Time: Oct 09 (Thu) 03:05PM");
    assert_eq!(time_text(1, 1, 0, 0, 0), "Time: Jan 01 (Sun) 12:00AM");
    assert_eq!(time_text(12, 31, 6, 12, 59), "Time: Dec 31 (Sat) 12:59PM");
}

#[test]
fn bar_window_geometry_and_strut() {
    let cfg = bar_config();
    assert_eq!(bar_geometry(&cfg, 1920), (4, 4, 1912, 24));
    assert_eq!(strut_top(&cfg), 28);
}

#[test]
fn title_band_repaints_only_on_change() {
    let mut s = SurfaceState::new();
    // An empty cache always repaints, even with no name available.
    assert!(s.update_window_name(None));
    assert!(s.update_window_name(Some(String::from("a"))));
    assert!(!s.update_window_name(Some(String::from("a"))));
    assert!(s.update_window_name(Some(String::from("b"))));
}

#[test]
fn workspace_band_repaints_only_on_change() {
    let mut s = SurfaceState::new();
    assert!(!s.update_workspace_name(None));
    assert!(s.update_workspace_name(Some(String::from("1"))));
    assert!(!s.update_workspace_name(Some(String::from("1"))));
    assert!(s.update_workspace_name(Some(String::from("2"))));
}

#[test]
fn colour_channels_decompose() {
    assert_eq!(mwm::rgb_channels(0x3b7a82), (0x3b, 0x7a, 0x82));
    assert_eq!(mwm::rgb_channels(0xffffff), (255, 255, 255));
    assert_eq!(mwm::rgb_channels(0), (0, 0, 0));
}
