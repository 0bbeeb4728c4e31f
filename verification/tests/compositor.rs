use mwm::element::{CursorStatus, PointerElement};
use mwm::renderer::BorderShader;
use mwm::workspace::{CompositorRequest, Workspaces};

fn push_u32(out: &mut Vec<u8>, v: u32) {
    out.extend_from_slice(&v.to_le_bytes());
}

/// A minimal Xcursor file holding one animation of `frames` images, all
/// of the given pixel size, with the given per-frame delays.
fn cursor_file(size: u32, delays: &[u32]) -> Vec<u8> {
    let ntoc = delays.len() as u32;
    let mut out = Vec::new();
    out.extend_from_slice(b"Xcur");
    push_u32(&mut out, 16); // header byte count
    push_u32(&mut out, 0x10000); // file version
    push_u32(&mut out, ntoc);
    // One table-of-contents entry per image; image chunks follow the TOC.
    let image_len = 36 + 4 * size * size;
    for (i, _) in delays.iter().enumerate() {
        push_u32(&mut out, 0xfffd_0002); // image chunk type
        push_u32(&mut out, size); // subtype: nominal size
        push_u32(&mut out, 16 + 12 * ntoc + image_len * i as u32);
    }
    for delay in delays {
        push_u32(&mut out, 0x24); // chunk header byte count
        push_u32(&mut out, 0xfffd_0002); // chunk type
        push_u32(&mut out, size); // nominal size
        push_u32(&mut out, 1); // image version
        push_u32(&mut out, size); // width
        push_u32(&mut out, size); // height
        push_u32(&mut out, 0); // x hotspot
        push_u32(&mut out, 0); // y hotspot
        push_u32(&mut out, *delay);
        for _ in 0..(size * size) {
            push_u32(&mut out, 0xff00ff00);
        }
    }
    out
}

#[test]
fn cursor_frames_are_keyed_by_cumulative_delay() {
    // Delays 0, 100, 150 give cumulative keys 0, 100, 250.
    let data = cursor_file(24, &[0, 100, 150]);
    let p = PointerElement::new(&data, 24).expect("cursor file should parse");
    assert_eq!(p.frames, vec![0, 100, 250]);
    assert_eq!(p.total_delay, 250);
    assert!(matches!(p.status, CursorStatus::Default));
}

#[test]
fn frame_selection_takes_the_smallest_key_at_or_after_the_position() {
    let data = cursor_file(24, &[0, 100, 150]);
    let mut p = PointerElement::new(&data, 24).unwrap();
    p.current_delay = 150;
    // The frame keyed at 250 is the smallest key at or above 150.
    assert_eq!(p.select_frame(), Some(2));
    p.current_delay = 0;
    assert_eq!(p.select_frame(), Some(0));
    p.current_delay = 100;
    assert_eq!(p.select_frame(), Some(1));
    p.current_delay = 251;
    assert_eq!(p.select_frame(), None);
}

#[test]
fn current_delay_wraps_the_total_by_elapsed_time() {
    let data = cursor_file(24, &[0, 100, 150]);
    let mut p = PointerElement::new(&data, 24).unwrap();
    p.set_current_delay(100);
    assert_eq!(p.current_delay, 250 % 100);
    p.set_status(CursorStatus::Hidden);
    assert!(matches!(p.status, CursorStatus::Hidden));
}

#[test]
fn off_size_images_are_skipped() {
    let data = cursor_file(32, &[40, 40]);
    let p = PointerElement::new(&data, 24).unwrap();
    assert!(p.frames.is_empty());
    assert_eq!(p.total_delay, 0);
}

#[test]
fn garbage_bytes_yield_no_cursor() {
    let data = vec![1, 2, 3, 4, 5];
    assert!(PointerElement::new(&data, 24).is_none());
}

#[test]
fn border_element_straddles_the_window_edge() {
    let e = BorderShader::element(10, 20, 100, 50, true);
    assert_eq!((e.x, e.y, e.width, e.height), (8, 18, 104, 54));
    assert_eq!((e.red, e.green, e.blue), (255, 0, 0));
    assert_eq!(e.thickness, 2);
    let e = BorderShader::element(0, 0, 10, 10, false);
    assert_eq!((e.red, e.green, e.blue), (0, 0, 255));
}

#[test]
fn compositor_single_window_fills_the_output() {
    let mut ws = Workspaces::new();
    ws.insert_window(0, 7);
    let alive = vec![7];
    let reqs = ws.refresh_geometry(&alive, 800, 600);
    // Workspace 0 is also the previously shown workspace at startup, so
    // its window is unmapped by the hide pass before being laid out.
    assert_eq!(
        reqs,
        vec![
            CompositorRequest::UnmapWindow { window: 7 },
            CompositorRequest::ConfigureWindow { window: 7, x: 6, y: 6, width: 788, height: 588 },
        ]
    );
}

#[test]
fn compositor_stack_gets_even_slices_with_inner_gaps() {
    let mut ws = Workspaces::new();
    for w in [1, 2, 3] {
        ws.insert_window(0, w);
    }
    let alive = vec![1, 2, 3];
    let reqs = ws.refresh_geometry(&alive, 800, 600);
    // The hide pass of the (initially identical) previous workspace comes
    // first; the layout follows.  Master: width (788 - 6) / 2 = 391.
    assert_eq!(
        reqs[3],
        CompositorRequest::ConfigureWindow { window: 1, x: 6, y: 6, width: 391, height: 588 }
    );
    // First stacked window: height 588 / 2 = 294, at the master's right.
    assert_eq!(
        reqs[4],
        CompositorRequest::ConfigureWindow { window: 2, x: 403, y: 6, width: 391, height: 294 }
    );
    // Later stacked windows get an extra gap pushed in from the top.
    assert_eq!(
        reqs[5],
        CompositorRequest::ConfigureWindow { window: 3, x: 403, y: 306, width: 391, height: 288 }
    );
}

#[test]
fn switching_workspaces_unmaps_the_previous_one() {
    let mut ws = Workspaces::new();
    ws.insert_window(0, 1);
    ws.insert_window(1, 2);
    ws.set_active(1);
    assert_eq!(ws.active(), 1);
    let alive = vec![1, 2];
    let reqs = ws.refresh_geometry(&alive, 800, 600);
    assert_eq!(
        reqs,
        vec![
            CompositorRequest::UnmapWindow { window: 1 },
            CompositorRequest::ConfigureWindow { window: 2, x: 6, y: 6, width: 788, height: 588 },
        ]
    );
}

#[test]
fn first_window_of_a_workspace_becomes_active() {
    let mut ws = Workspaces::new();
    assert!(ws.is_workspace_empty(0));
    ws.insert_window(0, 5);
    assert!(!ws.is_workspace_empty(0));
    assert_eq!(ws.workspaces[0].active_window, Some(0));
    ws.insert_window(0, 6);
    assert_eq!(ws.workspaces[0].active_window, Some(0));
    ws.set_active_window(0, 6);
    assert_eq!(ws.workspaces[0].active_window, Some(1));
}

#[test]
fn dead_windows_drop_from_every_workspace() {
    let mut ws = Workspaces::new();
    ws.insert_window(0, 1);
    ws.insert_window(0, 2);
    ws.insert_window(3, 9);
    ws.remove_dead_windows(&vec![2]);
    assert_eq!(ws.workspaces[0].windows, vec![2]);
    assert!(ws.workspaces[3].windows.is_empty());
}

#[test]
fn moving_the_active_window_relocates_it() {
    let mut ws = Workspaces::new();
    ws.insert_window(0, 1);
    ws.insert_window(0, 2);
    // Window 1 (position 0) is active; move it to workspace 4.
    let alive = vec![1, 2];
    let reqs = ws.move_window(4, &alive, 800, 600);
    assert_eq!(ws.workspaces[0].windows, vec![2]);
    assert_eq!(ws.workspaces[4].windows, vec![1]);
    assert_eq!(ws.workspaces[0].active_window, None);
    assert_eq!(ws.workspaces[4].active_window, Some(0));
    // Workspace 0 is both the previously shown and the shown workspace:
    // its remaining window is unmapped by the hide pass and then laid out.
    assert_eq!(
        reqs,
        vec![
            CompositorRequest::UnmapWindow { window: 2 },
            CompositorRequest::ConfigureWindow { window: 2, x: 6, y: 6, width: 788, height: 588 },
        ]
    );
}
