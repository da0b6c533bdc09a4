//! Owned configuration strings and scalar configuration options.

use imgui::{ImGui, ImString, StyleVar};

#[test]
fn imstring_appends_terminator() {
    let s = ImString::from_bytes(b"imgui.ini".to_vec()).expect("clean bytes");
    assert_eq!(s.len(), 9);
    assert_eq!(s.as_bytes_with_nul().len(), 10);
    assert_eq!(*s.as_bytes_with_nul().last().unwrap(), 0u8);
}

#[test]
fn imstring_rejects_interior_terminator() {
    assert!(ImString::from_bytes(b"bad\0path".to_vec()).is_none());
    assert!(ImString::from_bytes(b"\0".to_vec()).is_none());
}

#[test]
fn imstring_accepts_empty_text() {
    let s = ImString::from_bytes(Vec::new()).expect("empty is clean");
    assert_eq!(s.len(), 0);
    assert_eq!(s.as_bytes_with_nul().len(), 1);
}

#[test]
fn settings_paths_are_owned_by_the_context() {
    let mut ctx = ImGui::init();
    let ini = ImString::from_bytes(b"layout.ini".to_vec()).unwrap();
    let log = ImString::from_bytes(b"ui.log".to_vec()).unwrap();
    ctx.set_ini_filename(Some(ini));
    ctx.set_log_filename(Some(log));
    assert!(ctx.ini_filename.is_some());
    assert!(ctx.log_filename.is_some());
    // Clearing a path drops the owned buffer with it.
    ctx.set_ini_filename(None);
    assert!(ctx.ini_filename.is_none());
    assert!(ctx.log_filename.is_some());
}

#[test]
fn fresh_context_has_engine_defaults() {
    let ctx = ImGui::init();
    assert_eq!(ctx.io.ini_saving_rate_milli, 5_000);
    assert_eq!(ctx.io.font_global_scale_milli, 1_000);
    assert_eq!(ctx.io.mouse_double_click_time_milli, 300);
    assert_eq!(ctx.io.mouse_double_click_max_dist_milli, 6_000);
    assert_eq!(ctx.io.mouse_drag_threshold_milli, 6_000);
    assert_eq!(ctx.io.key_repeat_delay_milli, 250);
    assert_eq!(ctx.io.key_repeat_rate_milli, 50);
    assert_eq!(ctx.mouse_pos(), (-1, -1));
    assert!(ctx.io.mouse_down.iter().all(|b| !b));
}

#[test]
fn scalar_options_round_trip() {
    let mut ctx = ImGui::init();
    ctx.set_ini_saving_rate(12_000);
    ctx.set_font_global_scale(1_250);
    ctx.set_mouse_double_click_time(275);
    ctx.set_mouse_double_click_max_dist(5_500);
    ctx.set_mouse_drag_threshold(7_000);
    ctx.set_key_repeat_delay(260);
    ctx.set_key_repeat_rate(40);
    assert_eq!(ctx.io.ini_saving_rate_milli, 12_000);
    assert_eq!(ctx.io.font_global_scale_milli, 1_250);
    assert_eq!(ctx.io.mouse_double_click_time_milli, 275);
    assert_eq!(ctx.io.mouse_double_click_max_dist_milli, 5_500);
    assert_eq!(ctx.io.mouse_drag_threshold_milli, 7_000);
    assert_eq!(ctx.io.key_repeat_delay_milli, 260);
    assert_eq!(ctx.io.key_repeat_rate_milli, 40);
}

#[test]
fn style_vars_map_to_engine_indices() {
    let mut ctx = ImGui::init();
    let ui = ctx.frame((100, 100), (100, 100), 16_000);
    ui.push_id(&mut ctx, imgui::ImId::Int(0)).unwrap();
    ui.pop_id(&mut ctx).unwrap();
    let vars = vec![StyleVar::Alpha(500), StyleVar::ItemSpacing(4000, 2000)];
    let r = ui.with_style_vars(&mut ctx, &vars, || Ok::<(), u32>(()));
    assert_eq!(r, Ok(Ok(())));
    // After the call the stack is balanced again.
    assert_eq!(ctx.style_stack.len(), 0);
    // Check the variant-to-index mapping directly.
    assert_eq!(StyleVar::Alpha(500).to_entry().index, 0);
    assert_eq!(StyleVar::WindowPadding(1, 2).to_entry().index, 1);
    assert_eq!(StyleVar::ItemSpacing(4000, 2000).to_entry().index, 12);
    assert_eq!(StyleVar::ButtonTextAlign(1, 1).to_entry().index, 16);
    let e = StyleVar::ItemSpacing(4000, 2000).to_entry();
    assert_eq!((e.x_milli, e.y_milli), (4000, 2000));
    let e = StyleVar::Alpha(500).to_entry();
    assert_eq!((e.x_milli, e.y_milli), (500, 0));
}
