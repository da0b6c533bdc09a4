//! The input bridge: feeding pointer/keyboard state in, and the values
//! the frame step computes from it.

use imgui::{ImGui, ImMouseButton};

#[test]
fn zero_logical_size_gives_zero_scale() {
    let mut ctx = ImGui::init();
    let _ui = ctx.frame((0, 0), (1920, 1080), 16_000);
    // No division by zero; the scale is simply (0, 0).
    assert_eq!(ctx.display_framebuffer_scale(), (0, 0));
    assert_eq!(ctx.display_size(), (0, 0));
}

#[test]
fn fractional_scale_in_thousandths() {
    let mut ctx = ImGui::init();
    let _ui = ctx.frame((1280, 800), (1920, 1200), 16_000);
    // 1920/1280 = 1.5 and 1200/800 = 1.5.
    assert_eq!(ctx.display_framebuffer_scale(), (1500, 1500));
}

#[test]
fn truncating_scale() {
    let mut ctx = ImGui::init();
    let _ui = ctx.frame((3, 3), (4, 5), 16_000);
    // 4*1000/3 = 1333 and 5*1000/3 = 1666, both truncated.
    assert_eq!(ctx.display_framebuffer_scale(), (1333, 1666));
}

#[test]
fn mouse_delta_computed_between_frames() {
    let mut ctx = ImGui::init();
    ctx.set_mouse_pos(100, 200);
    let _ui = ctx.frame((640, 480), (640, 480), 16_000);
    // First frame: delta against the initial (-1, -1) marker.
    assert_eq!(ctx.mouse_delta(), (101, 201));
    ctx.set_mouse_pos(130, 190);
    let _ui = ctx.frame((640, 480), (640, 480), 16_000);
    assert_eq!(ctx.mouse_delta(), (30, -10));
    assert_eq!(ctx.mouse_pos(), (130, 190));
}

#[test]
fn mouse_buttons_round_trip() {
    let mut ctx = ImGui::init();
    ctx.set_mouse_down(&[true, false, true, false, false]);
    assert!(ctx.is_mouse_down(ImMouseButton::Left));
    assert!(!ctx.is_mouse_down(ImMouseButton::Right));
    assert!(ctx.is_mouse_down(ImMouseButton::Middle));
    assert!(!ctx.is_mouse_down(ImMouseButton::Extra1));
    assert!(!ctx.is_mouse_down(ImMouseButton::Extra2));
}

#[test]
fn wheel_and_modifiers_round_trip() {
    let mut ctx = ImGui::init();
    ctx.set_mouse_wheel(-1500);
    assert_eq!(ctx.mouse_wheel(), -1500);
    ctx.set_key_ctrl(true);
    ctx.set_key_shift(true);
    ctx.set_key_alt(false);
    assert!(ctx.key_ctrl());
    assert!(ctx.key_shift());
    assert!(!ctx.key_alt());
    ctx.set_mouse_draw_cursor(true);
    assert!(ctx.mouse_draw_cursor());
}

#[test]
fn raw_keys_round_trip() {
    let mut ctx = ImGui::init();
    ctx.set_key(65, true);
    ctx.set_key(66, false);
    assert!(ctx.is_key_down(65));
    assert!(!ctx.is_key_down(66));
    assert!(!ctx.is_key_down(0));
}

#[test]
fn key_mapping_and_characters() {
    let mut ctx = ImGui::init();
    ctx.set_imgui_key(3, 42);
    assert_eq!(ctx.io.key_map[3], 42);
    ctx.add_input_character('h');
    ctx.add_input_character('i');
    assert_eq!(ctx.io.input_chars, vec!['h', 'i']);
}

#[test]
fn input_survives_frame_boundary() {
    let mut ctx = ImGui::init();
    ctx.set_mouse_pos(10, 10);
    ctx.set_mouse_down(&[true, false, false, false, false]);
    let _ui = ctx.frame((100, 100), (100, 100), 16_000);
    // The snapshot is read-only during the frame, not cleared by it.
    assert_eq!(ctx.mouse_pos(), (10, 10));
    assert!(ctx.is_mouse_down(ImMouseButton::Left));
}
