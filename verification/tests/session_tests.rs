//! Frame lifecycle and session-validity behaviour.

use imgui::draw::DrawData;
use imgui::{ImGui, ImId, UiError};

#[test]
fn init_starts_idle() {
    let ctx = ImGui::init();
    assert!(!ctx.frame_active);
    assert_eq!(ctx.generation, 0);
    assert_eq!(ctx.id_stack.len(), 0);
    assert_eq!(ctx.display_size(), (0, 0));
}

#[test]
fn frame_bumps_generation_and_activates() {
    let mut ctx = ImGui::init();
    let ui = ctx.frame((800, 600), (800, 600), 16_000);
    assert!(ctx.frame_active);
    assert_eq!(ctx.generation, 1);
    assert_eq!(ui.generation, 1);
    assert_eq!(ctx.display_size(), (800, 600));
    assert_eq!(ctx.display_framebuffer_scale(), (1000, 1000));
}

#[test]
fn new_frame_invalidates_old_session() {
    let mut ctx = ImGui::init();
    let old_ui = ctx.frame((800, 600), (800, 600), 16_000);
    let new_ui = ctx.frame((800, 600), (800, 600), 16_000);
    // The stale handle is refused on every operation.
    let r = old_ui.push_id(&mut ctx, ImId::Int(1));
    assert_eq!(r, Err(UiError::StaleSession));
    // The fresh handle works.
    let r = new_ui.push_id(&mut ctx, ImId::Int(1));
    assert!(r.is_ok());
    let r = new_ui.pop_id(&mut ctx);
    assert!(r.is_ok());
}

#[test]
fn operations_without_a_frame_are_refused() {
    let mut ctx = ImGui::init();
    let ui = ctx.frame((100, 100), (100, 100), 16_000);
    let raw = DrawData::empty();
    let buf = ui.render(&mut ctx, raw).unwrap();
    assert!(!buf.is_valid());
    // The context is idle again; the consumed session is gone, and a
    // handle forged for the same generation is still refused because no
    // frame is active.
    assert!(!ctx.frame_active);
}

#[test]
fn operations_after_finish_are_refused() {
    let mut ctx = ImGui::init();
    let ui = ctx.frame((100, 100), (100, 100), 16_000);
    let generation = ui.generation;
    let _ = ui.render(&mut ctx, DrawData::empty()).unwrap();
    // Even a handle carrying the right generation is refused once the
    // frame is finished: no frame is active any more.
    let late = imgui::Ui { generation };
    let r = late.push_id(&mut ctx, ImId::Int(1));
    assert_eq!(r, Err(UiError::NoActiveFrame));
}

#[test]
fn render_after_stale_session_is_refused() {
    let mut ctx = ImGui::init();
    let old_ui = ctx.frame((100, 100), (100, 100), 16_000);
    let _new_ui = ctx.frame((100, 100), (100, 100), 16_000);
    let r = old_ui.render(&mut ctx, DrawData::empty());
    assert!(matches!(r, Err(UiError::StaleSession)));
    // The context still has its frame: the stale render touched nothing.
    assert!(ctx.frame_active);
}

#[test]
fn render_passes_valid_data_through() {
    let mut ctx = ImGui::init();
    let ui = ctx.frame((100, 100), (100, 100), 16_000);
    let raw = DrawData {
        valid: true,
        cmd_lists: Vec::new(),
    };
    let buf = ui.render(&mut ctx, raw).unwrap();
    assert!(buf.is_valid());
    assert_eq!(buf.draw_list_count(), 0);
    assert!(!ctx.frame_active);
}

#[test]
fn render_invalid_data_yields_empty_buffer() {
    let mut ctx = ImGui::init();
    let ui = ctx.frame((100, 100), (100, 100), 16_000);
    let raw = DrawData {
        valid: false,
        cmd_lists: vec![imgui::DrawList {
            cmd_buffer: Vec::new(),
            idx_buffer: Vec::new(),
            vtx_buffer: Vec::new(),
        }],
    };
    let buf = ui.render(&mut ctx, raw).unwrap();
    assert!(!buf.is_valid());
    assert_eq!(buf.draw_list_count(), 0);
}

#[test]
fn end_to_end_frame_with_id_scope() {
    // Create a context, begin a frame at logical (800,600) and pixel
    // (800,600), push and pop one identifier, finish: the buffer's flag
    // mirrors whether anything was drawn, and the stacks are empty.
    let mut ctx = ImGui::init();
    let ui = ctx.frame((800, 600), (800, 600), 16_000);
    ui.push_id(&mut ctx, ImId::Str(String::from("widget"))).unwrap();
    ui.pop_id(&mut ctx).unwrap();
    assert_eq!(ctx.id_stack.len(), 0);
    assert_eq!(ctx.id_ops.pushes, 1);
    assert_eq!(ctx.id_ops.pops, 1);
    let buf = ui.render(&mut ctx, DrawData::empty()).unwrap();
    // Nothing was drawn, and the buffer says so.
    assert!(!buf.is_valid());
    assert_eq!(buf.draw_list_count(), 0);
    assert!(!ctx.frame_active);
}

#[test]
fn capture_flags_round_trip() {
    let mut ctx = ImGui::init();
    let ui = ctx.frame((100, 100), (200, 200), 16_000);
    assert!(!ui.want_capture_mouse(&ctx));
    assert!(!ui.want_capture_keyboard(&ctx));
    ctx.set_capture_flags(true, false);
    assert!(ui.want_capture_mouse(&ctx));
    assert!(!ui.want_capture_keyboard(&ctx));
    let state = ctx.input_state();
    assert!(state.want_capture_mouse());
    assert!(!state.want_capture_keyboard());
}
