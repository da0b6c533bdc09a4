//! Stack discipline: balance, underflow reporting, and the `with` family.

use imgui::balance::StackOp;
use imgui::{ImGui, ImId, StyleVar, UiError};

#[test]
fn balanced_push_pop_leaves_stack_empty() {
    let mut ctx = ImGui::init();
    let ui = ctx.frame((100, 100), (100, 100), 16_000);
    // A strictly balanced interleaving: push push pop push pop pop.
    ui.push_id(&mut ctx, ImId::Int(1)).unwrap();
    ui.push_id(&mut ctx, ImId::Int(2)).unwrap();
    ui.pop_id(&mut ctx).unwrap();
    ui.push_id(&mut ctx, ImId::Int(3)).unwrap();
    ui.pop_id(&mut ctx).unwrap();
    ui.pop_id(&mut ctx).unwrap();
    assert_eq!(ctx.id_stack.len(), 0);
    assert_eq!(ctx.id_ops.pushes, 3);
    assert_eq!(ctx.id_ops.pops, 3);
}

#[test]
fn pop_on_empty_stack_reports_underflow() {
    let mut ctx = ImGui::init();
    let ui = ctx.frame((100, 100), (100, 100), 16_000);
    assert_eq!(ui.pop_id(&mut ctx), Err(UiError::StackUnderflow));
    assert_eq!(ui.pop_item_width(&mut ctx), Err(UiError::StackUnderflow));
    // The refused pops were not performed.
    assert_eq!(ctx.id_ops.pops, 0);
    assert_eq!(ctx.width_ops.pops, 0);
}

#[test]
fn replayed_balanced_ops_never_underflow() {
    let mut ctx = ImGui::init();
    let ui = ctx.frame((100, 100), (100, 100), 16_000);
    let ops = vec![
        StackOp::Push(1500),
        StackOp::Push(2500),
        StackOp::Pop,
        StackOp::Push(3500),
        StackOp::Pop,
        StackOp::Pop,
    ];
    let r = ui.run_width_ops(&mut ctx, &ops);
    assert!(r.is_ok());
    assert_eq!(ctx.width_stack.len(), 0);
    assert_eq!(ctx.width_ops.pushes, 3);
    assert_eq!(ctx.width_ops.pops, 3);
}

#[test]
fn replayed_unbalanced_ops_report_underflow() {
    let mut ctx = ImGui::init();
    let ui = ctx.frame((100, 100), (100, 100), 16_000);
    let ops = vec![StackOp::Push(1000), StackOp::Pop, StackOp::Pop];
    let r = ui.run_width_ops(&mut ctx, &ops);
    assert_eq!(r, Err(UiError::StackUnderflow));
}

#[test]
fn with_id_pops_after_normal_body() {
    let mut ctx = ImGui::init();
    let ui = ctx.frame((100, 100), (100, 100), 16_000);
    let r = ui.with_id(&mut ctx, ImId::Int(42), || Ok::<(), u32>(()));
    assert_eq!(r, Ok(Ok(())));
    assert_eq!(ctx.id_stack.len(), 0);
    assert_eq!(ctx.id_ops.pushes, 1);
    assert_eq!(ctx.id_ops.pops, 1);
}

#[test]
fn with_item_width_restores_stack() {
    let mut ctx = ImGui::init();
    let ui = ctx.frame((100, 100), (100, 100), 16_000);
    ui.push_item_width(&mut ctx, 120_000).unwrap();
    let r = ui.with_item_width(&mut ctx, 80_000, || Ok::<(), u32>(()));
    assert_eq!(r, Ok(Ok(())));
    assert_eq!(ctx.width_stack.len(), 1);
    assert_eq!(ctx.width_stack[0], 120_000);
    ui.pop_item_width(&mut ctx).unwrap();
    assert_eq!(ctx.width_stack.len(), 0);
}

#[test]
fn with_style_var_balances_on_error_too() {
    let mut ctx = ImGui::init();
    let ui = ctx.frame((100, 100), (100, 100), 16_000);
    let r = ui.with_style_var(&mut ctx, StyleVar::Alpha(200), || Err::<(), u32>(9));
    assert_eq!(r, Ok(Err(9)));
    assert_eq!(ctx.style_stack.len(), 0);
    assert_eq!(ctx.style_ops.pushes, 1);
    assert_eq!(ctx.style_ops.pops, 1);
}

#[test]
fn with_style_vars_error_body_still_pops_all() {
    // Push three style entries as one batch, fail inside the body, and
    // observe that exactly three pops happened before the error came
    // back out.
    let mut ctx = ImGui::init();
    let ui = ctx.frame((100, 100), (100, 100), 16_000);
    let vars = vec![
        StyleVar::Alpha(500),
        StyleVar::WindowPadding(2000, 2000),
        StyleVar::FrameRounding(3000),
    ];
    let r = ui.with_style_vars(&mut ctx, &vars, || Err::<(), u32>(7));
    assert_eq!(r, Ok(Err(7)));
    assert_eq!(ctx.style_stack.len(), 0);
    assert_eq!(ctx.style_ops.pushes, 3);
    assert_eq!(ctx.style_ops.pops, 3);
}

#[test]
fn with_color_vars_balances() {
    let mut ctx = ImGui::init();
    let ui = ctx.frame((100, 100), (100, 100), 16_000);
    let vars = vec![(0u32, 0xff00_00ffu32), (1u32, 0x00ff_00ffu32)];
    let r = ui.with_color_vars(&mut ctx, &vars, || Ok::<(), u32>(()));
    assert_eq!(r, Ok(Ok(())));
    assert_eq!(ctx.color_stack.len(), 0);
    assert_eq!(ctx.color_ops.pushes, 2);
    assert_eq!(ctx.color_ops.pops, 2);
}

#[test]
fn with_style_and_color_vars_balances_both() {
    let mut ctx = ImGui::init();
    let ui = ctx.frame((100, 100), (100, 100), 16_000);
    let styles = vec![StyleVar::Alpha(750), StyleVar::GrabMinSize(10_000)];
    let colors = vec![(4u32, 0x1122_3344u32)];
    let r = ui.with_style_and_color_vars(&mut ctx, &styles, &colors, || Ok::<(), u32>(()));
    assert_eq!(r, Ok(Ok(())));
    assert_eq!(ctx.style_stack.len(), 0);
    assert_eq!(ctx.color_stack.len(), 0);
    assert_eq!(ctx.style_ops.pushes, 2);
    assert_eq!(ctx.style_ops.pops, 2);
    assert_eq!(ctx.color_ops.pushes, 1);
    assert_eq!(ctx.color_ops.pops, 1);
}

#[test]
fn with_family_refuses_stale_session() {
    let mut ctx = ImGui::init();
    let old_ui = ctx.frame((100, 100), (100, 100), 16_000);
    let _new_ui = ctx.frame((100, 100), (100, 100), 16_000);
    let mut body_ran = false;
    let r = old_ui.with_id(&mut ctx, ImId::Int(0), || {
        body_ran = true;
        Ok::<(), u32>(())
    });
    assert_eq!(r, Err(UiError::StaleSession));
    assert!(!body_ran);
    assert_eq!(ctx.id_ops.pushes, 0);
}

#[test]
fn stacks_reset_when_a_new_frame_begins() {
    let mut ctx = ImGui::init();
    let ui = ctx.frame((100, 100), (100, 100), 16_000);
    ui.push_id(&mut ctx, ImId::Ptr(0xdead_usize)).unwrap();
    ui.push_item_width(&mut ctx, 50_000).unwrap();
    // Abandon the frame; the next one starts from clean stacks.
    let _ui2 = ctx.frame((100, 100), (100, 100), 16_000);
    assert_eq!(ctx.id_stack.len(), 0);
    assert_eq!(ctx.width_stack.len(), 0);
    assert_eq!(ctx.id_ops.pushes, 0);
    assert_eq!(ctx.width_ops.pushes, 0);
}
