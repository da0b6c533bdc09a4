//! Draw-buffer totals, consistency checking, and the two transforms.

use imgui::draw::DrawListIterator;
use imgui::{DrawCmd, DrawData, DrawList, DrawVert};

fn vert(tag: i32) -> DrawVert {
    DrawVert {
        pos_x: tag,
        pos_y: tag * 2,
        uv_u: 0,
        uv_v: 0,
        col: 0xffff_ffff,
    }
}

fn cmd(count: u32) -> DrawCmd {
    DrawCmd {
        elem_count: count,
        clip_x1: 0,
        clip_y1: 0,
        clip_x2: 100_000,
        clip_y2: 100_000,
        texture_id: 7,
    }
}

fn two_list_data() -> DrawData {
    DrawData {
        valid: true,
        cmd_lists: vec![
            DrawList {
                cmd_buffer: vec![cmd(3)],
                idx_buffer: vec![0, 1, 2],
                vtx_buffer: vec![vert(1), vert(2), vert(3)],
            },
            DrawList {
                cmd_buffer: vec![cmd(6)],
                idx_buffer: vec![0, 1, 2, 0, 2, 3],
                vtx_buffer: vec![vert(4), vert(5), vert(6), vert(7)],
            },
        ],
    }
}

#[test]
fn totals_are_sums_over_lists() {
    let data = two_list_data();
    assert_eq!(data.total_vtx_count(), 3 + 4);
    assert_eq!(data.total_idx_count(), 3 + 6);
    assert_eq!(data.draw_list_count(), 2);
}

#[test]
fn totals_of_empty_data_are_zero() {
    let data = DrawData::empty();
    assert_eq!(data.total_vtx_count(), 0);
    assert_eq!(data.total_idx_count(), 0);
}

#[test]
fn check_consistent_accepts_good_data() {
    let data = two_list_data();
    assert!(data.check_consistent());
}

#[test]
fn check_consistent_rejects_out_of_range_index() {
    let data = DrawData {
        valid: true,
        cmd_lists: vec![DrawList {
            cmd_buffer: vec![cmd(3)],
            idx_buffer: vec![0, 1, 5],
            vtx_buffer: vec![vert(1), vert(2)],
        }],
    };
    assert!(!data.check_consistent());
}

#[test]
fn deindex_expands_indices_to_flat_stream() {
    let mut data = two_list_data();
    data.deindex_all_buffers();
    // Second list: indices 0 1 2 0 2 3 over vertices 4 5 6 7.
    let l = data.draw_list(1);
    assert_eq!(l.vtx_buffer.len(), 6);
    let tags: Vec<i32> = l.vtx_buffer.iter().map(|v| v.pos_x).collect();
    assert_eq!(tags, vec![4, 5, 6, 4, 6, 7]);
    // The index buffer is now the identity sequence.
    assert_eq!(l.idx_buffer, (0u32..6u32).collect::<Vec<u32>>());
    // Commands survive.
    assert_eq!(l.cmd_buffer.len(), 1);
    assert_eq!(l.cmd_buffer[0].elem_count, 6);
}

#[test]
fn deindex_twice_is_a_no_op() {
    let mut once = two_list_data();
    once.deindex_all_buffers();
    let mut twice = two_list_data();
    twice.deindex_all_buffers();
    twice.deindex_all_buffers();
    for i in 0..once.draw_list_count() {
        let a = once.draw_list(i);
        let b = twice.draw_list(i);
        assert_eq!(a.idx_buffer, b.idx_buffer);
        assert_eq!(a.vtx_buffer.len(), b.vtx_buffer.len());
        for j in 0..a.vtx_buffer.len() {
            assert_eq!(a.vtx_buffer[j], b.vtx_buffer[j]);
        }
    }
}

#[test]
fn scale_clip_rects_scales_exactly() {
    let mut data = DrawData {
        valid: true,
        cmd_lists: vec![DrawList {
            cmd_buffer: vec![DrawCmd {
                elem_count: 3,
                clip_x1: 10,
                clip_y1: -10,
                clip_x2: 999,
                clip_y2: 1001,
                texture_id: 0,
            }],
            idx_buffer: vec![0, 0, 0],
            vtx_buffer: vec![vert(1)],
        }],
    };
    // Scale x by 2.0 and y by 0.5, in thousandths.
    data.scale_clip_rects(2000, 500);
    let c = &data.draw_list(0).cmd_buffer[0];
    assert_eq!(c.clip_x1, 20);
    assert_eq!(c.clip_y1, -5);
    assert_eq!(c.clip_x2, 1998);
    // 1001 * 500 / 1000 truncates toward zero.
    assert_eq!(c.clip_y2, 500);
    assert_eq!(c.elem_count, 3);
}

#[test]
fn scale_clip_rects_clamps_overflowing_values() {
    let mut data = DrawData {
        valid: true,
        cmd_lists: vec![DrawList {
            cmd_buffer: vec![DrawCmd {
                elem_count: 0,
                clip_x1: i32::MAX,
                clip_y1: i32::MIN,
                clip_x2: 0,
                clip_y2: 0,
                texture_id: 0,
            }],
            idx_buffer: Vec::new(),
            vtx_buffer: Vec::new(),
        }],
    };
    data.scale_clip_rects(3000, 3000);
    let c = &data.draw_list(0).cmd_buffer[0];
    assert_eq!(c.clip_x1, i32::MAX);
    assert_eq!(c.clip_y1, i32::MIN);
    assert_eq!(c.clip_x2, 0);
}

#[test]
fn iterator_walks_lists_in_order_once() {
    let data = two_list_data();
    let mut it = DrawListIterator::new();
    let first = it.next(&data).expect("first list");
    assert_eq!(first.vtx_buffer.len(), 3);
    let second = it.next(&data).expect("second list");
    assert_eq!(second.vtx_buffer.len(), 4);
    assert!(it.next(&data).is_none());
    assert!(it.next(&data).is_none());
}
