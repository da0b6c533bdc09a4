//! The owned UI context: engine-global configuration, the per-tick input
//! snapshot, the frame-scoped stacks, and the factory for frame sessions.
//!
//! The engine keeps all of this in non-synchronized globals; the model here
//! owns it in one value, so exclusive access is the borrow checker's
//! problem instead of the caller's. Quantities the engine holds as
//! fractional values (scales, times, distances) are carried as plain
//! integers in thousandths (`_milli`) or microseconds (`_micros`) and
//! converted only at the engine boundary.

use vstd::prelude::*;

verus! {

use crate::ImId;
use crate::session::Ui;
use crate::string::ImString;
use crate::style::{ColorEntry, StyleEntry};

/// Number of pointer buttons the engine tracks.
pub const MOUSE_BUTTON_COUNT: usize = 5;

/// Size of the engine's raw key-state table.
pub const KEYS_DOWN_LEN: usize = 512;

/// Number of named keys the engine lets the host remap.
pub const KEY_COUNT: usize = 19;

/// How many push calls and pop calls one stack has seen this frame.
#[derive(Clone, Copy, Debug, PartialEq, Eq, Structural)]
pub struct PushPop {
    pub pushes: u64,
    pub pops: u64,
}

/// The per-tick input snapshot and the engine-global configuration fields,
/// written by the host before a frame begins and read back afterwards.
pub struct IoState {
    pub display_size_w: u32,
    pub display_size_h: u32,
    pub fb_scale_x_milli: u64,
    pub fb_scale_y_milli: u64,
    pub delta_time_micros: u32,
    pub mouse_pos_x: i32,
    pub mouse_pos_y: i32,
    pub mouse_pos_prev_x: i32,
    pub mouse_pos_prev_y: i32,
    pub mouse_delta_x: i64,
    pub mouse_delta_y: i64,
    pub mouse_down: [bool; 5],
    pub mouse_wheel_milli: i32,
    pub mouse_draw_cursor: bool,
    pub key_ctrl: bool,
    pub key_shift: bool,
    pub key_alt: bool,
    pub key_super: bool,
    pub keys_down: [bool; 512],
    pub key_map: [i32; 19],
    pub input_chars: Vec<char>,
    pub want_capture_mouse: bool,
    pub want_capture_keyboard: bool,
    pub ini_saving_rate_milli: u32,
    pub font_global_scale_milli: u32,
    pub mouse_double_click_time_milli: u32,
    pub mouse_double_click_max_dist_milli: u32,
    pub mouse_drag_threshold_milli: u32,
    pub key_repeat_delay_milli: u32,
    pub key_repeat_rate_milli: u32,
}

/// Device scale in thousandths: pixel extent over logical extent, and zero
/// when the logical extent is zero, so a zero-sized display never divides
/// by zero.
pub open spec fn scale_milli_spec(pixels: u32, points: u32) -> u64 {
    if points > 0 {
        ((pixels as int) * 1000 / (points as int)) as u64
    } else {
        0u64
    }
}

/// A zero logical extent yields a zero scale on that axis, for every
/// pixel extent: the computation never divides by the zero extent.
pub proof fn lemma_zero_size_zero_scale(pixels: u32)
    ensures
        scale_milli_spec(pixels, 0) == 0,
{
}

/// The input snapshot as the engine's new-frame step leaves it: sizes,
/// scales and timing written, the pointer delta computed against the
/// previous tick's position, everything else untouched.
pub open spec fn io_after_frame(
    io: IoState,
    size_points: (u32, u32),
    size_pixels: (u32, u32),
    delta_time_micros: u32,
) -> IoState {
    IoState {
        display_size_w: size_points.0,
        display_size_h: size_points.1,
        fb_scale_x_milli: scale_milli_spec(size_pixels.0, size_points.0),
        fb_scale_y_milli: scale_milli_spec(size_pixels.1, size_points.1),
        delta_time_micros: delta_time_micros,
        mouse_delta_x: (io.mouse_pos_x - io.mouse_pos_prev_x) as i64,
        mouse_delta_y: (io.mouse_pos_y - io.mouse_pos_prev_y) as i64,
        mouse_pos_prev_x: io.mouse_pos_x,
        mouse_pos_prev_y: io.mouse_pos_y,
        ..io
    }
}

/// Owns the single engine instance's state for the process: configuration
/// strings (kept alive here for as long as the engine may point at them),
/// the input snapshot, the frame-scoped stacks, and the generation counter
/// that gates frame sessions.
pub struct ImGui {
    pub generation: u64,
    pub frame_active: bool,
    pub id_stack: Vec<ImId>,
    pub style_stack: Vec<StyleEntry>,
    pub color_stack: Vec<ColorEntry>,
    pub width_stack: Vec<i32>,
    pub id_ops: PushPop,
    pub style_ops: PushPop,
    pub color_ops: PushPop,
    pub width_ops: PushPop,
    pub io: IoState,
    pub ini_filename: Option<ImString>,
    pub log_filename: Option<ImString>,
}

impl ImGui {
    /// Each stack's depth equals its pushes minus its pops for the current
    /// frame, and owned configuration strings are valid terminated buffers.
    pub open spec fn wf(&self) -> bool {
        &&& self.id_ops.pops <= self.id_ops.pushes
        &&& self.id_stack@.len() == self.id_ops.pushes - self.id_ops.pops
        &&& self.style_ops.pops <= self.style_ops.pushes
        &&& self.style_stack@.len() == self.style_ops.pushes - self.style_ops.pops
        &&& self.color_ops.pops <= self.color_ops.pushes
        &&& self.color_stack@.len() == self.color_ops.pushes - self.color_ops.pops
        &&& self.width_ops.pops <= self.width_ops.pushes
        &&& self.width_stack@.len() == self.width_ops.pushes - self.width_ops.pops
        &&& (self.ini_filename matches Some(s) ==> s.wf())
        &&& (self.log_filename matches Some(s) ==> s.wf())
    }

    /// A session is current exactly when a frame is active and the
    /// session's generation matches the context's.
    pub open spec fn is_current(&self, sess: Ui) -> bool {
        self.frame_active && sess.generation == self.generation
    }

    /// Fresh context, no frame begun yet. The pointer position starts at
    /// (-1, -1), the engine's marker for "not yet known".
    pub fn init() -> (ctx: ImGui)
        ensures
            ctx.wf(),
            ctx.generation == 0,
            !ctx.frame_active,
            ctx.id_stack@.len() == 0,
            ctx.style_stack@.len() == 0,
            ctx.color_stack@.len() == 0,
            ctx.width_stack@.len() == 0,
            ctx.ini_filename is None,
            ctx.log_filename is None,
            ctx.io.mouse_pos_x == -1 && ctx.io.mouse_pos_y == -1,
            ctx.io.input_chars@.len() == 0,
            !ctx.io.want_capture_mouse && !ctx.io.want_capture_keyboard,
            ctx.io.display_size_w == 0 && ctx.io.display_size_h == 0,
            ctx.io.fb_scale_x_milli == 0 && ctx.io.fb_scale_y_milli == 0,
            ctx.io.delta_time_micros == 0,
            ctx.io.mouse_delta_x == 0 && ctx.io.mouse_delta_y == 0,
            ctx.io.mouse_wheel_milli == 0,
            !ctx.io.mouse_draw_cursor,
            !ctx.io.key_ctrl && !ctx.io.key_shift && !ctx.io.key_alt && !ctx.io.key_super,
            forall|i: int| 0 <= i < 5 ==> !ctx.io.mouse_down@[i],
            forall|i: int| 0 <= i < 512 ==> !ctx.io.keys_down@[i],
            ctx.io.ini_saving_rate_milli == 5000,
            ctx.io.font_global_scale_milli == 1000,
            ctx.io.mouse_double_click_time_milli == 300,
            ctx.io.mouse_double_click_max_dist_milli == 6000,
            ctx.io.mouse_drag_threshold_milli == 6000,
            ctx.io.key_repeat_delay_milli == 250,
            ctx.io.key_repeat_rate_milli == 50,
    {
        ImGui {
            generation: 0,
            frame_active: false,
            id_stack: Vec::new(),
            style_stack: Vec::new(),
            color_stack: Vec::new(),
            width_stack: Vec::new(),
            id_ops: PushPop { pushes: 0, pops: 0 },
            style_ops: PushPop { pushes: 0, pops: 0 },
            color_ops: PushPop { pushes: 0, pops: 0 },
            width_ops: PushPop { pushes: 0, pops: 0 },
            io: IoState {
                display_size_w: 0,
                display_size_h: 0,
                fb_scale_x_milli: 0,
                fb_scale_y_milli: 0,
                delta_time_micros: 0,
                mouse_pos_x: -1,
                mouse_pos_y: -1,
                mouse_pos_prev_x: -1,
                mouse_pos_prev_y: -1,
                mouse_delta_x: 0,
                mouse_delta_y: 0,
                mouse_down: [false; 5],
                mouse_wheel_milli: 0,
                mouse_draw_cursor: false,
                key_ctrl: false,
                key_shift: false,
                key_alt: false,
                key_super: false,
                keys_down: [false; 512],
                key_map: [0; 19],
                input_chars: Vec::new(),
                want_capture_mouse: false,
                want_capture_keyboard: false,
                ini_saving_rate_milli: 5000,
                font_global_scale_milli: 1000,
                mouse_double_click_time_milli: 300,
                mouse_double_click_max_dist_milli: 6000,
                mouse_drag_threshold_milli: 6000,
                key_repeat_delay_milli: 250,
                key_repeat_rate_milli: 50,
            },
            ini_filename: None,
            log_filename: None,
        }
    }

    /// Begins a new frame: writes sizes, scale and timing into the input
    /// state, lets the engine reset its per-frame stacks, and hands out a
    /// fresh session token. Any session from an earlier frame is thereby
    /// invalidated, since the generation moves past it.
    pub fn frame(
        &mut self,
        size_points: (u32, u32),
        size_pixels: (u32, u32),
        delta_time_micros: u32,
    ) -> (sess: Ui)
        requires
            old(self).wf(),
            old(self).generation < u64::MAX,
        ensures
            final(self).wf(),
            final(self).generation == old(self).generation + 1,
            final(self).frame_active,
            sess.generation == final(self).generation,
            final(self).is_current(sess),
            final(self).id_stack@.len() == 0,
            final(self).style_stack@.len() == 0,
            final(self).color_stack@.len() == 0,
            final(self).width_stack@.len() == 0,
            final(self).id_ops == (PushPop { pushes: 0, pops: 0 }),
            final(self).style_ops == (PushPop { pushes: 0, pops: 0 }),
            final(self).color_ops == (PushPop { pushes: 0, pops: 0 }),
            final(self).width_ops == (PushPop { pushes: 0, pops: 0 }),
            final(self).io == io_after_frame(old(self).io, size_points, size_pixels, delta_time_micros),
            final(self).ini_filename == old(self).ini_filename,
            final(self).log_filename == old(self).log_filename,
    {
        self.io.display_size_w = size_points.0;
        self.io.display_size_h = size_points.1;
        self.io.fb_scale_x_milli = if size_points.0 > 0 {
            (size_pixels.0 as u64) * 1000 / (size_points.0 as u64)
        } else {
            0
        };
        self.io.fb_scale_y_milli = if size_points.1 > 0 {
            (size_pixels.1 as u64) * 1000 / (size_points.1 as u64)
        } else {
            0
        };
        self.io.delta_time_micros = delta_time_micros;
        self.io.mouse_delta_x = (self.io.mouse_pos_x as i64) - (self.io.mouse_pos_prev_x as i64);
        self.io.mouse_delta_y = (self.io.mouse_pos_y as i64) - (self.io.mouse_pos_prev_y as i64);
        self.io.mouse_pos_prev_x = self.io.mouse_pos_x;
        self.io.mouse_pos_prev_y = self.io.mouse_pos_y;
        self.id_stack = Vec::new();
        self.style_stack = Vec::new();
        self.color_stack = Vec::new();
        self.width_stack = Vec::new();
        self.id_ops = PushPop { pushes: 0, pops: 0 };
        self.style_ops = PushPop { pushes: 0, pops: 0 };
        self.color_ops = PushPop { pushes: 0, pops: 0 };
        self.width_ops = PushPop { pushes: 0, pops: 0 };
        self.generation = self.generation + 1;
        self.frame_active = true;
        Ui { generation: self.generation }
    }

    /// Re-homes the persisted-settings path: the owned buffer is replaced
    /// first, so the engine's pointer is only ever re-aimed at memory this
    /// context keeps alive.
    pub fn set_ini_filename(&mut self, value: Option<ImString>)
        requires
            old(self).wf(),
            value matches Some(s) ==> s.wf(),
        ensures
            final(self).wf(),
            *final(self) == (ImGui { ini_filename: value, ..*old(self) }),
    {
        self.ini_filename = value;
    }

    /// Re-homes the diagnostic-log path, same discipline as the settings
    /// path.
    pub fn set_log_filename(&mut self, value: Option<ImString>)
        requires
            old(self).wf(),
            value matches Some(s) ==> s.wf(),
        ensures
            final(self).wf(),
            *final(self) == (ImGui { log_filename: value, ..*old(self) }),
    {
        self.log_filename = value;
    }

    /// Seconds between automatic settings writes, in thousandths.
    pub fn set_ini_saving_rate(&mut self, value_milli: u32)
        ensures
            *final(self) == (ImGui {
                io: IoState { ini_saving_rate_milli: value_milli, ..old(self).io },
                ..*old(self)
            }),
    {
        self.io.ini_saving_rate_milli = value_milli;
    }

    /// Global font scale factor, in thousandths.
    pub fn set_font_global_scale(&mut self, value_milli: u32)
        ensures
            *final(self) == (ImGui {
                io: IoState { font_global_scale_milli: value_milli, ..old(self).io },
                ..*old(self)
            }),
    {
        self.io.font_global_scale_milli = value_milli;
    }

    /// Double-click time window, in thousandths of a second.
    pub fn set_mouse_double_click_time(&mut self, value_milli: u32)
        ensures
            *final(self) == (ImGui {
                io: IoState { mouse_double_click_time_milli: value_milli, ..old(self).io },
                ..*old(self)
            }),
    {
        self.io.mouse_double_click_time_milli = value_milli;
    }

    /// Largest pointer travel still counted as a double click, in
    /// thousandths of a unit.
    pub fn set_mouse_double_click_max_dist(&mut self, value_milli: u32)
        ensures
            *final(self) == (ImGui {
                io: IoState { mouse_double_click_max_dist_milli: value_milli, ..old(self).io },
                ..*old(self)
            }),
    {
        self.io.mouse_double_click_max_dist_milli = value_milli;
    }

    /// Pointer travel before a drag begins, in thousandths of a unit.
    pub fn set_mouse_drag_threshold(&mut self, value_milli: u32)
        ensures
            *final(self) == (ImGui {
                io: IoState { mouse_drag_threshold_milli: value_milli, ..old(self).io },
                ..*old(self)
            }),
    {
        self.io.mouse_drag_threshold_milli = value_milli;
    }

    /// Delay before a held key repeats, in thousandths of a second.
    pub fn set_key_repeat_delay(&mut self, value_milli: u32)
        ensures
            *final(self) == (ImGui {
                io: IoState { key_repeat_delay_milli: value_milli, ..old(self).io },
                ..*old(self)
            }),
    {
        self.io.key_repeat_delay_milli = value_milli;
    }

    /// Interval between key repeats, in thousandths of a second.
    pub fn set_key_repeat_rate(&mut self, value_milli: u32)
        ensures
            *final(self) == (ImGui {
                io: IoState { key_repeat_rate_milli: value_milli, ..old(self).io },
                ..*old(self)
            }),
    {
        self.io.key_repeat_rate_milli = value_milli;
    }

    /// Logical display size as last written by `frame`.
    pub fn display_size(&self) -> (r: (u32, u32))
        ensures
            r == (self.io.display_size_w, self.io.display_size_h),
    {
        (self.io.display_size_w, self.io.display_size_h)
    }

    /// Device scale as last computed by `frame`, in thousandths.
    pub fn display_framebuffer_scale(&self) -> (r: (u64, u64))
        ensures
            r == (self.io.fb_scale_x_milli, self.io.fb_scale_y_milli),
    {
        (self.io.fb_scale_x_milli, self.io.fb_scale_y_milli)
    }

    /// Pointer position most recently fed in by the host.
    pub fn mouse_pos(&self) -> (r: (i32, i32))
        ensures
            r == (self.io.mouse_pos_x, self.io.mouse_pos_y),
    {
        (self.io.mouse_pos_x, self.io.mouse_pos_y)
    }

    /// Feeds the pointer position for the coming frame.
    pub fn set_mouse_pos(&mut self, x: i32, y: i32)
        ensures
            *final(self) == (ImGui {
                io: IoState { mouse_pos_x: x, mouse_pos_y: y, ..old(self).io },
                ..*old(self)
            }),
    {
        self.io.mouse_pos_x = x;
        self.io.mouse_pos_y = y;
    }

    /// Pointer travel between the previous frame and the current one, as
    /// computed by `frame`.
    pub fn mouse_delta(&self) -> (r: (i64, i64))
        ensures
            r == (self.io.mouse_delta_x, self.io.mouse_delta_y),
    {
        (self.io.mouse_delta_x, self.io.mouse_delta_y)
    }

    /// Feeds the full button state for the coming frame.
    pub fn set_mouse_down(&mut self, states: &[bool; 5])
        ensures
            *final(self) == (ImGui {
                io: IoState { mouse_down: *states, ..old(self).io },
                ..*old(self)
            }),
    {
        self.io.mouse_down = *states;
    }

    /// Feeds the wheel movement for the coming frame, in thousandths.
    pub fn set_mouse_wheel(&mut self, value_milli: i32)
        ensures
            *final(self) == (ImGui {
                io: IoState { mouse_wheel_milli: value_milli, ..old(self).io },
                ..*old(self)
            }),
    {
        self.io.mouse_wheel_milli = value_milli;
    }

    /// Wheel movement as last fed in, in thousandths.
    pub fn mouse_wheel(&self) -> (r: i32)
        ensures
            r == self.io.mouse_wheel_milli,
    {
        self.io.mouse_wheel_milli
    }

    /// Chooses whether the engine draws the pointer itself.
    pub fn set_mouse_draw_cursor(&mut self, value: bool)
        ensures
            *final(self) == (ImGui {
                io: IoState { mouse_draw_cursor: value, ..old(self).io },
                ..*old(self)
            }),
    {
        self.io.mouse_draw_cursor = value;
    }

    pub fn mouse_draw_cursor(&self) -> (r: bool)
        ensures
            r == self.io.mouse_draw_cursor,
    {
        self.io.mouse_draw_cursor
    }

    /// Whether the given button is currently held, per the snapshot.
    pub fn is_mouse_down(&self, button: crate::ImMouseButton) -> (r: bool)
        ensures
            r == self.io.mouse_down@[button.index_spec()],
    {
        let i: usize = button.index();
        self.io.mouse_down[i]
    }

    pub fn key_ctrl(&self) -> (r: bool)
        ensures
            r == self.io.key_ctrl,
    {
        self.io.key_ctrl
    }

    pub fn set_key_ctrl(&mut self, value: bool)
        ensures
            *final(self) == (ImGui {
                io: IoState { key_ctrl: value, ..old(self).io },
                ..*old(self)
            }),
    {
        self.io.key_ctrl = value;
    }

    pub fn key_shift(&self) -> (r: bool)
        ensures
            r == self.io.key_shift,
    {
        self.io.key_shift
    }

    pub fn set_key_shift(&mut self, value: bool)
        ensures
            *final(self) == (ImGui {
                io: IoState { key_shift: value, ..old(self).io },
                ..*old(self)
            }),
    {
        self.io.key_shift = value;
    }

    pub fn key_alt(&self) -> (r: bool)
        ensures
            r == self.io.key_alt,
    {
        self.io.key_alt
    }

    pub fn set_key_alt(&mut self, value: bool)
        ensures
            *final(self) == (ImGui {
                io: IoState { key_alt: value, ..old(self).io },
                ..*old(self)
            }),
    {
        self.io.key_alt = value;
    }

    pub fn set_key_super(&mut self, value: bool)
        ensures
            *final(self) == (ImGui {
                io: IoState { key_super: value, ..old(self).io },
                ..*old(self)
            }),
    {
        self.io.key_super = value;
    }

    /// Records one key's raw down-state. The key index is a byte, so it
    /// always falls inside the engine's 512-entry table.
    pub fn set_key(&mut self, key: u8, pressed: bool)
        ensures
            final(self).io.keys_down@ == old(self).io.keys_down@.update(key as int, pressed),
            *final(self) == (ImGui {
                io: IoState { keys_down: final(self).io.keys_down, ..old(self).io },
                ..*old(self)
            }),
    {
        self.io.keys_down[key as usize] = pressed;
    }

    /// Maps one of the engine's named keys to the host's key index.
    pub fn set_imgui_key(&mut self, key: u8, mapping: u8)
        requires
            key < KEY_COUNT as u8,
        ensures
            final(self).io.key_map@ == old(self).io.key_map@.update(key as int, mapping as i32),
            *final(self) == (ImGui {
                io: IoState { key_map: final(self).io.key_map, ..old(self).io },
                ..*old(self)
            }),
    {
        self.io.key_map[key as usize] = mapping as i32;
    }

    /// Whether the host key with this index is held, per the snapshot.
    pub fn is_key_down(&self, user_key_index: usize) -> (r: bool)
        requires
            user_key_index < KEYS_DOWN_LEN,
        ensures
            r == self.io.keys_down@[user_key_index as int],
    {
        self.io.keys_down[user_key_index]
    }

    /// Queues one character of text input for the coming frame.
    pub fn add_input_character(&mut self, character: char)
        ensures
            final(self).io.input_chars@ == old(self).io.input_chars@.push(character),
            *final(self) == (ImGui {
                io: IoState { input_chars: final(self).io.input_chars, ..old(self).io },
                ..*old(self)
            }),
    {
        self.io.input_chars.push(character);
    }

    /// Takes in the capture verdict the engine reached during its
    /// new-frame step: whether the UI claims the pointer and the keyboard.
    pub fn set_capture_flags(&mut self, mouse: bool, keyboard: bool)
        ensures
            *final(self) == (ImGui {
                io: IoState {
                    want_capture_mouse: mouse,
                    want_capture_keyboard: keyboard,
                    ..old(self).io
                },
                ..*old(self)
            }),
    {
        self.io.want_capture_mouse = mouse;
        self.io.want_capture_keyboard = keyboard;
    }

    /// Read-only view of the engine's capture verdict, for the host to
    /// decide whether to also dispatch the same input to its own logic.
    pub fn input_state(&self) -> (s: UiInputState)
        ensures
            s.want_capture_mouse == self.io.want_capture_mouse,
            s.want_capture_keyboard == self.io.want_capture_keyboard,
    {
        UiInputState {
            want_capture_mouse: self.io.want_capture_mouse,
            want_capture_keyboard: self.io.want_capture_keyboard,
        }
    }
}

/// The engine's post-new-frame verdict on who should consume this tick's
/// input.
#[derive(Clone, Copy, Debug, PartialEq, Eq, Structural)]
pub struct UiInputState {
    pub want_capture_mouse: bool,
    pub want_capture_keyboard: bool,
}

impl UiInputState {
    pub fn want_capture_mouse(&self) -> (r: bool)
        ensures
            r == self.want_capture_mouse,
    {
        self.want_capture_mouse
    }

    pub fn want_capture_keyboard(&self) -> (r: bool)
        ensures
            r == self.want_capture_keyboard,
    {
        self.want_capture_keyboard
    }
}

} // verus!
