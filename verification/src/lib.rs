//! Safety layer for an immediate-mode GUI engine.
//!
//! The engine itself is a stateful, order-dependent foreign library; this
//! crate models and enforces the protocol around it: one owned context,
//! at most one live frame session, balanced push/pop stacks, and a
//! consistent view of the frame's draw output.

use vstd::prelude::*;

pub mod balance;
pub mod context;
pub mod draw;
pub mod session;
pub mod string;
pub mod style;

pub use context::ImGui;
pub use context::UiInputState;
pub use draw::DrawCmd;
pub use draw::DrawData;
pub use draw::DrawList;
pub use draw::DrawListIterator;
pub use draw::DrawVert;
pub use session::Ui;
pub use string::ImString;
pub use style::StyleVar;

verus! {

/// Outcome of a protocol check. Misuse of the frame protocol is reported
/// as a value so that a harness can observe it deterministically, rather
/// than aborting the process as the engine itself would.
#[derive(Clone, Copy, Debug, PartialEq, Eq, Structural)]
pub enum UiError {
    /// No frame is currently active on the context.
    NoActiveFrame,
    /// The session handle belongs to an earlier frame.
    StaleSession,
    /// A pop was attempted on an empty stack.
    StackUnderflow,
}

/// One of the pointer device's buttons.
#[derive(Clone, Copy, Debug, PartialEq, Eq, Structural)]
pub enum ImMouseButton {
    Left,
    Right,
    Middle,
    Extra1,
    Extra2,
}

impl ImMouseButton {
    /// The engine's index for this button.
    pub open spec fn index_spec(self) -> int {
        match self {
            ImMouseButton::Left => 0,
            ImMouseButton::Right => 1,
            ImMouseButton::Middle => 2,
            ImMouseButton::Extra1 => 3,
            ImMouseButton::Extra2 => 4,
        }
    }

    pub fn index(self) -> (i: usize)
        ensures
            i == self.index_spec(),
            i < crate::context::MOUSE_BUTTON_COUNT,
    {
        match self {
            ImMouseButton::Left => 0,
            ImMouseButton::Right => 1,
            ImMouseButton::Middle => 2,
            ImMouseButton::Extra1 => 3,
            ImMouseButton::Extra2 => 4,
        }
    }
}

/// A tag pushed onto the identifier stack to disambiguate otherwise
/// identical sibling widgets: an integer, a text label, or an opaque
/// address.
#[derive(Debug)]
pub enum ImId {
    Int(i32),
    Str(String),
    Ptr(usize),
}

} // verus!
