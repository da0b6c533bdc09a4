//! Style-variable and color entries for the engine's style stacks.
//!
//! The engine addresses each style variable by a small index and takes a
//! scalar or a two-component value. Lengths and factors are carried here in
//! thousandths, as plain integers, and converted at the engine boundary.

use vstd::prelude::*;

verus! {

/// A temporary override of one style variable, as the caller writes it.
/// Scalar quantities (factors, sizes, rounding radii) and two-component
/// quantities (paddings, spacings, alignments) are all in thousandths.
#[derive(Clone, Copy, Debug, PartialEq, Eq, Structural)]
pub enum StyleVar {
    Alpha(i32),
    WindowPadding(i32, i32),
    WindowRounding(i32),
    WindowBorderSize(i32),
    WindowMinSize(i32, i32),
    ChildRounding(i32),
    ChildBorderSize(i32),
    PopupRounding(i32),
    PopupBorderSize(i32),
    FramePadding(i32, i32),
    FrameRounding(i32),
    FrameBorderSize(i32),
    ItemSpacing(i32, i32),
    ItemInnerSpacing(i32, i32),
    IndentSpacing(i32),
    GrabMinSize(i32),
    ButtonTextAlign(i32, i32),
}

/// What actually sits on the style stack: the engine's index for the
/// variable and the raw value, second component zero for scalars.
#[derive(Clone, Copy, Debug, PartialEq, Eq, Structural)]
pub struct StyleEntry {
    pub index: u32,
    pub x_milli: i32,
    pub y_milli: i32,
}

/// One entry of the color stack: the engine's index for the color target
/// and a packed 8-bit-per-channel value.
#[derive(Clone, Copy, Debug, PartialEq, Eq, Structural)]
pub struct ColorEntry {
    pub target: u32,
    pub rgba: u32,
}

/// The stack entries a batch of style overrides turns into, in push
/// order.
pub open spec fn style_entries_of(vars: Seq<StyleVar>) -> Seq<StyleEntry> {
    vars.map_values(|v: StyleVar| v.entry_spec())
}

/// The stack entries a batch of (target, packed color) pairs turns into,
/// in push order.
pub open spec fn color_entries_of(vars: Seq<(u32, u32)>) -> Seq<ColorEntry> {
    vars.map_values(|p: (u32, u32)| ColorEntry { target: p.0, rgba: p.1 })
}

impl StyleVar {
    /// The stack entry this override turns into, with the engine's index
    /// for each variable.
    pub open spec fn entry_spec(self) -> StyleEntry {
        match self {
            StyleVar::Alpha(v) => StyleEntry { index: 0, x_milli: v, y_milli: 0 },
            StyleVar::WindowPadding(x, y) => StyleEntry { index: 1, x_milli: x, y_milli: y },
            StyleVar::WindowRounding(v) => StyleEntry { index: 2, x_milli: v, y_milli: 0 },
            StyleVar::WindowBorderSize(v) => StyleEntry { index: 3, x_milli: v, y_milli: 0 },
            StyleVar::WindowMinSize(x, y) => StyleEntry { index: 4, x_milli: x, y_milli: y },
            StyleVar::ChildRounding(v) => StyleEntry { index: 5, x_milli: v, y_milli: 0 },
            StyleVar::ChildBorderSize(v) => StyleEntry { index: 6, x_milli: v, y_milli: 0 },
            StyleVar::PopupRounding(v) => StyleEntry { index: 7, x_milli: v, y_milli: 0 },
            StyleVar::PopupBorderSize(v) => StyleEntry { index: 8, x_milli: v, y_milli: 0 },
            StyleVar::FramePadding(x, y) => StyleEntry { index: 9, x_milli: x, y_milli: y },
            StyleVar::FrameRounding(v) => StyleEntry { index: 10, x_milli: v, y_milli: 0 },
            StyleVar::FrameBorderSize(v) => StyleEntry { index: 11, x_milli: v, y_milli: 0 },
            StyleVar::ItemSpacing(x, y) => StyleEntry { index: 12, x_milli: x, y_milli: y },
            StyleVar::ItemInnerSpacing(x, y) => StyleEntry { index: 13, x_milli: x, y_milli: y },
            StyleVar::IndentSpacing(v) => StyleEntry { index: 14, x_milli: v, y_milli: 0 },
            StyleVar::GrabMinSize(v) => StyleEntry { index: 15, x_milli: v, y_milli: 0 },
            StyleVar::ButtonTextAlign(x, y) => StyleEntry { index: 16, x_milli: x, y_milli: y },
        }
    }

    /// Converts the override to its stack entry.
    pub fn to_entry(self) -> (e: StyleEntry)
        ensures
            e == self.entry_spec(),
    {
        match self {
            StyleVar::Alpha(v) => StyleEntry { index: 0, x_milli: v, y_milli: 0 },
            StyleVar::WindowPadding(x, y) => StyleEntry { index: 1, x_milli: x, y_milli: y },
            StyleVar::WindowRounding(v) => StyleEntry { index: 2, x_milli: v, y_milli: 0 },
            StyleVar::WindowBorderSize(v) => StyleEntry { index: 3, x_milli: v, y_milli: 0 },
            StyleVar::WindowMinSize(x, y) => StyleEntry { index: 4, x_milli: x, y_milli: y },
            StyleVar::ChildRounding(v) => StyleEntry { index: 5, x_milli: v, y_milli: 0 },
            StyleVar::ChildBorderSize(v) => StyleEntry { index: 6, x_milli: v, y_milli: 0 },
            StyleVar::PopupRounding(v) => StyleEntry { index: 7, x_milli: v, y_milli: 0 },
            StyleVar::PopupBorderSize(v) => StyleEntry { index: 8, x_milli: v, y_milli: 0 },
            StyleVar::FramePadding(x, y) => StyleEntry { index: 9, x_milli: x, y_milli: y },
            StyleVar::FrameRounding(v) => StyleEntry { index: 10, x_milli: v, y_milli: 0 },
            StyleVar::FrameBorderSize(v) => StyleEntry { index: 11, x_milli: v, y_milli: 0 },
            StyleVar::ItemSpacing(x, y) => StyleEntry { index: 12, x_milli: x, y_milli: y },
            StyleVar::ItemInnerSpacing(x, y) => StyleEntry { index: 13, x_milli: x, y_milli: y },
            StyleVar::IndentSpacing(v) => StyleEntry { index: 14, x_milli: v, y_milli: 0 },
            StyleVar::GrabMinSize(v) => StyleEntry { index: 15, x_milli: v, y_milli: 0 },
            StyleVar::ButtonTextAlign(x, y) => StyleEntry { index: 16, x_milli: x, y_milli: y },
        }
    }
}

} // verus!
