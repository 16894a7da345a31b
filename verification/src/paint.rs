//! The painting commands a frame produces.
//!
//! Widgets do not touch pixels themselves: they append commands to the
//! frame's list, in back-to-front order, and the host's rasterizer
//! replays the list.  The commands are exactly the drawing interface the
//! engine expects from its rasterizer: plain and rounded rectangle
//! fills, a drop shadow, a text run, and the two built-in icons.

use vstd::prelude::*;
use crate::color::Color;

verus! {

/// One drawing command, in the same pixel space as the layout engine.
#[derive(Clone, Debug)]
pub enum PaintOp {
    /// Fill an axis-aligned rectangle.
    FillRect { x: i64, y: i64, w: i64, h: i64, color: Color },
    /// Fill a rounded rectangle with the given corner radius.
    FillRoundedRect { x: i64, y: i64, w: i64, h: i64, radius: i64, color: Color },
    /// A soft drop shadow under a box of the given radius and blur.
    Shadow { x: i64, y: i64, w: i64, h: i64, radius: i64, blur: i64 },
    /// A text run at a position, with a font size in pixels.
    TextRun { x: i64, y: i64, size: i64, text: String, color: Color },
    /// The built-in plus icon, drawn inside a `size`-pixel box.
    IconPlus { x: i64, y: i64, size: i64, color: Color },
    /// The built-in bar-chart icon, drawn inside a `size`-pixel box.
    IconChart { x: i64, y: i64, size: i64, color: Color },
}

/// The mathematical shape of a command: as [`PaintOp`], with text read
/// as a character sequence.
pub enum PaintOpModel {
    FillRect { x: i64, y: i64, w: i64, h: i64, color: Color },
    FillRoundedRect { x: i64, y: i64, w: i64, h: i64, radius: i64, color: Color },
    Shadow { x: i64, y: i64, w: i64, h: i64, radius: i64, blur: i64 },
    TextRun { x: i64, y: i64, size: i64, text: Seq<char>, color: Color },
    IconPlus { x: i64, y: i64, size: i64, color: Color },
    IconChart { x: i64, y: i64, size: i64, color: Color },
}

impl View for PaintOp {
    type V = PaintOpModel;

    open spec fn view(&self) -> PaintOpModel {
        match self {
            PaintOp::FillRect { x, y, w, h, color } => PaintOpModel::FillRect {
                x: *x,
                y: *y,
                w: *w,
                h: *h,
                color: *color,
            },
            PaintOp::FillRoundedRect { x, y, w, h, radius, color } => PaintOpModel::FillRoundedRect {
                x: *x,
                y: *y,
                w: *w,
                h: *h,
                radius: *radius,
                color: *color,
            },
            PaintOp::Shadow { x, y, w, h, radius, blur } => PaintOpModel::Shadow {
                x: *x,
                y: *y,
                w: *w,
                h: *h,
                radius: *radius,
                blur: *blur,
            },
            PaintOp::TextRun { x, y, size, text, color } => PaintOpModel::TextRun {
                x: *x,
                y: *y,
                size: *size,
                text: text@,
                color: *color,
            },
            PaintOp::IconPlus { x, y, size, color } => PaintOpModel::IconPlus {
                x: *x,
                y: *y,
                size: *size,
                color: *color,
            },
            PaintOp::IconChart { x, y, size, color } => PaintOpModel::IconChart {
                x: *x,
                y: *y,
                size: *size,
                color: *color,
            },
        }
    }
}

/// The commands of `v`, in order, in mathematical shape.
pub open spec fn ops_of(v: Vec<PaintOp>) -> Seq<PaintOpModel> {
    v@.map_values(|o: PaintOp| o@)
}

} // verus!
