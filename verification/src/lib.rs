//! A retained-state immediate-mode UI core.
//!
//! The application re-describes its interface every frame as a tree of
//! composition calls (columns, rows, cards, scroll containers) and leaf
//! widgets.  State that must survive between frames (text buffers, hover
//! animations, focus flags) lives in a [`state::StateStore`] keyed by a
//! stable widget identity derived from the call structure.  Layout is
//! resolved bottom-up in the same pass that records painting commands.
//!
//! All coordinates are integer pixels and all animation scalars are
//! fixed-point milli-units; the rasterizer and windowing layer live outside
//! this crate and consume the recorded [`paint::PaintOp`] list.

pub mod animation;
pub mod color;
pub mod config;
pub mod geometry;
pub mod identity;
pub mod input;
pub mod modifier;
pub mod paint;
pub mod raster;
pub mod scroll;
pub mod state;
pub mod ui;
pub mod widgets;

use vstd::prelude::*;
use crate::geometry::COORD_LIMIT;

pub use crate::color::Color;
pub use crate::modifier::Modifier;
pub use crate::animation::{AnimatedValue, AnimationState};
pub use crate::config::{get_system_font, Platform, Theme, ThemeColors, ThemeRadius, ThemeSpacing};
pub use crate::geometry::{LayoutNode, LayoutType, Rect};
pub use crate::identity::WidgetIdStack;
pub use crate::input::InputState;
pub use crate::paint::PaintOp;
pub use crate::raster::{clear, draw_icon_chart, draw_icon_plus, draw_rect};
pub use crate::scroll::ScrollState;
pub use crate::state::{StateHandle, StateStore, StateValue};
pub use crate::ui::Ui;
pub use crate::widgets::{
    button,
    card,
    column,
    divider,
    hspacer,
    row,
    scroll_view,
    sidebar_item,
    spacer,
    stat_card,
    text,
    text_heading,
    text_input,
    text_muted,
};

verus! {

/// A fresh modifier with the given padding.
pub fn pad(v: i64) -> (m: Modifier)
    requires
        0 <= v <= COORD_LIMIT,
    ensures
        m.padding == v,
        m.background is None,
        m.width is None,
        m.height is None,
{
    Modifier::new().p(v)
}

/// A fresh modifier with the given background color.
pub fn bg(c: Color) -> (m: Modifier)
    ensures
        m.padding == 0,
        m.background == Some(c),
        m.width is None,
        m.height is None,
{
    Modifier::new().b(c)
}

/// A fresh modifier with both dimensions fixed.
pub fn sz(w: i64, h: i64) -> (m: Modifier)
    requires
        0 <= w <= COORD_LIMIT,
        0 <= h <= COORD_LIMIT,
    ensures
        m.padding == 0,
        m.background is None,
        m.width == Some(w),
        m.height == Some(h),
{
    Modifier::new().s(w, h)
}

} // verus!
