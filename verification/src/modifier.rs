//! A value-type configuration bag consumed by the composition and leaf
//! primitives: padding, optional background color, optional fixed size.
//! It carries no identity and no lifecycle of its own.

use vstd::prelude::*;
use crate::color::Color;
use crate::geometry::{in_coord, COORD_LIMIT};

verus! {

/// Sizing and styling overrides for a single widget or container call.
#[derive(Clone, Copy, Debug)]
pub struct Modifier {
    pub padding: i64,
    pub background: Option<Color>,
    pub width: Option<i64>,
    pub height: Option<i64>,
}

impl Modifier {
    /// All dimensions inside the coordinate range and non-negative.
    pub open spec fn wf(self) -> bool {
        &&& 0 <= self.padding <= COORD_LIMIT
        &&& (self.width matches Some(w) ==> 0 <= w <= COORD_LIMIT)
        &&& (self.height matches Some(h) ==> 0 <= h <= COORD_LIMIT)
    }

    /// The neutral modifier: no padding, no background, sizes derived
    /// from content or the parent.
    pub fn new() -> (m: Modifier)
        ensures
            m.padding == 0,
            m.background is None,
            m.width is None,
            m.height is None,
            m.wf(),
    {
        Modifier { padding: 0, background: None, width: None, height: None }
    }

    /// Shorthand for [`Modifier::padding`].
    pub fn p(self, v: i64) -> (m: Modifier)
        requires
            0 <= v <= COORD_LIMIT,
        ensures
            m == (Modifier { padding: v, ..self }),
    {
        self.padding(v)
    }

    /// Shorthand for [`Modifier::background`].
    pub fn b(self, c: Color) -> (m: Modifier)
        ensures
            m == (Modifier { background: Some(c), ..self }),
    {
        self.background(c)
    }

    /// Shorthand for [`Modifier::size`].
    pub fn s(self, w: i64, h: i64) -> (m: Modifier)
        requires
            0 <= w <= COORD_LIMIT,
            0 <= h <= COORD_LIMIT,
        ensures
            m == (Modifier { width: Some(w), height: Some(h), ..self }),
    {
        self.size(w, h)
    }

    /// This modifier with the given padding.
    pub fn padding(self, val: i64) -> (m: Modifier)
        requires
            0 <= val <= COORD_LIMIT,
        ensures
            m == (Modifier { padding: val, ..self }),
    {
        Modifier { padding: val, ..self }
    }

    /// This modifier with the given background color.
    pub fn background(self, color: Color) -> (m: Modifier)
        ensures
            m == (Modifier { background: Some(color), ..self }),
    {
        Modifier { background: Some(color), ..self }
    }

    /// This modifier with both dimensions fixed.
    pub fn size(self, w: i64, h: i64) -> (m: Modifier)
        requires
            0 <= w <= COORD_LIMIT,
            0 <= h <= COORD_LIMIT,
        ensures
            m == (Modifier { width: Some(w), height: Some(h), ..self }),
    {
        Modifier { width: Some(w), height: Some(h), ..self }
    }
}

} // verus!
