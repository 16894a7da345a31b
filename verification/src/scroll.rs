//! Scroll state for one scroll container.
//!
//! The offset is clamped into `[0, max(content - viewport, 0)]` after
//! every mutation; when the content fits in the viewport no scrolling is
//! possible and no scrollbar is produced.

use vstd::prelude::*;
use crate::config::{SCROLLBAR_MIN_HEIGHT, SCROLLBAR_WIDTH};
use crate::geometry::{in_coord, Rect, COORD_LIMIT};

verus! {

/// Offset, measured extents, and hover/drag flags of a scroll container.
#[derive(Clone, Copy, Debug)]
pub struct ScrollState {
    pub offset: i64,
    pub content_height: i64,
    pub viewport_height: i64,
    pub is_hovered: bool,
    pub is_dragging: bool,
    pub drag_start_y: i64,
    pub drag_start_offset: i64,
}

impl ScrollState {
    /// Extents are non-negative and in range, and the offset is clamped
    /// to the scrollable range.
    pub open spec fn wf(self) -> bool {
        &&& 0 <= self.content_height <= COORD_LIMIT
        &&& 0 <= self.viewport_height <= COORD_LIMIT
        &&& 0 <= self.offset <= self.spec_max_scroll()
        &&& in_coord(self.drag_start_y)
        &&& 0 <= self.drag_start_offset <= COORD_LIMIT
    }

    /// How far the content can be scrolled: zero when it fits.
    pub open spec fn spec_max_scroll(self) -> int {
        if self.content_height - self.viewport_height > 0 {
            self.content_height - self.viewport_height
        } else {
            0
        }
    }

    /// A scroll state with no extents, no offset and no interaction.
    pub fn new() -> (s: ScrollState)
        ensures
            s.offset == 0,
            s.content_height == 0,
            s.viewport_height == 0,
            !s.is_hovered,
            !s.is_dragging,
            s.drag_start_y == 0,
            s.drag_start_offset == 0,
            s.wf(),
    {
        ScrollState {
            offset: 0,
            content_height: 0,
            viewport_height: 0,
            is_hovered: false,
            is_dragging: false,
            drag_start_y: 0,
            drag_start_offset: 0,
        }
    }

    /// Scrolls by a wheel delta: a positive delta moves the content down
    /// (decreases the offset).  The offset lands clamped inside
    /// `[0, max(content_height - viewport_height, 0)]`.
    pub fn scroll(&mut self, delta: i64)
        requires
            old(self).wf(),
            in_coord(delta),
        ensures
            final(self).offset == crate::geometry::spec_clamp(
                old(self).offset - delta,
                0,
                old(self).spec_max_scroll(),
            ),
            *final(self) == (ScrollState { offset: final(self).offset, ..*old(self) }),
            final(self).wf(),
    {
        let max_scroll = self.max_scroll();
        let moved: i64 = self.offset - delta;
        self.offset = if moved < 0 {
            0
        } else if moved > max_scroll {
            max_scroll
        } else {
            moved
        };
    }

    /// Scrolls to an absolute position, clamped into the scrollable
    /// range.
    pub fn scroll_to(&mut self, y: i64)
        requires
            old(self).wf(),
            in_coord(y),
        ensures
            final(self).offset == crate::geometry::spec_clamp(
                y as int,
                0,
                old(self).spec_max_scroll(),
            ),
            *final(self) == (ScrollState { offset: final(self).offset, ..*old(self) }),
            final(self).wf(),
    {
        let max_scroll = self.max_scroll();
        self.offset = if y < 0 {
            0
        } else if y > max_scroll {
            max_scroll
        } else {
            y
        };
    }

    /// `s` with its extents replaced and its offset re-clamped against
    /// the new scrollable range.
    pub open spec fn spec_with_extents(s: ScrollState, content: i64, viewport: i64) -> ScrollState {
        ScrollState {
            content_height: content,
            viewport_height: viewport,
            offset: crate::geometry::spec_clamp(
                s.offset as int,
                0,
                crate::geometry::spec_max(content - viewport, 0),
            ) as i64,
            ..s
        }
    }

    /// `s` after a wheel movement of `delta` while hovered: the offset
    /// moves against the delta and lands clamped; an unhovered container
    /// or a still wheel changes nothing.
    pub open spec fn spec_after_wheel(s: ScrollState, delta: i64) -> ScrollState {
        if s.is_hovered && delta != 0 {
            ScrollState {
                offset: crate::geometry::spec_clamp(
                    s.offset - delta,
                    0,
                    s.spec_max_scroll(),
                ) as i64,
                ..s
            }
        } else {
            s
        }
    }

    /// Replaces the measured extents, re-clamping the offset into the
    /// new scrollable range, as every mutation must.
    pub fn set_extents(&mut self, content: i64, viewport: i64)
        requires
            old(self).wf(),
            0 <= content <= COORD_LIMIT,
            0 <= viewport <= COORD_LIMIT,
        ensures
            *final(self) == Self::spec_with_extents(*old(self), content, viewport),
            final(self).wf(),
    {
        let max_scroll: i64 = if content - viewport > 0 {
            content - viewport
        } else {
            0
        };
        self.content_height = content;
        self.viewport_height = viewport;
        if self.offset > max_scroll {
            self.offset = max_scroll;
        }
    }

    /// The clamp bound used by every offset mutation.
    pub fn max_scroll(&self) -> (r: i64)
        requires
            self.wf(),
        ensures
            r == self.spec_max_scroll(),
    {
        if self.content_height - self.viewport_height > 0 {
            self.content_height - self.viewport_height
        } else {
            0
        }
    }

    /// Whether the content overflows the viewport at all.
    pub fn can_scroll(&self) -> (r: bool)
        requires
            self.wf(),
        ensures
            r == (self.content_height > self.viewport_height),
    {
        self.content_height > self.viewport_height
    }

    /// The thumb height: proportional to the visible fraction of the
    /// content but never below the minimum grab size.
    pub open spec fn spec_thumb_height(self) -> int {
        let proportional = self.viewport_height * self.viewport_height / (self.content_height as int);
        if proportional > SCROLLBAR_MIN_HEIGHT {
            proportional
        } else {
            SCROLLBAR_MIN_HEIGHT as int
        }
    }

    /// How far the thumb can travel inside the track; zero when the thumb
    /// fills (or overflows) the viewport.
    pub open spec fn spec_thumb_travel(self) -> int {
        if self.viewport_height - self.spec_thumb_height() > 0 {
            self.viewport_height - self.spec_thumb_height()
        } else {
            0
        }
    }

    /// The thumb position: the offset's position inside the scrollable
    /// range, mapped onto the travel range.
    pub open spec fn spec_thumb_y(self, y: int) -> int {
        y + self.offset * self.spec_thumb_travel() / (self.content_height - self.viewport_height as int)
    }

    /// The scrollbar thumb rectangle for a track whose top-left corner is
    /// `(x, y)`, or `None` when the content fits in the viewport.
    pub fn scrollbar_rect(&self, x: i64, y: i64) -> (r: Option<Rect>)
        requires
            self.wf(),
            in_coord(x),
            in_coord(y),
        ensures
            r is Some <==> self.content_height > self.viewport_height,
            r matches Some(t) ==> {
                &&& t.x == x
                &&& t.y == self.spec_thumb_y(y as int)
                &&& t.w == SCROLLBAR_WIDTH
                &&& t.h == self.spec_thumb_height()
                &&& t.roomy()
            },
    {
        if !self.can_scroll() {
            return None;
        }
        let v: i64 = self.viewport_height;
        let c: i64 = self.content_height;
        assert(0 <= v * v <= 0x4000_0000 * 0x4000_0000 && v * v / (c as int) <= v) by (nonlinear_arith)
            requires
                0 <= v <= 0x4000_0000 && v < c,
        ;
        let proportional: i64 = v * v / c;
        let thumb_height: i64 = if proportional > SCROLLBAR_MIN_HEIGHT {
            proportional
        } else {
            SCROLLBAR_MIN_HEIGHT
        };
        let travel: i64 = if v - thumb_height > 0 {
            v - thumb_height
        } else {
            0
        };
        let span: i64 = c - v;
        assert(0 <= self.offset * travel <= 0x4000_0000 * 0x4000_0000 && self.offset * travel
            / (span as int) <= travel) by (nonlinear_arith)
            requires
                0 <= self.offset <= span && 0 <= travel <= 0x4000_0000 && 0 < span <= 0x4000_0000,
        ;
        let thumb_y: i64 = y + self.offset * travel / span;
        Some(Rect { x, y: thumb_y, w: SCROLLBAR_WIDTH, h: thumb_height })
    }
}

impl Default for ScrollState {
    /// Same as [`ScrollState::new`].
    fn default() -> (s: Self)
        ensures
            s.offset == 0 && s.content_height == 0 && s.viewport_height == 0,
            !s.is_hovered && !s.is_dragging,
            s.drag_start_y == 0 && s.drag_start_offset == 0,
            s.wf(),
    {
        ScrollState::new()
    }
}

} // verus!
