//! The per-frame UI context.
//!
//! A `Ui` is created fresh for one composition scope and discarded at
//! its end.  It owns the current cursor rectangle, the active clip
//! rectangle, the scroll state passed down by value, the maximum-extent
//! accumulators that auto-size parents read back, the per-subtree widget
//! ordinal counter, the frame's input snapshot and timestamp, and the
//! painting commands recorded so far.  The persistent [`StateStore`] is
//! handed alongside it to every widget call.

use vstd::prelude::*;
use crate::animation::TIME_LIMIT;
use crate::color::Color;
use crate::config::{Theme, SCROLLBAR_WIDTH};
use crate::geometry::{in_coord, Rect, COORD_LIMIT};
use crate::identity::fold_step;
use crate::input::InputState;
use crate::paint::{ops_of, PaintOp, PaintOpModel};
use crate::scroll::ScrollState;
use crate::state::{StateHandle, StateStore, StateValue};

verus! {

broadcast use vstd::std_specs::hash::group_hash_axioms;

/// One composition scope's view of the frame.
#[derive(Debug)]
pub struct Ui {
    pub width: u32,
    pub height: u32,
    pub cursor: Rect,
    pub clip_rect: Option<Rect>,
    pub scroll: ScrollState,
    pub depth: u32,
    pub widget_id_counter: u64,
    pub max_x_seen: i64,
    pub max_y_seen: i64,
    pub now_ms: i64,
    pub input: InputState,
    pub cmds: Vec<PaintOp>,
}

impl Ui {
    /// Geometry in range, scroll clamped, input snapshot well formed,
    /// frame timestamp in the clock range.
    pub open spec fn wf(self) -> bool {
        &&& self.cursor.wf()
        &&& (self.clip_rect matches Some(c) ==> c.wf())
        &&& self.scroll.wf()
        &&& in_coord(self.max_x_seen)
        &&& in_coord(self.max_y_seen)
        &&& self.input.wf()
        &&& 0 <= self.now_ms <= TIME_LIMIT
    }

    /// The root context over a `width` by `height` frame: cursor over
    /// the whole frame, no clip, fresh scroll state, no commands.
    pub fn new(width: u32, height: u32, input: InputState, now_ms: i64) -> (u: Ui)
        requires
            width as int <= COORD_LIMIT,
            height as int <= COORD_LIMIT,
            input.wf(),
            0 <= now_ms <= TIME_LIMIT,
        ensures
            u.width == width && u.height == height,
            u.cursor == (Rect { x: 0, y: 0, w: width as i64, h: height as i64 }),
            u.clip_rect is None,
            u.scroll.offset == 0 && u.scroll.content_height == 0 && u.scroll.viewport_height == 0,
            !u.scroll.is_hovered && !u.scroll.is_dragging,
            u.depth == 0,
            u.widget_id_counter == 0,
            u.max_x_seen == 0 && u.max_y_seen == 0,
            u.now_ms == now_ms,
            u.input == input,
            u.cmds@ == Seq::<PaintOp>::empty(),
            u.wf(),
    {
        Ui {
            width,
            height,
            cursor: Rect { x: 0, y: 0, w: width as i64, h: height as i64 },
            clip_rect: None,
            scroll: ScrollState::new(),
            depth: 0,
            widget_id_counter: 0,
            max_x_seen: 0,
            max_y_seen: 0,
            now_ms,
            input,
            cmds: Vec::new(),
        }
    }

    /// The active theme, read from the store.
    pub fn theme(&self, store: &StateStore) -> (t: Theme)
        ensures
            t == store.theme,
    {
        store.theme
    }

    /// Mints the next widget ordinal in this subtree.
    pub fn next_widget_id(&mut self) -> (r: u64)
        requires
            old(self).widget_id_counter < u64::MAX,
        ensures
            r == old(self).widget_id_counter,
            *final(self) == (Ui { widget_id_counter: (old(self).widget_id_counter + 1) as u64, ..*old(self) }),
    {
        let id = self.widget_id_counter;
        self.widget_id_counter = self.widget_id_counter + 1;
        id
    }

    /// Enters a widget identity scope in the store.
    pub fn push_id(&self, store: &mut StateStore, id: u64)
        ensures
            final(store).widget_stack.stack@ == old(store).widget_stack.stack@.push(id),
            final(store).widget_stack.current == fold_step(old(store).widget_stack.current, id),
            old(store).widget_stack.wf() ==> final(store).widget_stack.wf(),
            final(store).states@ == old(store).states@,
            final(store).theme == old(store).theme,
            final(store).current_index == old(store).current_index,
    {
        store.push_widget(id);
    }

    /// Leaves the most recent widget identity scope in the store.
    pub fn pop_id(&self, store: &mut StateStore)
        ensures
            final(store).widget_stack.stack@ == (if old(store).widget_stack.stack@.len() > 0 {
                old(store).widget_stack.stack@.drop_last()
            } else {
                old(store).widget_stack.stack@
            }),
            final(store).widget_stack.wf(),
            final(store).states@ == old(store).states@,
            final(store).theme == old(store).theme,
            final(store).current_index == old(store).current_index,
    {
        store.pop_widget();
    }

    /// The identity of a leaf at ordinal `local` under the store's
    /// current path.
    pub fn make_id(&self, store: &StateStore, local: u64) -> (r: u64)
        ensures
            r == fold_step(store.widget_stack.current, local),
    {
        store.widget_stack.make_id(local)
    }

    /// A handle bound to the next anonymous slot, counted in call order
    /// within the frame.  The entry is created from `init` only when the
    /// slot has never been seen; an existing entry survives untouched.
    pub fn use_state(&self, store: &mut StateStore, init: StateValue) -> (h: StateHandle)
        requires
            old(store).current_index < u64::MAX,
        ensures
            h.id == old(store).current_index,
            final(store).current_index == old(store).current_index + 1,
            final(store).states@ == (if old(store).states@.contains_key(h.id) {
                old(store).states@
            } else {
                old(store).states@.insert(h.id, init)
            }),
            final(store).states@.contains_key(h.id),
            final(store).widget_stack == old(store).widget_stack,
            final(store).theme == old(store).theme,
    {
        let id = store.current_index;
        store.current_index = store.current_index + 1;
        if !store.states.contains_key(&id) {
            store.states.insert(id, init);
        }
        StateHandle { id }
    }

    /// A handle bound to the identity `widget_id` mints under the
    /// current path — stable whatever the call order.  The entry is
    /// created from `init` only on first encounter.
    pub fn use_state_with_id(&self, store: &mut StateStore, widget_id: u64, init: StateValue) -> (h:
        StateHandle)
        ensures
            h.id == fold_step(old(store).widget_stack.current, widget_id),
            final(store).states@ == (if old(store).states@.contains_key(h.id) {
                old(store).states@
            } else {
                old(store).states@.insert(h.id, init)
            }),
            final(store).states@.contains_key(h.id),
            final(store).widget_stack == old(store).widget_stack,
            final(store).theme == old(store).theme,
            final(store).current_index == old(store).current_index,
    {
        let id = store.widget_stack.make_id(widget_id);
        let exists_already = store.states.contains_key(&id);
        if !exists_already {
            store.states.insert(id, init);
        }
        StateHandle { id }
    }

    /// Content-space hover: the pointer must sit inside the active clip
    /// rectangle (if any) and inside `rect` once the scroll offset is
    /// subtracted from the rectangle's recorded Y.
    pub open spec fn spec_is_hovered(self, rect: Rect) -> bool {
        let mx = self.input.mouse_x as int;
        let my = self.input.mouse_y as int;
        let in_clip = match self.clip_rect {
            Some(c) => c.spec_contains(mx, my),
            None => true,
        };
        let adjusted_y = rect.y - self.scroll.offset;
        &&& in_clip
        &&& rect.x <= mx <= rect.x + rect.w
        &&& adjusted_y <= my <= adjusted_y + rect.h
    }

    /// Whether the pointer hovers `rect`, a rectangle recorded in
    /// content space (unscrolled), honouring the active clip rectangle.
    pub fn is_hovered(&self, rect: Rect) -> (r: bool)
        requires
            self.wf(),
            rect.wf(),
        ensures
            r == self.spec_is_hovered(rect),
    {
        let mx = self.input.mouse_x;
        let my = self.input.mouse_y;
        match &self.clip_rect {
            Some(clip) => {
                if mx < clip.x || mx > clip.x + clip.w || my < clip.y || my > clip.y + clip.h {
                    return false;
                }
            },
            None => {},
        }
        let adjusted_y = rect.y - self.scroll.offset;
        mx >= rect.x && mx <= rect.x + rect.w && my >= adjusted_y && my <= adjusted_y + rect.h
    }

    /// Whether the pointer hovers `rect` in absolute screen coordinates,
    /// with no clip and no scroll adjustment — used for the scrollbar
    /// thumb, which lives outside the scrolled content.
    pub fn is_hovered_absolute(&self, rect: Rect) -> (r: bool)
        requires
            self.wf(),
            rect.roomy(),
        ensures
            r == rect.spec_contains(self.input.mouse_x as int, self.input.mouse_y as int),
    {
        let mx = self.input.mouse_x;
        let my = self.input.mouse_y;
        mx >= rect.x && mx <= rect.x + rect.w && my >= rect.y && my <= rect.y + rect.h
    }

    /// Applies this frame's wheel delta to the scroll state, if the
    /// container is hovered and the wheel moved.
    pub fn handle_scroll(&mut self)
        requires
            old(self).wf(),
        ensures
            final(self).scroll == ScrollState::spec_after_wheel(
                old(self).scroll,
                old(self).input.scroll_delta,
            ),
            *final(self) == (Ui { scroll: final(self).scroll, ..*old(self) }),
            final(self).wf(),
    {
        if self.scroll.is_hovered && self.input.scroll_delta != 0 {
            let delta = self.input.scroll_delta;
            self.scroll.scroll(delta);
        }
    }

    /// The scroll state after one frame of thumb interaction against the
    /// thumb rectangle `thumb`: a press edge over the thumb starts a
    /// drag and captures the pointer Y and current offset; releasing the
    /// button ends the drag wherever the pointer is; while dragging, the
    /// pointer's travel is mapped from the track onto the scrollable
    /// range and the offset re-clamped.
    pub open spec fn spec_scrollbar_state_after(s: ScrollState, inp: InputState, thumb: Rect) -> ScrollState {
        let hov = thumb.spec_contains(inp.mouse_x as int, inp.mouse_y as int);
        let s1 = if hov && inp.mouse_just_clicked {
            ScrollState {
                is_dragging: true,
                drag_start_y: inp.mouse_y,
                drag_start_offset: s.offset,
                ..s
            }
        } else {
            s
        };
        let s2 = if s1.is_dragging && !inp.mouse_clicked {
            ScrollState { is_dragging: false, ..s1 }
        } else {
            s1
        };
        if s2.is_dragging {
            let range = s2.content_height - s2.viewport_height;
            let travel = s2.viewport_height - thumb.h;
            if travel > 0 && range > 0 {
                let delta = inp.mouse_y - s2.drag_start_y;
                let step = if delta >= 0 {
                    delta * range / travel
                } else {
                    -((-delta) * range / travel)
                };
                ScrollState {
                    offset: crate::geometry::spec_clamp(
                        s2.drag_start_offset + step,
                        0,
                        range,
                    ) as i64,
                    ..s2
                }
            } else {
                s2
            }
        } else {
            s2
        }
    }

    /// The thumb rectangle a scrollbar at `(x, y)` starts the frame
    /// with, before any drag movement.
    pub open spec fn spec_scrollbar_thumb0(s: ScrollState, x: i64, y: i64) -> Rect {
        Rect {
            x,
            y: s.spec_thumb_y(y as int) as i64,
            w: SCROLLBAR_WIDTH,
            h: s.spec_thumb_height() as i64,
        }
    }

    /// The scroll state a scrollbar pass leaves behind: unchanged when
    /// the content fits, otherwise the drag state machine applied
    /// against this frame's thumb rectangle.
    pub open spec fn spec_scrollbar_scroll(s: ScrollState, inp: InputState, x: i64, y: i64) -> ScrollState {
        if s.content_height <= s.viewport_height {
            s
        } else {
            Self::spec_scrollbar_state_after(s, inp, Self::spec_scrollbar_thumb0(s, x, y))
        }
    }

    /// The commands a scrollbar pass records: none when the content
    /// fits, otherwise the thumb — at its post-drag position,
    /// highlighted while hovered or dragged — followed by the track.
    pub open spec fn spec_scrollbar_ops(
        s: ScrollState,
        inp: InputState,
        theme: Theme,
        x: i64,
        y: i64,
    ) -> Seq<PaintOpModel> {
        if s.content_height <= s.viewport_height {
            Seq::<PaintOpModel>::empty()
        } else {
            let thumb0 = Self::spec_scrollbar_thumb0(s, x, y);
            let hov = thumb0.spec_contains(inp.mouse_x as int, inp.mouse_y as int);
            let s3 = Self::spec_scrollbar_state_after(s, inp, thumb0);
            let thumb_color = (if hov || s3.is_dragging {
                theme.colors.text_secondary
            } else {
                theme.colors.text_muted
            });
            seq![
                PaintOpModel::FillRoundedRect {
                    x,
                    y: s3.spec_thumb_y(y as int) as i64,
                    w: SCROLLBAR_WIDTH,
                    h: thumb0.h,
                    radius: (SCROLLBAR_WIDTH / 2) as i64,
                    color: (Color { a: 100, ..thumb_color }),
                },
                PaintOpModel::FillRect {
                    x,
                    y,
                    w: SCROLLBAR_WIDTH,
                    h: s.viewport_height,
                    color: (Color { a: 50, ..theme.colors.border }),
                },
            ]
        }
    }

    /// Runs the scrollbar for a track at `(x, y)`: applies the drag
    /// state machine to the thumb, then records the thumb (highlighted
    /// while hovered or dragged) and the track.  When the content fits
    /// in the viewport nothing happens at all.
    pub fn draw_scrollbar(&mut self, store: &StateStore, x: i64, y: i64)
        requires
            old(self).wf(),
            in_coord(x),
            in_coord(y),
        ensures
            final(self).scroll == Self::spec_scrollbar_scroll(old(self).scroll, old(self).input, x, y),
            ops_of(final(self).cmds) == ops_of(old(self).cmds) + Self::spec_scrollbar_ops(
                old(self).scroll,
                old(self).input,
                store.theme,
                x,
                y,
            ),
            *final(self) == (Ui { scroll: final(self).scroll, cmds: final(self).cmds, ..*old(self) }),
            final(self).wf(),
    {
        if !self.scroll.can_scroll() {
            proof {
                assert(ops_of(self.cmds) =~= ops_of(self.cmds) + Seq::<PaintOpModel>::empty());
            }
            return ;
        }
        let thumb_rect = match self.scroll.scrollbar_rect(x, y) {
            Some(t) => t,
            None => {
                proof {
                    assert(false);
                }
                Rect { x: 0, y: 0, w: 0, h: 0 }
            },
        };
        let is_hovered_thumb = self.is_hovered_absolute(thumb_rect);

        // Press edge over the thumb starts a drag.
        if is_hovered_thumb && self.input.mouse_just_clicked {
            self.scroll.is_dragging = true;
            self.scroll.drag_start_y = self.input.mouse_y;
            self.scroll.drag_start_offset = self.scroll.offset;
        }

        // Release edge ends the drag, wherever the pointer is.
        if self.scroll.is_dragging && !self.input.mouse_clicked {
            self.scroll.is_dragging = false;
        }

        // While dragging, map pointer travel onto the scrollable range.
        if self.scroll.is_dragging {
            let range: i64 = self.scroll.content_height - self.scroll.viewport_height;
            let travel: i64 = self.scroll.viewport_height - thumb_rect.h;
            if travel > 0 && range > 0 {
                let delta: i64 = self.input.mouse_y - self.scroll.drag_start_y;
                let step: i64 = if delta >= 0 {
                    assert(0 <= delta * range <= 0x8000_0000 * 0x4000_0000 && delta * range / (
                    travel as int) <= delta * range) by (nonlinear_arith)
                        requires
                            0 <= delta <= 0x8000_0000 && 0 <= range <= 0x4000_0000 && 0 < travel,
                    ;
                    delta * range / travel
                } else {
                    let neg: i64 = -delta;
                    assert(0 <= neg * range <= 0x8000_0000 * 0x4000_0000 && neg * range / (
                    travel as int) <= neg * range) by (nonlinear_arith)
                        requires
                            0 <= neg <= 0x8000_0000 && 0 <= range <= 0x4000_0000 && 0 < travel,
                    ;
                    -(neg * range / travel)
                };
                let raw: i64 = self.scroll.drag_start_offset + step;
                self.scroll.offset = if raw < 0 {
                    0
                } else if raw > range {
                    range
                } else {
                    raw
                };
            }
        }

        // The thumb is drawn at the offset the drag just produced.
        let drawn_thumb = match self.scroll.scrollbar_rect(x, y) {
            Some(t) => t,
            None => {
                proof {
                    assert(false);
                }
                Rect { x: 0, y: 0, w: 0, h: 0 }
            },
        };
        let theme = self.theme(store);
        let thumb_color = if is_hovered_thumb || self.scroll.is_dragging {
            theme.colors.text_secondary
        } else {
            theme.colors.text_muted
        };
        self.cmds.push(PaintOp::FillRoundedRect {
            x: thumb_rect.x,
            y: drawn_thumb.y,
            w: thumb_rect.w,
            h: thumb_rect.h,
            radius: SCROLLBAR_WIDTH / 2,
            color: thumb_color.alpha(100),
        });
        let border_color = theme.colors.border.alpha(50);
        self.cmds.push(PaintOp::FillRect {
            x,
            y,
            w: SCROLLBAR_WIDTH,
            h: self.scroll.viewport_height,
            color: border_color,
        });
        proof {
            assert(ops_of(self.cmds) =~= ops_of(old(self).cmds) + seq![
                self.cmds@[self.cmds@.len() - 2]@,
                self.cmds@[self.cmds@.len() - 1]@,
            ]);
        }
    }
}

} // verus!
