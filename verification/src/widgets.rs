//! The composition primitives and leaf widgets.
//!
//! Every composition primitive follows one template: mint and push a
//! widget identity scope, build a child context with a narrowed cursor,
//! run the caller's content closure over it by value ("lend and
//! reclaim"), read the child's extents back to resolve this container's
//! own box bottom-up, record any background, advance the parent cursor,
//! and pop the identity scope.  Auto-sized backgrounds are recorded
//! after the content — their size is only known then — while
//! explicitly-sized containers may paint before their content.

use vstd::prelude::*;
use crate::geometry::{
    in_coord,
    spec_clamp_coord,
    spec_clamp_extent,
    spec_max,
    clamp_coord,
    clamp_extent,
    Rect,
    COORD_LIMIT,
};
use crate::identity::fold_step;
use crate::modifier::Modifier;
use crate::paint::{ops_of, PaintOp, PaintOpModel};
use crate::state::{StateStore, StateValue};
use crate::ui::Ui;

verus! {

/// The store a content closure receives: the parent's store with the
/// container's ordinal pushed as an identity scope.
pub open spec fn spec_child_store(s0: StateStore, wid: u64, s1: StateStore) -> bool {
    &&& s1.states@ == s0.states@
    &&& s1.theme == s0.theme
    &&& s1.current_index == s0.current_index
    &&& s1.widget_stack.stack@ == s0.widget_stack.stack@.push(wid)
    &&& s1.widget_stack.current == fold_step(s0.widget_stack.current, wid)
}

/// The store a composition call hands back: the closure's store with
/// the container's identity scope popped again.
pub open spec fn spec_store_popped(s1: StateStore, s2: StateStore) -> bool {
    &&& s2.states@ == s1.states@
    &&& s2.theme == s1.theme
    &&& s2.current_index == s1.current_index
    &&& s2.widget_stack.stack@ == (if s1.widget_stack.stack@.len() > 0 {
        s1.widget_stack.stack@.drop_last()
    } else {
        s1.widget_stack.stack@
    })
    &&& s2.widget_stack.wf()
}

/// The width a column offers its children: the explicit width if given,
/// else the parent's available width less the padding on both sides,
/// floored at zero.
pub open spec fn spec_column_width(p: Ui, m: Modifier) -> i64 {
    match m.width {
        Some(w) => w,
        None => spec_clamp_extent(p.cursor.w - 2 * m.padding),
    }
}

/// The child context a column builds: cursor indented by the padding,
/// fresh extent accumulators, one more ordinal minted, same frame.
pub open spec fn spec_column_child(p: Ui, m: Modifier, c: Ui) -> bool {
    let cx = spec_clamp_coord(p.cursor.x + m.padding);
    let cy = spec_clamp_coord(p.cursor.y + m.padding);
    &&& c.width == p.width && c.height == p.height
    &&& c.cursor == (Rect { x: cx, y: cy, w: spec_column_width(p, m), h: 0 })
    &&& c.clip_rect == p.clip_rect
    &&& c.scroll == p.scroll
    &&& c.depth == p.depth + 1
    &&& c.widget_id_counter == (p.widget_id_counter + 1) as u64
    &&& c.max_x_seen == cx && c.max_y_seen == cy
    &&& c.now_ms == p.now_ms
    &&& c.input == p.input
    &&& c.cmds@ == p.cmds@
}

/// How a column resolves once its content ran: an explicit height wins;
/// otherwise the height is the content extent the child reports plus the
/// trailing padding, floored at zero.  The parent cursor advances by the
/// resolved height, the extent accumulators take the column's box in,
/// and an optional background is recorded after the content.
pub open spec fn spec_column_resolve(p: Ui, m: Modifier, c: Ui, p2: Ui, r: Rect) -> bool {
    let x0 = p.cursor.x;
    let y0 = p.cursor.y;
    let cw = spec_column_width(p, m);
    let total_w = cw + 2 * m.padding;
    let ch = (match m.height {
        Some(h) => h,
        None => 0,
    });
    let cmy = spec_clamp_coord(c.max_y_seen as int) as int;
    let final_h = (if ch > 0 {
        ch as int
    } else {
        spec_clamp_extent(cmy - (y0 + m.padding) + m.padding) as int
    });
    &&& r == (Rect { x: x0, y: y0, w: total_w as i64, h: final_h as i64 })
    &&& p2.cursor == (Rect { x: x0, y: spec_clamp_coord(y0 + final_h), ..p.cursor })
    &&& p2.max_y_seen == spec_max(p.max_y_seen as int, p2.cursor.y as int)
    &&& p2.max_x_seen == spec_max(p.max_x_seen as int, spec_clamp_coord(x0 + total_w) as int)
    &&& p2.widget_id_counter == c.widget_id_counter
    &&& ops_of(p2.cmds) == ops_of(c.cmds) + (match m.background {
        Some(b) => seq![
            PaintOpModel::FillRoundedRect {
                x: x0,
                y: y0,
                w: total_w as i64,
                h: final_h as i64,
                radius: 0,
                color: b,
            },
        ],
        None => Seq::<PaintOpModel>::empty(),
    })
    &&& p2.width == p.width && p2.height == p.height
    &&& p2.clip_rect == p.clip_rect
    &&& p2.scroll == p.scroll
    &&& p2.depth == p.depth
    &&& p2.now_ms == p.now_ms
    &&& p2.input == p.input
}

/// A vertical container: children stack along Y inside the padding; the
/// width is explicit or inherited; the height is explicit or measured
/// from the content.  The background, if any, is painted after the
/// content, since an auto-sized box is only known then.
pub fn column<F: FnOnce(Ui, StateStore) -> (Ui, StateStore)>(
    ui: &mut Ui,
    store: &mut StateStore,
    m: Modifier,
    content: F,
) -> (r: Rect)
    requires
        old(ui).wf(),
        m.wf(),
        old(ui).widget_id_counter < u64::MAX,
        old(ui).depth < u32::MAX,
        forall|c: Ui, s: StateStore|
            spec_column_child(*old(ui), m, c) && spec_child_store(
                *old(store),
                old(ui).widget_id_counter,
                s,
            ) ==> call_requires(content, (c, s)),
    ensures
        final(ui).wf(),
        exists|c_in: Ui, s_in: StateStore, c_out: Ui, s_out: StateStore|
            {
                &&& spec_column_child(*old(ui), m, c_in)
                &&& spec_child_store(*old(store), old(ui).widget_id_counter, s_in)
                &&& #[trigger] call_ensures(content, (c_in, s_in), (c_out, s_out))
                &&& spec_store_popped(s_out, *final(store))
                &&& spec_column_resolve(*old(ui), m, c_out, *final(ui), r)
            },
{
    let widget_id = ui.next_widget_id();
    ui.push_id(store, widget_id);

    let padding = m.padding;
    let container_w: i64 = match m.width {
        Some(w) => w,
        None => clamp_extent(ui.cursor.w - 2 * padding),
    };
    let initial_x = ui.cursor.x;
    let initial_y = ui.cursor.y;

    let mut sub_cmds: Vec<PaintOp> = Vec::new();
    std::mem::swap(&mut ui.cmds, &mut sub_cmds);
    let sub = Ui {
        width: ui.width,
        height: ui.height,
        cursor: Rect {
            x: clamp_coord(initial_x + padding),
            y: clamp_coord(initial_y + padding),
            w: container_w,
            h: 0,
        },
        clip_rect: ui.clip_rect,
        scroll: ui.scroll,
        depth: ui.depth + 1,
        widget_id_counter: ui.widget_id_counter,
        max_x_seen: clamp_coord(initial_x + padding),
        max_y_seen: clamp_coord(initial_y + padding),
        now_ms: ui.now_ms,
        input: ui.input,
        cmds: sub_cmds,
    };
    let mut handed_store = StateStore::new();
    std::mem::swap(store, &mut handed_store);
    let ghost c_in = sub;
    let ghost s_in = handed_store;

    let (c_out, s_out) = content(sub, handed_store);

    let ghost g_c_out = c_out;
    let ghost g_s_out = s_out;
    let mut c_out = c_out;
    *store = s_out;

    ui.widget_id_counter = c_out.widget_id_counter;
    let cmy: i64 = clamp_coord(c_out.max_y_seen);
    let actual_content_height: i64 = cmy - (initial_y + padding);
    let container_h: i64 = match m.height {
        Some(h) => h,
        None => 0,
    };
    let final_h: i64 = if container_h > 0 {
        container_h
    } else {
        clamp_extent(actual_content_height + padding)
    };
    let total_w: i64 = container_w + 2 * padding;

    let mut out_cmds: Vec<PaintOp> = Vec::new();
    std::mem::swap(&mut c_out.cmds, &mut out_cmds);
    if let Some(bgc) = m.background {
        out_cmds.push(PaintOp::FillRoundedRect {
            x: initial_x,
            y: initial_y,
            w: total_w,
            h: final_h,
            radius: 0,
            color: bgc,
        });
    }
    ui.cmds = out_cmds;

    ui.cursor.y = clamp_coord(initial_y + final_h);
    ui.cursor.x = initial_x;
    if ui.cursor.y > ui.max_y_seen {
        ui.max_y_seen = ui.cursor.y;
    }
    let reach_x: i64 = clamp_coord(initial_x + total_w);
    if reach_x > ui.max_x_seen {
        ui.max_x_seen = reach_x;
    }

    ui.pop_id(store);
    let r = Rect { x: initial_x, y: initial_y, w: total_w, h: final_h };
    proof {
        assert(spec_column_child(*old(ui), m, c_in));
        assert(spec_child_store(*old(store), old(ui).widget_id_counter, s_in));
        assert(call_ensures(content, (c_in, s_in), (g_c_out, g_s_out)));
        assert(spec_store_popped(g_s_out, *store));
        assert(ops_of(ui.cmds) =~= ops_of(g_c_out.cmds) + (match m.background {
            Some(b) => seq![
                PaintOpModel::FillRoundedRect {
                    x: initial_x,
                    y: initial_y,
                    w: total_w as i64,
                    h: final_h as i64,
                    radius: 0,
                    color: b,
                },
            ],
            None => Seq::<PaintOpModel>::empty(),
        }));
        assert(spec_column_resolve(*old(ui), m, g_c_out, *ui, r));
    }
    r
}

/// The child context a row builds: cursor indented by the padding with
/// the explicit height passed down, fresh extent accumulators, one more
/// ordinal minted, same frame.
pub open spec fn spec_row_child(p: Ui, m: Modifier, c: Ui) -> bool {
    let cx = spec_clamp_coord(p.cursor.x + m.padding);
    let cy = spec_clamp_coord(p.cursor.y + m.padding);
    let ch = (match m.height {
        Some(h) => h,
        None => 0,
    });
    &&& c.width == p.width && c.height == p.height
    &&& c.cursor == (Rect { x: cx, y: cy, w: 0, h: ch })
    &&& c.clip_rect == p.clip_rect
    &&& c.scroll == p.scroll
    &&& c.depth == p.depth + 1
    &&& c.widget_id_counter == (p.widget_id_counter + 1) as u64
    &&& c.max_x_seen == cx && c.max_y_seen == cy
    &&& c.now_ms == p.now_ms
    &&& c.input == p.input
    &&& c.cmds@ == p.cmds@
}

/// How a row resolves: explicit dimensions win; otherwise the width and
/// height are the content extents the child reports plus the trailing
/// padding, floored at zero.  The row consumes vertical space in its
/// parent, and an optional background is recorded after the content.
pub open spec fn spec_row_resolve(p: Ui, m: Modifier, c: Ui, p2: Ui, r: Rect) -> bool {
    let x0 = p.cursor.x;
    let y0 = p.cursor.y;
    let acw = spec_clamp_coord(c.max_x_seen as int) - (x0 + m.padding);
    let ach = spec_clamp_coord(c.max_y_seen as int) - (y0 + m.padding);
    let final_w = (match m.width {
        Some(w) => w as int,
        None => spec_clamp_extent(acw + m.padding) as int,
    });
    let ch = (match m.height {
        Some(h) => h,
        None => 0,
    });
    let final_h = (if ch > 0 {
        ch as int
    } else {
        spec_clamp_extent(ach + m.padding) as int
    });
    &&& r == (Rect { x: x0, y: y0, w: final_w as i64, h: final_h as i64 })
    &&& p2.cursor == (Rect { x: x0, y: spec_clamp_coord(y0 + final_h), ..p.cursor })
    &&& p2.max_y_seen == spec_max(p.max_y_seen as int, p2.cursor.y as int)
    &&& p2.max_x_seen == spec_max(p.max_x_seen as int, spec_clamp_coord(x0 + final_w) as int)
    &&& p2.widget_id_counter == c.widget_id_counter
    &&& ops_of(p2.cmds) == ops_of(c.cmds) + (match m.background {
        Some(b) => seq![
            PaintOpModel::FillRoundedRect {
                x: x0,
                y: y0,
                w: final_w as i64,
                h: final_h as i64,
                radius: crate::config::CARD_BORDER_RADIUS,
                color: b,
            },
        ],
        None => Seq::<PaintOpModel>::empty(),
    })
    &&& p2.width == p.width && p2.height == p.height
    &&& p2.clip_rect == p.clip_rect
    &&& p2.scroll == p.scroll
    &&& p2.depth == p.depth
    &&& p2.now_ms == p.now_ms
    &&& p2.input == p.input
}

/// A horizontal container: children stack along X inside the padding;
/// the height is the explicit one or the maximum the children reach.
/// The background, if any, is painted after the content.
pub fn row<F: FnOnce(Ui, StateStore) -> (Ui, StateStore)>(
    ui: &mut Ui,
    store: &mut StateStore,
    m: Modifier,
    content: F,
) -> (r: Rect)
    requires
        old(ui).wf(),
        m.wf(),
        old(ui).widget_id_counter < u64::MAX,
        old(ui).depth < u32::MAX,
        forall|c: Ui, s: StateStore|
            spec_row_child(*old(ui), m, c) && spec_child_store(
                *old(store),
                old(ui).widget_id_counter,
                s,
            ) ==> call_requires(content, (c, s)),
    ensures
        final(ui).wf(),
        exists|c_in: Ui, s_in: StateStore, c_out: Ui, s_out: StateStore|
            {
                &&& spec_row_child(*old(ui), m, c_in)
                &&& spec_child_store(*old(store), old(ui).widget_id_counter, s_in)
                &&& #[trigger] call_ensures(content, (c_in, s_in), (c_out, s_out))
                &&& spec_store_popped(s_out, *final(store))
                &&& spec_row_resolve(*old(ui), m, c_out, *final(ui), r)
            },
{
    let widget_id = ui.next_widget_id();
    ui.push_id(store, widget_id);

    let padding = m.padding;
    let container_h: i64 = match m.height {
        Some(h) => h,
        None => 0,
    };
    let initial_x = ui.cursor.x;
    let initial_y = ui.cursor.y;

    let mut sub_cmds: Vec<PaintOp> = Vec::new();
    std::mem::swap(&mut ui.cmds, &mut sub_cmds);
    let sub = Ui {
        width: ui.width,
        height: ui.height,
        cursor: Rect {
            x: clamp_coord(initial_x + padding),
            y: clamp_coord(initial_y + padding),
            w: 0,
            h: container_h,
        },
        clip_rect: ui.clip_rect,
        scroll: ui.scroll,
        depth: ui.depth + 1,
        widget_id_counter: ui.widget_id_counter,
        max_x_seen: clamp_coord(initial_x + padding),
        max_y_seen: clamp_coord(initial_y + padding),
        now_ms: ui.now_ms,
        input: ui.input,
        cmds: sub_cmds,
    };
    let mut handed_store = StateStore::new();
    std::mem::swap(store, &mut handed_store);
    let ghost c_in = sub;
    let ghost s_in = handed_store;

    let (c_out, s_out) = content(sub, handed_store);

    let ghost g_c_out = c_out;
    let ghost g_s_out = s_out;
    let mut c_out = c_out;
    *store = s_out;

    ui.widget_id_counter = c_out.widget_id_counter;
    let cmx: i64 = clamp_coord(c_out.max_x_seen);
    let cmy: i64 = clamp_coord(c_out.max_y_seen);
    let actual_content_width: i64 = cmx - (initial_x + padding);
    let actual_content_height: i64 = cmy - (initial_y + padding);
    let final_w: i64 = match m.width {
        Some(w) => w,
        None => clamp_extent(actual_content_width + padding),
    };
    let final_h: i64 = if container_h > 0 {
        container_h
    } else {
        clamp_extent(actual_content_height + padding)
    };

    let mut out_cmds: Vec<PaintOp> = Vec::new();
    std::mem::swap(&mut c_out.cmds, &mut out_cmds);
    if let Some(bgc) = m.background {
        out_cmds.push(PaintOp::FillRoundedRect {
            x: initial_x,
            y: initial_y,
            w: final_w,
            h: final_h,
            radius: crate::config::CARD_BORDER_RADIUS,
            color: bgc,
        });
    }
    ui.cmds = out_cmds;

    ui.cursor.y = clamp_coord(initial_y + final_h);
    ui.cursor.x = initial_x;
    if ui.cursor.y > ui.max_y_seen {
        ui.max_y_seen = ui.cursor.y;
    }
    let reach_x: i64 = clamp_coord(initial_x + final_w);
    if reach_x > ui.max_x_seen {
        ui.max_x_seen = reach_x;
    }

    ui.pop_id(store);
    let r = Rect { x: initial_x, y: initial_y, w: final_w, h: final_h };
    proof {
        assert(spec_row_child(*old(ui), m, c_in));
        assert(spec_child_store(*old(store), old(ui).widget_id_counter, s_in));
        assert(call_ensures(content, (c_in, s_in), (g_c_out, g_s_out)));
        assert(spec_store_popped(g_s_out, *store));
        assert(ops_of(ui.cmds) =~= ops_of(g_c_out.cmds) + (match m.background {
            Some(b) => seq![
                PaintOpModel::FillRoundedRect {
                    x: initial_x,
                    y: initial_y,
                    w: final_w as i64,
                    h: final_h as i64,
                    radius: crate::config::CARD_BORDER_RADIUS,
                    color: b,
                },
            ],
            None => Seq::<PaintOpModel>::empty(),
        }));
        assert(spec_row_resolve(*old(ui), m, g_c_out, *ui, r));
    }
    r
}

/// The fixed box a card occupies: the explicit size or the parent's
/// available width by the default card height.
pub open spec fn spec_card_box(p: Ui, m: Modifier) -> Rect {
    Rect {
        x: p.cursor.x,
        y: p.cursor.y,
        w: (match m.width {
            Some(w) => w,
            None => p.cursor.w,
        }),
        h: (match m.height {
            Some(h) => h,
            None => 80,
        }),
    }
}

/// The background color a card paints: the explicit one, or the theme
/// surface at alpha 240.
pub open spec fn spec_card_bg(theme: crate::config::Theme, m: Modifier) -> crate::color::Color {
    match m.background {
        Some(b) => b,
        None => (crate::color::Color { a: 240, ..theme.colors.surface }),
    }
}

/// The child context a card builds: cursor inset by the fixed card
/// padding on all sides, with the shadow and background already painted
/// into the command list.
pub open spec fn spec_card_child(p: Ui, theme: crate::config::Theme, m: Modifier, c: Ui) -> bool {
    let bx = spec_card_box(p, m);
    let pad = crate::config::CARD_PADDING;
    let cx = spec_clamp_coord(bx.x + pad);
    let cy = spec_clamp_coord(bx.y + pad);
    &&& c.width == p.width && c.height == p.height
    &&& c.cursor == (Rect {
        x: cx,
        y: cy,
        w: spec_clamp_extent(bx.w - 2 * pad),
        h: spec_clamp_extent(bx.h - 2 * pad),
    })
    &&& c.clip_rect == p.clip_rect
    &&& c.scroll == p.scroll
    &&& c.depth == p.depth + 1
    &&& c.widget_id_counter == (p.widget_id_counter + 1) as u64
    &&& c.max_x_seen == cx && c.max_y_seen == cy
    &&& c.now_ms == p.now_ms
    &&& c.input == p.input
    &&& c.cmds@.map_values(|o: PaintOp| o@) == p.cmds@.map_values(|o: PaintOp| o@) + seq![
        PaintOpModel::Shadow {
            x: bx.x,
            y: bx.y,
            w: bx.w,
            h: bx.h,
            radius: crate::config::CARD_BORDER_RADIUS,
            blur: crate::config::CARD_SHADOW_BLUR,
        },
        PaintOpModel::FillRoundedRect {
            x: bx.x,
            y: bx.y,
            w: bx.w,
            h: bx.h,
            radius: crate::config::CARD_BORDER_RADIUS,
            color: spec_card_bg(theme, m),
        },
    ]
}

/// A single-child container with a fixed box: shadow and rounded
/// background first — the size is explicit, so painting may precede the
/// content — then the content inside the fixed card padding.  A card is
/// a single-child vertical container, so it advances the parent cursor
/// by its resolved height and folds its box into the parent's extent
/// accumulators.
pub fn card<F: FnOnce(Ui, StateStore) -> (Ui, StateStore)>(
    ui: &mut Ui,
    store: &mut StateStore,
    m: Modifier,
    content: F,
) -> (r: Rect)
    requires
        old(ui).wf(),
        m.wf(),
        old(ui).widget_id_counter < u64::MAX,
        old(ui).depth < u32::MAX,
        forall|c: Ui, s: StateStore|
            spec_card_child(*old(ui), old(store).theme, m, c) && spec_child_store(
                *old(store),
                old(ui).widget_id_counter,
                s,
            ) ==> call_requires(content, (c, s)),
    ensures
        final(ui).wf(),
        r == spec_card_box(*old(ui), m),
        exists|c_in: Ui, s_in: StateStore, c_out: Ui, s_out: StateStore|
            {
                &&& spec_card_child(*old(ui), old(store).theme, m, c_in)
                &&& spec_child_store(*old(store), old(ui).widget_id_counter, s_in)
                &&& #[trigger] call_ensures(content, (c_in, s_in), (c_out, s_out))
                &&& spec_store_popped(s_out, *final(store))
                &&& *final(ui) == (Ui {
                    widget_id_counter: c_out.widget_id_counter,
                    cursor: final(ui).cursor,
                    max_x_seen: final(ui).max_x_seen,
                    max_y_seen: final(ui).max_y_seen,
                    cmds: final(ui).cmds,
                    ..*old(ui)
                })
                &&& final(ui).cursor == (Rect {
                    x: old(ui).cursor.x,
                    y: spec_clamp_coord(old(ui).cursor.y + spec_card_box(*old(ui), m).h),
                    ..old(ui).cursor
                })
                &&& final(ui).max_y_seen == spec_max(
                    old(ui).max_y_seen as int,
                    final(ui).cursor.y as int,
                )
                &&& final(ui).max_x_seen == spec_max(
                    old(ui).max_x_seen as int,
                    spec_clamp_coord(old(ui).cursor.x + spec_card_box(*old(ui), m).w) as int,
                )
                &&& ops_of(final(ui).cmds) == ops_of(c_out.cmds)
            },
{
    let widget_id = ui.next_widget_id();
    ui.push_id(store, widget_id);

    let theme = ui.theme(store);
    let bg_color = match m.background {
        Some(b) => b,
        None => theme.colors.surface.alpha(240),
    };
    let w: i64 = match m.width {
        Some(ww) => ww,
        None => ui.cursor.w,
    };
    let h: i64 = match m.height {
        Some(hh) => hh,
        None => 80,
    };
    let x0 = ui.cursor.x;
    let y0 = ui.cursor.y;

    ui.cmds.push(PaintOp::Shadow {
        x: x0,
        y: y0,
        w,
        h,
        radius: crate::config::CARD_BORDER_RADIUS,
        blur: crate::config::CARD_SHADOW_BLUR,
    });
    ui.cmds.push(PaintOp::FillRoundedRect {
        x: x0,
        y: y0,
        w,
        h,
        radius: crate::config::CARD_BORDER_RADIUS,
        color: bg_color,
    });

    let pad = crate::config::CARD_PADDING;
    let mut sub_cmds: Vec<PaintOp> = Vec::new();
    std::mem::swap(&mut ui.cmds, &mut sub_cmds);
    let sub = Ui {
        width: ui.width,
        height: ui.height,
        cursor: Rect {
            x: clamp_coord(x0 + pad),
            y: clamp_coord(y0 + pad),
            w: clamp_extent(w - 2 * pad),
            h: clamp_extent(h - 2 * pad),
        },
        clip_rect: ui.clip_rect,
        scroll: ui.scroll,
        depth: ui.depth + 1,
        widget_id_counter: ui.widget_id_counter,
        max_x_seen: clamp_coord(x0 + pad),
        max_y_seen: clamp_coord(y0 + pad),
        now_ms: ui.now_ms,
        input: ui.input,
        cmds: sub_cmds,
    };
    let mut handed_store = StateStore::new();
    std::mem::swap(store, &mut handed_store);
    let ghost c_in = sub;
    let ghost s_in = handed_store;
    proof {
        assert(c_in.cmds@.map_values(|o: PaintOp| o@) =~= old(ui).cmds@.map_values(
            |o: PaintOp| o@,
        ) + seq![
            c_in.cmds@[c_in.cmds@.len() - 2]@,
            c_in.cmds@[c_in.cmds@.len() - 1]@,
        ]);
        assert(spec_card_child(*old(ui), old(store).theme, m, c_in));
        assert(spec_child_store(*old(store), old(ui).widget_id_counter, s_in));
    }

    let (c_out, s_out) = content(sub, handed_store);

    let ghost g_c_out = c_out;
    let ghost g_s_out = s_out;
    let mut c_out = c_out;
    *store = s_out;

    ui.widget_id_counter = c_out.widget_id_counter;
    let mut out_cmds: Vec<PaintOp> = Vec::new();
    std::mem::swap(&mut c_out.cmds, &mut out_cmds);
    ui.cmds = out_cmds;

    ui.cursor.y = clamp_coord(y0 + h);
    if ui.cursor.y > ui.max_y_seen {
        ui.max_y_seen = ui.cursor.y;
    }
    let reach_x: i64 = clamp_coord(x0 + w);
    if reach_x > ui.max_x_seen {
        ui.max_x_seen = reach_x;
    }

    ui.pop_id(store);
    let r = Rect { x: x0, y: y0, w, h };
    proof {
        assert(call_ensures(content, (c_in, s_in), (g_c_out, g_s_out)));
        assert(spec_store_popped(g_s_out, *store));
        assert(ops_of(ui.cmds) =~= ops_of(g_c_out.cmds));
    }
    r
}

/// The fixed viewport box a scroll container occupies: the explicit
/// size, or the parent's available width by a 200-pixel default height.
pub open spec fn spec_scroll_view_box(p: Ui, m: Modifier) -> Rect {
    Rect {
        x: p.cursor.x,
        y: p.cursor.y,
        w: (match m.width {
            Some(w) => w,
            None => p.cursor.w,
        }),
        h: (match m.height {
            Some(h) => h,
            None => 200,
        }),
    }
}

/// The viewport height: the container height less the padding on both
/// sides, floored at zero.
pub open spec fn spec_scroll_view_viewport(p: Ui, m: Modifier) -> i64 {
    spec_clamp_extent(spec_scroll_view_box(p, m).h - 2 * m.padding)
}

/// The scroll state the content runs under: the parent's, given the new
/// viewport, marked hovered if the pointer is over the container, with
/// this frame's wheel delta applied.
pub open spec fn spec_scroll_view_scroll_pre(p: Ui, m: Modifier) -> crate::scroll::ScrollState {
    let hov = p.spec_is_hovered(spec_scroll_view_box(p, m));
    let with_viewport = crate::scroll::ScrollState::spec_with_extents(
        p.scroll,
        p.scroll.content_height,
        spec_scroll_view_viewport(p, m),
    );
    crate::scroll::ScrollState::spec_after_wheel(
        (crate::scroll::ScrollState { is_hovered: hov, ..with_viewport }),
        p.input.scroll_delta,
    )
}

/// The clip rectangle scrolled content is confined to: the viewport
/// inset by the padding, minus the scrollbar gutter on the right.
pub open spec fn spec_scroll_view_clip(p: Ui, m: Modifier) -> Rect {
    let bx = spec_scroll_view_box(p, m);
    Rect {
        x: spec_clamp_coord(bx.x + m.padding),
        y: spec_clamp_coord(bx.y + m.padding),
        w: spec_clamp_extent(bx.w - 2 * m.padding - crate::config::SCROLLBAR_WIDTH),
        h: spec_scroll_view_viewport(p, m),
    }
}

/// The child context a scroll container builds: cursor shifted up by
/// the scroll offset, clipped to the viewport, under the pre-content
/// scroll state, with the background (if any) already painted — the
/// viewport is explicitly sized, so it may paint before its content.
pub open spec fn spec_scroll_view_child(p: Ui, m: Modifier, c: Ui) -> bool {
    let bx = spec_scroll_view_box(p, m);
    let s1 = spec_scroll_view_scroll_pre(p, m);
    let clip = spec_scroll_view_clip(p, m);
    &&& c.width == p.width && c.height == p.height
    &&& c.cursor == (Rect {
        x: clip.x,
        y: spec_clamp_coord(bx.y + m.padding - s1.offset),
        w: clip.w,
        h: 0,
    })
    &&& c.clip_rect == Some(clip)
    &&& c.scroll == s1
    &&& c.depth == p.depth + 1
    &&& c.widget_id_counter == (p.widget_id_counter + 1) as u64
    &&& c.max_x_seen == c.cursor.x && c.max_y_seen == c.cursor.y
    &&& c.now_ms == p.now_ms
    &&& c.input == p.input
    &&& c.cmds@.map_values(|o: PaintOp| o@) == p.cmds@.map_values(|o: PaintOp| o@) + (match m
        .background {
        Some(b) => seq![
            PaintOpModel::FillRoundedRect {
                x: bx.x,
                y: bx.y,
                w: bx.w,
                h: bx.h,
                radius: crate::config::CARD_BORDER_RADIUS,
                color: b,
            },
        ],
        None => Seq::<PaintOpModel>::empty(),
    })
}

/// How a scroll container resolves: the content height is measured from
/// the child's lowest extent plus the scroll offset, the offset is
/// re-clamped against it, the scrollbar runs its drag state machine and
/// records the thumb and track, and the parent's clip rectangle is
/// restored.  A scroll container is a single-child vertical container,
/// so the parent cursor advances by the viewport height and the box
/// folds into the parent's extent accumulators.
pub open spec fn spec_scroll_view_resolve(
    p: Ui,
    theme: crate::config::Theme,
    m: Modifier,
    c: Ui,
    p2: Ui,
    r: Rect,
) -> bool {
    let bx = spec_scroll_view_box(p, m);
    let s1 = spec_scroll_view_scroll_pre(p, m);
    let viewport = spec_scroll_view_viewport(p, m);
    let content_h = spec_clamp_extent(
        spec_clamp_coord(c.max_y_seen as int) - (bx.y + m.padding) + s1.offset,
    );
    let s2 = crate::scroll::ScrollState::spec_with_extents(s1, content_h, viewport);
    let sx = spec_clamp_coord(bx.x + bx.w - crate::config::SCROLLBAR_WIDTH);
    let sy = spec_clamp_coord(bx.y + m.padding);
    &&& r == bx
    &&& p2.scroll == Ui::spec_scrollbar_scroll(s2, p.input, sx, sy)
    &&& ops_of(p2.cmds) == ops_of(c.cmds) + Ui::spec_scrollbar_ops(s2, p.input, theme, sx, sy)
    &&& p2.clip_rect == p.clip_rect
    &&& p2.widget_id_counter == c.widget_id_counter
    &&& p2.cursor == (Rect { x: p.cursor.x, y: spec_clamp_coord(p.cursor.y + bx.h), ..p.cursor })
    &&& p2.max_y_seen == spec_max(p.max_y_seen as int, p2.cursor.y as int)
    &&& p2.max_x_seen == spec_max(p.max_x_seen as int, spec_clamp_coord(bx.x + bx.w) as int)
    &&& p2.width == p.width && p2.height == p.height
    &&& p2.depth == p.depth
    &&& p2.now_ms == p.now_ms
    &&& p2.input == p.input
}

/// A scrollable vertical container with a fixed viewport: the content
/// runs under a clip rectangle with its cursor shifted up by the scroll
/// offset, the content height is measured from what it drew, and the
/// scrollbar's wheel and drag handling run in the same pass.
#[verifier::rlimit(100)]
#[verifier::spinoff_prover]
pub fn scroll_view<F: FnOnce(Ui, StateStore) -> (Ui, StateStore)>(
    ui: &mut Ui,
    store: &mut StateStore,
    m: Modifier,
    content: F,
) -> (r: Rect)
    requires
        old(ui).wf(),
        m.wf(),
        old(ui).widget_id_counter < u64::MAX,
        old(ui).depth < u32::MAX,
        forall|c: Ui, s: StateStore|
            spec_scroll_view_child(*old(ui), m, c) && spec_child_store(
                *old(store),
                old(ui).widget_id_counter,
                s,
            ) ==> call_requires(content, (c, s)),
    ensures
        final(ui).wf(),
        exists|c_in: Ui, s_in: StateStore, c_out: Ui, s_out: StateStore|
            {
                &&& spec_scroll_view_child(*old(ui), m, c_in)
                &&& spec_child_store(*old(store), old(ui).widget_id_counter, s_in)
                &&& #[trigger] call_ensures(content, (c_in, s_in), (c_out, s_out))
                &&& spec_store_popped(s_out, *final(store))
                &&& spec_scroll_view_resolve(*old(ui), final(store).theme, m, c_out, *final(ui), r)
            },
{
    let widget_id = ui.next_widget_id();
    ui.push_id(store, widget_id);

    let padding = m.padding;
    let container_h: i64 = match m.height {
        Some(h) => h,
        None => 200,
    };
    let container_w: i64 = match m.width {
        Some(w) => w,
        None => ui.cursor.w,
    };
    let x0 = ui.cursor.x;
    let y0 = ui.cursor.y;
    let rect = Rect { x: x0, y: y0, w: container_w, h: container_h };

    if let Some(bgc) = m.background {
        ui.cmds.push(PaintOp::FillRoundedRect {
            x: x0,
            y: y0,
            w: container_w,
            h: container_h,
            radius: crate::config::CARD_BORDER_RADIUS,
            color: bgc,
        });
    }

    let hovered = ui.is_hovered(rect);
    let viewport: i64 = clamp_extent(container_h - 2 * padding);
    let measured = ui.scroll.content_height;
    ui.scroll.set_extents(measured, viewport);
    ui.scroll.is_hovered = hovered;
    ui.handle_scroll();

    let old_clip = ui.clip_rect;
    let clip = Rect {
        x: clamp_coord(x0 + padding),
        y: clamp_coord(y0 + padding),
        w: clamp_extent(container_w - 2 * padding - crate::config::SCROLLBAR_WIDTH),
        h: viewport,
    };
    ui.clip_rect = Some(clip);

    let mut sub_cmds: Vec<PaintOp> = Vec::new();
    std::mem::swap(&mut ui.cmds, &mut sub_cmds);
    let sub = Ui {
        width: ui.width,
        height: ui.height,
        cursor: Rect {
            x: clip.x,
            y: clamp_coord(y0 + padding - ui.scroll.offset),
            w: clip.w,
            h: 0,
        },
        clip_rect: ui.clip_rect,
        scroll: ui.scroll,
        depth: ui.depth + 1,
        widget_id_counter: ui.widget_id_counter,
        max_x_seen: clip.x,
        max_y_seen: clamp_coord(y0 + padding - ui.scroll.offset),
        now_ms: ui.now_ms,
        input: ui.input,
        cmds: sub_cmds,
    };
    let mut handed_store = StateStore::new();
    std::mem::swap(store, &mut handed_store);
    let ghost c_in = sub;
    let ghost s_in = handed_store;
    proof {
        assert(c_in.cmds@.map_values(|o: PaintOp| o@) =~= spec_scroll_view_child_cmds(
            *old(ui),
            m,
        ));
        assert(spec_scroll_view_child(*old(ui), m, c_in));
        assert(spec_child_store(*old(store), old(ui).widget_id_counter, s_in));
    }

    let (c_out, s_out) = content(sub, handed_store);

    let ghost g_c_out = c_out;
    let ghost g_s_out = s_out;
    let mut c_out = c_out;
    *store = s_out;

    let content_h: i64 = clamp_extent(clamp_coord(c_out.max_y_seen) - (y0 + padding)
        + ui.scroll.offset);
    ui.scroll.set_extents(content_h, viewport);
    ui.widget_id_counter = c_out.widget_id_counter;
    let mut out_cmds: Vec<PaintOp> = Vec::new();
    std::mem::swap(&mut c_out.cmds, &mut out_cmds);
    ui.cmds = out_cmds;
    ui.clip_rect = old_clip;

    let sx: i64 = clamp_coord(x0 + container_w - crate::config::SCROLLBAR_WIDTH);
    let sy: i64 = clamp_coord(y0 + padding);
    ui.draw_scrollbar(store, sx, sy);

    ui.cursor.y = clamp_coord(y0 + container_h);
    if ui.cursor.y > ui.max_y_seen {
        ui.max_y_seen = ui.cursor.y;
    }
    let reach_x: i64 = clamp_coord(x0 + container_w);
    if reach_x > ui.max_x_seen {
        ui.max_x_seen = reach_x;
    }

    ui.pop_id(store);
    proof {
        assert(call_ensures(content, (c_in, s_in), (g_c_out, g_s_out)));
        assert(spec_store_popped(g_s_out, *store));
        let p = *old(ui);
        let s1 = spec_scroll_view_scroll_pre(p, m);
        let sch = spec_clamp_extent(
            spec_clamp_coord(g_c_out.max_y_seen as int) - (p.cursor.y + m.padding) + s1.offset,
        );
        assert(sch == content_h);
        assert(spec_scroll_view_resolve(*old(ui), store.theme, m, g_c_out, *ui, rect));
    }
    rect
}

/// Whether the entry under `id`, if there is one, holds a well-formed
/// animated value.  Reading a state entry as the wrong kind is a
/// structural bug in the caller's identity discipline, so widgets that
/// keep a hover animation ask for this up front.
pub open spec fn spec_anim_entry_ok(s: StateStore, id: u64) -> bool {
    s.states@.contains_key(id) ==> {
        &&& s.states@[id]@ matches crate::state::StateValueModel::Anim(a)
        &&& (s.states@[id]@ matches crate::state::StateValueModel::Anim(a) ==> a.wf())
    }
}

/// The animated value stored under `id`, or a settled zero when the
/// entry does not exist yet.
pub open spec fn spec_prev_anim(s: StateStore, id: u64) -> crate::animation::AnimatedValue {
    if s.states@.contains_key(id) {
        match s.states@[id]@ {
            crate::state::StateValueModel::Anim(a) => a,
            _ => (crate::animation::AnimatedValue { anim: None, current: 0 }),
        }
    } else {
        crate::animation::AnimatedValue { anim: None, current: 0 }
    }
}

/// What [`crate::animation::AnimatedValue::set`] leaves behind.
pub open spec fn spec_anim_set(
    a: crate::animation::AnimatedValue,
    target: i64,
    dur: i64,
    now: i64,
) -> crate::animation::AnimatedValue {
    if a.spec_requested_target() == target {
        a
    } else {
        crate::animation::AnimatedValue {
            current: a.spec_displayed(now as int) as i64,
            anim: Some(crate::animation::AnimationState {
                start_value: a.spec_displayed(now as int) as i64,
                target_value: target,
                start_time: now,
                duration_ms: dur,
            }),
        }
    }
}

/// The hover animation a widget leaves in the store: the previous one
/// re-targeted at 1000 milli-units while hovered and 0 otherwise.
pub open spec fn spec_hover_anim_after(
    s: StateStore,
    id: u64,
    hovered: bool,
    now: i64,
) -> crate::animation::AnimatedValue {
    spec_anim_set(
        spec_prev_anim(s, id),
        if hovered {
            1000
        } else {
            0
        },
        crate::config::ANIMATION_DURATION_MS,
        now,
    )
}

/// Runs one widget's hover fade for this frame: lazily creates the
/// animated value under the identity `wid` mints, re-targets it at
/// fully-hovered or fully-idle, stores it back, and returns the eased
/// sample for this frame's timestamp.
fn hover_anim_value(ui: &Ui, store: &mut StateStore, wid: u64, hovered: bool) -> (t: i64)
    requires
        ui.wf(),
        spec_anim_entry_ok(*old(store), fold_step(old(store).widget_stack.current, wid)),
    ensures
        ({
            let id = fold_step(old(store).widget_stack.current, wid);
            let a1 = spec_hover_anim_after(*old(store), id, hovered, ui.now_ms);
            &&& final(store).states@ == old(store).states@.insert(id, StateValue::Anim(a1))
            &&& t == a1.spec_displayed(ui.now_ms as int)
            &&& in_coord(t)
        }),
        final(store).widget_stack == old(store).widget_stack,
        final(store).theme == old(store).theme,
        final(store).current_index == old(store).current_index,
{
    let handle = ui.use_state_with_id(
        store,
        wid,
        StateValue::Anim(crate::animation::AnimatedValue::new(0)),
    );
    let stored = handle.get(store);
    let mut anim = match stored {
        StateValue::Anim(a) => a,
        _ => {
            proof {
                assert(false);
            }
            crate::animation::AnimatedValue::new(0)
        },
    };
    if hovered {
        anim.set(1000, crate::config::ANIMATION_DURATION_MS, ui.now_ms);
    } else {
        anim.set(0, crate::config::ANIMATION_DURATION_MS, ui.now_ms);
    }
    handle.set(store, StateValue::Anim(anim));
    let stored_again = handle.get(store);
    let mut sample = match stored_again {
        StateValue::Anim(a) => a,
        _ => {
            proof {
                assert(false);
            }
            crate::animation::AnimatedValue::new(0)
        },
    };
    sample.update(ui.now_ms)
}

/// An interpolation weight clamped into `[0, 1000]` milli-units.
pub open spec fn spec_milli_clamp(t: i64) -> i64 {
    if t < 0 {
        0i64
    } else if t > 1000 {
        1000i64
    } else {
        t
    }
}

/// The fill color of a button: its background (or the theme primary)
/// blended toward the hover tone by the hover fade, at alpha 200 while
/// pressed.
pub open spec fn spec_button_color(
    theme: crate::config::Theme,
    m: Modifier,
    t: i64,
    pressed: bool,
) -> crate::color::Color {
    let tc = spec_milli_clamp(t);
    let base = (match m.background {
        Some(b) => b,
        None => theme.colors.primary,
    });
    let hc = theme.colors.primary_hover;
    crate::color::Color {
        r: crate::color::spec_lerp_channel(base.r, hc.r, tc),
        g: crate::color::spec_lerp_channel(base.g, hc.g, tc),
        b: crate::color::spec_lerp_channel(base.b, hc.b, tc),
        a: (if pressed {
            200u8
        } else {
            base.a
        }),
    }
}

/// The commands a button records: its rounded fill, then either the
/// built-in plus icon (for the label `+`) or the centred label text.
pub open spec fn spec_button_ops(
    rect: Rect,
    color: crate::color::Color,
    label: Seq<char>,
) -> Seq<PaintOpModel> {
    let white = (crate::color::Color { r: 255, g: 255, b: 255, a: 255 });
    seq![
        PaintOpModel::FillRoundedRect {
            x: rect.x,
            y: rect.y,
            w: rect.w,
            h: rect.h,
            radius: crate::config::BUTTON_BORDER_RADIUS,
            color,
        },
    ] + (if label == seq!['+'] {
        seq![
            PaintOpModel::IconPlus {
                x: (rect.x + rect.w / 2 - 7) as i64,
                y: (rect.y + rect.h / 2 - 7) as i64,
                size: 14,
                color: white,
            },
        ]
    } else {
        seq![
            PaintOpModel::TextRun {
                x: (rect.x + crate::geometry::spec_half(rect.w - 9 * label.len())) as i64,
                y: (rect.y + crate::geometry::spec_half(rect.h - 18)) as i64,
                size: crate::config::FONT_SIZE_LG,
                text: label,
                color: white,
            },
        ]
    })
}

/// A push button with a hover fade.  The first result is true exactly
/// when the pointer hovers the button and the press edge happened this
/// frame; a held button does not re-fire.  The cursor is not advanced;
/// callers place the next widget from the returned rectangle.
pub fn button(ui: &mut Ui, store: &mut StateStore, m: Modifier, label: &str) -> (out: (bool, Rect))
    requires
        old(ui).wf(),
        m.wf(),
        old(ui).widget_id_counter < u64::MAX,
        label@.len() <= 100000,
        spec_anim_entry_ok(
            *old(store),
            fold_step(
                fold_step(old(store).widget_stack.current, old(ui).widget_id_counter),
                old(ui).widget_id_counter,
            ),
        ),
    ensures
        final(ui).wf(),
        ({
            let wid = old(ui).widget_id_counter;
            let id = fold_step(fold_step(old(store).widget_stack.current, wid), wid);
            let rect = (Rect {
                x: old(ui).cursor.x,
                y: old(ui).cursor.y,
                w: (match m.width {
                    Some(w) => w,
                    None => 140,
                }),
                h: (match m.height {
                    Some(h) => h,
                    None => crate::config::BUTTON_HEIGHT,
                }),
            });
            let hovered = old(ui).spec_is_hovered(rect);
            let pressed = hovered && old(ui).input.mouse_clicked;
            let a1 = spec_hover_anim_after(*old(store), id, hovered, old(ui).now_ms);
            let col = spec_button_color(
                old(store).theme,
                m,
                a1.spec_displayed(old(ui).now_ms as int) as i64,
                pressed,
            );
            &&& out.0 == (hovered && old(ui).input.mouse_just_clicked)
            &&& out.1 == rect
            &&& final(store).states@ == old(store).states@.insert(id, StateValue::Anim(a1))
            &&& final(store).widget_stack.stack@ == old(store).widget_stack.stack@
            &&& final(store).widget_stack.wf()
            &&& final(store).theme == old(store).theme
            &&& final(store).current_index == old(store).current_index
            &&& ops_of(final(ui).cmds) == ops_of(old(ui).cmds) + spec_button_ops(
                rect,
                col,
                label@,
            )
            &&& *final(ui) == (Ui {
                widget_id_counter: (old(ui).widget_id_counter + 1) as u64,
                cmds: final(ui).cmds,
                ..*old(ui)
            })
        }),
{
    let widget_id = ui.next_widget_id();
    ui.push_id(store, widget_id);

    let w: i64 = match m.width {
        Some(ww) => ww,
        None => 140,
    };
    let h: i64 = match m.height {
        Some(hh) => hh,
        None => crate::config::BUTTON_HEIGHT,
    };
    let rect = Rect { x: ui.cursor.x, y: ui.cursor.y, w, h };

    let hovered = ui.is_hovered(rect);
    let hover_t = hover_anim_value(ui, store, widget_id, hovered);

    let clicked = hovered && ui.input.mouse_just_clicked;
    let is_pressed = hovered && ui.input.mouse_clicked;

    let theme = ui.theme(store);
    let base_col = match m.background {
        Some(b) => b,
        None => theme.colors.primary,
    };
    let hover_col = theme.colors.primary_hover;
    let tc: i64 = if hover_t < 0 {
        0
    } else if hover_t > 1000 {
        1000
    } else {
        hover_t
    };
    let blended = crate::color::Color::lerp(base_col, hover_col, tc);
    let col = crate::color::Color {
        a: if is_pressed {
            200
        } else {
            base_col.a
        },
        ..blended
    };

    ui.cmds.push(PaintOp::FillRoundedRect {
        x: rect.x,
        y: rect.y,
        w,
        h,
        radius: crate::config::BUTTON_BORDER_RADIUS,
        color: col,
    });

    let is_plus = label.unicode_len() == 1 && label.get_char(0) == '+';
    if is_plus {
        proof {
            assert(label@ =~= seq!['+']);
        }
        ui.cmds.push(PaintOp::IconPlus {
            x: rect.x + w / 2 - 7,
            y: rect.y + h / 2 - 7,
            size: 14,
            color: crate::color::Color::white(),
        });
    } else {
        let label_w: i64 = 9 * (label.unicode_len() as i64);
        let tx = rect.x + crate::geometry::half_offset(w - label_w);
        let ty = rect.y + crate::geometry::half_offset(h - 18);
        ui.cmds.push(PaintOp::TextRun {
            x: tx,
            y: ty,
            size: crate::config::FONT_SIZE_LG,
            text: label.to_owned(),
            color: crate::color::Color::white(),
        });
    }

    ui.pop_id(store);
    proof {
        assert(ops_of(ui.cmds) =~= ops_of(old(ui).cmds) + seq![
            ui.cmds@[ui.cmds@.len() - 2]@,
            ui.cmds@[ui.cmds@.len() - 1]@,
        ]);
    }
    (clicked, rect)
}

/// The background alpha of a sidebar item: its resting alpha (60 while
/// active, 0 otherwise) blended toward the hover alpha 20, but never
/// below the resting alpha.
pub open spec fn spec_sidebar_alpha(active: bool, t: i64) -> u8 {
    let tc = spec_milli_clamp(t);
    let base: u8 = if active {
        60
    } else {
        0
    };
    let blended = crate::color::spec_lerp_channel(base, 20, tc);
    if blended > base {
        blended
    } else {
        base
    }
}

/// The background tone of a sidebar item before its alpha is applied.
pub open spec fn spec_sidebar_bg(
    theme: crate::config::Theme,
    active: bool,
    hovered: bool,
) -> crate::color::Color {
    if active {
        crate::color::Color { a: 60, ..theme.colors.primary }
    } else if hovered {
        theme.colors.surface_hover
    } else {
        theme.colors.background
    }
}

/// The label tone of a sidebar item.
pub open spec fn spec_sidebar_text(
    theme: crate::config::Theme,
    active: bool,
    hovered: bool,
) -> crate::color::Color {
    if active {
        theme.colors.text_primary
    } else if hovered {
        theme.colors.text_secondary
    } else {
        crate::color::Color {
            a: crate::config::TEXT_ALPHA_SECONDARY,
            ..theme.colors.text_secondary
        }
    }
}

/// One navigation row: full available width, fixed height, hover fade
/// on its background, clicked on the press edge while hovered.  The
/// cursor is not advanced.
pub fn sidebar_item(ui: &mut Ui, store: &mut StateStore, label: &str, active: bool) -> (out: (
    bool,
    Rect,
))
    requires
        old(ui).wf(),
        old(ui).widget_id_counter < u64::MAX,
        label@.len() <= 100000,
        spec_anim_entry_ok(
            *old(store),
            fold_step(
                fold_step(old(store).widget_stack.current, old(ui).widget_id_counter),
                old(ui).widget_id_counter,
            ),
        ),
    ensures
        final(ui).wf(),
        ({
            let wid = old(ui).widget_id_counter;
            let id = fold_step(fold_step(old(store).widget_stack.current, wid), wid);
            let rect = (Rect {
                x: old(ui).cursor.x,
                y: old(ui).cursor.y,
                w: old(ui).cursor.w,
                h: crate::config::SIDEBAR_ITEM_HEIGHT,
            });
            let hovered = old(ui).spec_is_hovered(rect);
            let a1 = spec_hover_anim_after(*old(store), id, hovered, old(ui).now_ms);
            let t = a1.spec_displayed(old(ui).now_ms as int) as i64;
            let theme = old(store).theme;
            &&& out.0 == (hovered && old(ui).input.mouse_just_clicked)
            &&& out.1 == rect
            &&& final(store).states@ == old(store).states@.insert(id, StateValue::Anim(a1))
            &&& final(store).widget_stack.stack@ == old(store).widget_stack.stack@
            &&& final(store).widget_stack.wf()
            &&& final(store).theme == old(store).theme
            &&& final(store).current_index == old(store).current_index
            &&& ops_of(final(ui).cmds) == ops_of(old(ui).cmds) + seq![
                PaintOpModel::FillRoundedRect {
                    x: rect.x,
                    y: rect.y,
                    w: rect.w,
                    h: rect.h,
                    radius: crate::config::SIDEBAR_ITEM_BORDER_RADIUS,
                    color: (crate::color::Color {
                        a: spec_sidebar_alpha(active, t),
                        ..spec_sidebar_bg(theme, active, hovered)
                    }),
                },
                PaintOpModel::TextRun {
                    x: (rect.x + crate::config::SPACING_MD) as i64,
                    y: (rect.y + 12) as i64,
                    size: crate::config::FONT_SIZE_MD,
                    text: label@,
                    color: spec_sidebar_text(theme, active, hovered),
                },
            ]
            &&& *final(ui) == (Ui {
                widget_id_counter: (old(ui).widget_id_counter + 1) as u64,
                cmds: final(ui).cmds,
                ..*old(ui)
            })
        }),
{
    let widget_id = ui.next_widget_id();
    ui.push_id(store, widget_id);

    let h: i64 = crate::config::SIDEBAR_ITEM_HEIGHT;
    let rect = Rect { x: ui.cursor.x, y: ui.cursor.y, w: ui.cursor.w, h };

    let hovered = ui.is_hovered(rect);
    let hover_t = hover_anim_value(ui, store, widget_id, hovered);
    let clicked = hovered && ui.input.mouse_just_clicked;

    let tc: i64 = if hover_t < 0 {
        0
    } else if hover_t > 1000 {
        1000
    } else {
        hover_t
    };
    let base_alpha: u8 = if active {
        60
    } else {
        0
    };
    let blended_alpha = crate::color::Color::lerp(
        crate::color::Color { r: 0, g: 0, b: 0, a: base_alpha },
        crate::color::Color { r: 0, g: 0, b: 0, a: 20 },
        tc,
    ).a;
    let alpha: u8 = if blended_alpha > base_alpha {
        blended_alpha
    } else {
        base_alpha
    };

    let theme = ui.theme(store);
    let bg_color = if active {
        theme.colors.primary.alpha(60)
    } else if hovered {
        theme.colors.surface_hover
    } else {
        theme.colors.background
    };
    let text_color = if active {
        theme.colors.text_primary
    } else if hovered {
        theme.colors.text_secondary
    } else {
        theme.colors.text_secondary.alpha(crate::config::TEXT_ALPHA_SECONDARY)
    };

    ui.cmds.push(PaintOp::FillRoundedRect {
        x: rect.x,
        y: rect.y,
        w: rect.w,
        h: rect.h,
        radius: crate::config::SIDEBAR_ITEM_BORDER_RADIUS,
        color: bg_color.alpha(alpha),
    });
    ui.cmds.push(PaintOp::TextRun {
        x: rect.x + crate::config::SPACING_MD,
        y: rect.y + 12,
        size: crate::config::FONT_SIZE_MD,
        text: label.to_owned(),
        color: text_color,
    });

    ui.pop_id(store);
    proof {
        assert(ops_of(ui.cmds) =~= ops_of(old(ui).cmds) + seq![
            ui.cmds@[ui.cmds@.len() - 2]@,
            ui.cmds@[ui.cmds@.len() - 1]@,
        ]);
    }
    (clicked, rect)
}

/// The commands a stat card records: a shadow that sinks with the hover
/// fade, the card surface, the caption and value runs, and the chart
/// icon.
pub open spec fn spec_stat_card_ops(
    theme: crate::config::Theme,
    rect: Rect,
    t: i64,
    label: Seq<char>,
    value: Seq<char>,
    color: crate::color::Color,
) -> Seq<PaintOpModel> {
    let tc = spec_milli_clamp(t);
    seq![
        PaintOpModel::Shadow {
            x: (rect.x + 2) as i64,
            y: (rect.y + 4 + 4 * tc / 1000) as i64,
            w: rect.w,
            h: rect.h,
            radius: crate::config::CARD_BORDER_RADIUS,
            blur: 4,
        },
        PaintOpModel::FillRoundedRect {
            x: rect.x,
            y: rect.y,
            w: rect.w,
            h: rect.h,
            radius: crate::config::CARD_BORDER_RADIUS,
            color: theme.colors.surface,
        },
        PaintOpModel::TextRun {
            x: (rect.x + crate::config::SPACING_MD) as i64,
            y: (rect.y + crate::config::SPACING_LG) as i64,
            size: crate::config::FONT_SIZE_SM,
            text: label,
            color: (crate::color::Color {
                a: crate::config::TEXT_ALPHA_TERTIARY,
                ..theme.colors.text_secondary
            }),
        },
        PaintOpModel::TextRun {
            x: (rect.x + crate::config::SPACING_MD) as i64,
            y: (rect.y + 45) as i64,
            size: crate::config::FONT_SIZE_XXL,
            text: value,
            color: theme.colors.text_primary,
        },
        PaintOpModel::IconChart {
            x: (rect.x + 195) as i64,
            y: (rect.y + 55) as i64,
            size: 30,
            color,
        },
    ]
}

/// A fixed-size statistic card: caption, value, accent chart icon, and
/// a shadow that deepens as the pointer hovers.  The cursor is not
/// advanced.
pub fn stat_card(
    ui: &mut Ui,
    store: &mut StateStore,
    label: &str,
    value: &str,
    color: crate::color::Color,
) -> (r: Rect)
    requires
        old(ui).wf(),
        old(ui).widget_id_counter < u64::MAX,
        spec_anim_entry_ok(
            *old(store),
            fold_step(
                fold_step(old(store).widget_stack.current, old(ui).widget_id_counter),
                old(ui).widget_id_counter,
            ),
        ),
    ensures
        final(ui).wf(),
        ({
            let wid = old(ui).widget_id_counter;
            let id = fold_step(fold_step(old(store).widget_stack.current, wid), wid);
            let rect = (Rect {
                x: old(ui).cursor.x,
                y: old(ui).cursor.y,
                w: crate::config::STAT_CARD_WIDTH,
                h: crate::config::STAT_CARD_HEIGHT,
            });
            let hovered = old(ui).spec_is_hovered(rect);
            let a1 = spec_hover_anim_after(*old(store), id, hovered, old(ui).now_ms);
            let t = a1.spec_displayed(old(ui).now_ms as int) as i64;
            &&& r == rect
            &&& final(store).states@ == old(store).states@.insert(id, StateValue::Anim(a1))
            &&& final(store).widget_stack.stack@ == old(store).widget_stack.stack@
            &&& final(store).widget_stack.wf()
            &&& final(store).theme == old(store).theme
            &&& final(store).current_index == old(store).current_index
            &&& ops_of(final(ui).cmds) == ops_of(old(ui).cmds) + spec_stat_card_ops(
                old(store).theme,
                rect,
                t,
                label@,
                value@,
                color,
            )
            &&& *final(ui) == (Ui {
                widget_id_counter: (old(ui).widget_id_counter + 1) as u64,
                cmds: final(ui).cmds,
                ..*old(ui)
            })
        }),
{
    let widget_id = ui.next_widget_id();
    ui.push_id(store, widget_id);

    let w: i64 = crate::config::STAT_CARD_WIDTH;
    let h: i64 = crate::config::STAT_CARD_HEIGHT;
    let rect = Rect { x: ui.cursor.x, y: ui.cursor.y, w, h };

    let hovered = ui.is_hovered(rect);
    let hover_t = hover_anim_value(ui, store, widget_id, hovered);
    let tc: i64 = if hover_t < 0 {
        0
    } else if hover_t > 1000 {
        1000
    } else {
        hover_t
    };
    let shadow_offset: i64 = 4 + 4 * tc / 1000;

    let theme = ui.theme(store);
    ui.cmds.push(PaintOp::Shadow {
        x: rect.x + 2,
        y: rect.y + shadow_offset,
        w,
        h,
        radius: crate::config::CARD_BORDER_RADIUS,
        blur: 4,
    });
    ui.cmds.push(PaintOp::FillRoundedRect {
        x: rect.x,
        y: rect.y,
        w,
        h,
        radius: crate::config::CARD_BORDER_RADIUS,
        color: theme.colors.surface,
    });
    ui.cmds.push(PaintOp::TextRun {
        x: rect.x + crate::config::SPACING_MD,
        y: rect.y + crate::config::SPACING_LG,
        size: crate::config::FONT_SIZE_SM,
        text: label.to_owned(),
        color: theme.colors.text_secondary.alpha(crate::config::TEXT_ALPHA_TERTIARY),
    });
    ui.cmds.push(PaintOp::TextRun {
        x: rect.x + crate::config::SPACING_MD,
        y: rect.y + 45,
        size: crate::config::FONT_SIZE_XXL,
        text: value.to_owned(),
        color: theme.colors.text_primary,
    });
    ui.cmds.push(PaintOp::IconChart { x: rect.x + 195, y: rect.y + 55, size: 30, color });

    ui.pop_id(store);
    proof {
        assert(ops_of(ui.cmds) =~= ops_of(old(ui).cmds) + seq![
            ui.cmds@[ui.cmds@.len() - 5]@,
            ui.cmds@[ui.cmds@.len() - 4]@,
            ui.cmds@[ui.cmds@.len() - 3]@,
            ui.cmds@[ui.cmds@.len() - 2]@,
            ui.cmds@[ui.cmds@.len() - 1]@,
        ]);
    }
    rect
}

/// A body text run at the cursor in the primary tone.  The returned
/// rectangle approximates the run: half the font size per character
/// wide, the font size plus the small spacing tall.  The cursor is not
/// advanced.
pub fn text(ui: &mut Ui, store: &StateStore, content: &str) -> (r: Rect)
    requires
        old(ui).wf(),
        content@.len() <= 100000,
    ensures
        final(ui).wf(),
        r == (Rect {
            x: old(ui).cursor.x,
            y: old(ui).cursor.y,
            w: (9 * content@.len()) as i64,
            h: (crate::config::FONT_SIZE_LG + crate::config::SPACING_SM) as i64,
        }),
        ops_of(final(ui).cmds) == ops_of(old(ui).cmds) + seq![
            PaintOpModel::TextRun {
                x: old(ui).cursor.x,
                y: old(ui).cursor.y,
                size: crate::config::FONT_SIZE_LG,
                text: content@,
                color: store.theme.colors.text_primary,
            },
        ],
        *final(ui) == (Ui { cmds: final(ui).cmds, ..*old(ui) }),
{
    let color = ui.theme(store).colors.text_primary;
    let rect = Rect {
        x: ui.cursor.x,
        y: ui.cursor.y,
        w: 9 * (content.unicode_len() as i64),
        h: crate::config::FONT_SIZE_LG + crate::config::SPACING_SM,
    };
    ui.cmds.push(PaintOp::TextRun {
        x: rect.x,
        y: rect.y,
        size: crate::config::FONT_SIZE_LG,
        text: content.to_owned(),
        color,
    });
    proof {
        assert(ops_of(ui.cmds) =~= ops_of(old(ui).cmds) + seq![
            ui.cmds@[ui.cmds@.len() - 1]@,
        ]);
    }
    rect
}

/// A secondary-tone text run at the cursor, slightly smaller than body
/// text.  The cursor is not advanced.
pub fn text_muted(ui: &mut Ui, store: &StateStore, content: &str) -> (r: Rect)
    requires
        old(ui).wf(),
        content@.len() <= 100000,
    ensures
        final(ui).wf(),
        r == (Rect {
            x: old(ui).cursor.x,
            y: old(ui).cursor.y,
            w: (8 * content@.len()) as i64,
            h: (crate::config::FONT_SIZE_MD + crate::config::SPACING_SM) as i64,
        }),
        ops_of(final(ui).cmds) == ops_of(old(ui).cmds) + seq![
            PaintOpModel::TextRun {
                x: old(ui).cursor.x,
                y: old(ui).cursor.y,
                size: crate::config::FONT_SIZE_MD,
                text: content@,
                color: store.theme.colors.text_secondary,
            },
        ],
        *final(ui) == (Ui { cmds: final(ui).cmds, ..*old(ui) }),
{
    let color = ui.theme(store).colors.text_secondary;
    let rect = Rect {
        x: ui.cursor.x,
        y: ui.cursor.y,
        w: 8 * (content.unicode_len() as i64),
        h: crate::config::FONT_SIZE_MD + crate::config::SPACING_SM,
    };
    ui.cmds.push(PaintOp::TextRun {
        x: rect.x,
        y: rect.y,
        size: crate::config::FONT_SIZE_MD,
        text: content.to_owned(),
        color,
    });
    proof {
        assert(ops_of(ui.cmds) =~= ops_of(old(ui).cmds) + seq![
            ui.cmds@[ui.cmds@.len() - 1]@,
        ]);
    }
    rect
}

/// A heading text run at the cursor in the primary tone.  The cursor is
/// not advanced.
pub fn text_heading(ui: &mut Ui, store: &StateStore, content: &str) -> (r: Rect)
    requires
        old(ui).wf(),
        content@.len() <= 100000,
    ensures
        final(ui).wf(),
        r == (Rect {
            x: old(ui).cursor.x,
            y: old(ui).cursor.y,
            w: (12 * content@.len()) as i64,
            h: (crate::config::FONT_SIZE_XL + crate::config::SPACING_MD) as i64,
        }),
        ops_of(final(ui).cmds) == ops_of(old(ui).cmds) + seq![
            PaintOpModel::TextRun {
                x: old(ui).cursor.x,
                y: old(ui).cursor.y,
                size: crate::config::FONT_SIZE_XL,
                text: content@,
                color: store.theme.colors.text_primary,
            },
        ],
        *final(ui) == (Ui { cmds: final(ui).cmds, ..*old(ui) }),
{
    let color = ui.theme(store).colors.text_primary;
    let rect = Rect {
        x: ui.cursor.x,
        y: ui.cursor.y,
        w: 12 * (content.unicode_len() as i64),
        h: crate::config::FONT_SIZE_XL + crate::config::SPACING_MD,
    };
    ui.cmds.push(PaintOp::TextRun {
        x: rect.x,
        y: rect.y,
        size: crate::config::FONT_SIZE_XL,
        text: content.to_owned(),
        color,
    });
    proof {
        assert(ops_of(ui.cmds) =~= ops_of(old(ui).cmds) + seq![
            ui.cmds@[ui.cmds@.len() - 1]@,
        ]);
    }
    rect
}

/// A one-pixel horizontal rule across the available width, in the
/// border tone at alpha 50.  The cursor is not advanced.
pub fn divider(ui: &mut Ui, store: &StateStore) -> (r: Rect)
    requires
        old(ui).wf(),
    ensures
        final(ui).wf(),
        r == (Rect {
            x: old(ui).cursor.x,
            y: old(ui).cursor.y,
            w: old(ui).cursor.w,
            h: crate::config::DIVIDER_HEIGHT,
        }),
        ops_of(final(ui).cmds) == ops_of(old(ui).cmds) + seq![
            PaintOpModel::FillRect {
                x: old(ui).cursor.x,
                y: old(ui).cursor.y,
                w: old(ui).cursor.w,
                h: crate::config::DIVIDER_HEIGHT,
                color: (crate::color::Color { a: 50, ..store.theme.colors.border }),
            },
        ],
        *final(ui) == (Ui { cmds: final(ui).cmds, ..*old(ui) }),
{
    let color = ui.theme(store).colors.border.alpha(50);
    let rect = Rect {
        x: ui.cursor.x,
        y: ui.cursor.y,
        w: ui.cursor.w,
        h: crate::config::DIVIDER_HEIGHT,
    };
    ui.cmds.push(PaintOp::FillRect { x: rect.x, y: rect.y, w: rect.w, h: rect.h, color });
    proof {
        assert(ops_of(ui.cmds) =~= ops_of(old(ui).cmds) + seq![
            ui.cmds@[ui.cmds@.len() - 1]@,
        ]);
    }
    rect
}

/// A vertical gap: draws nothing, occupies the available width by the
/// given height.  Callers advance the cursor by the returned rectangle.
pub fn spacer(ui: &Ui, height: i64) -> (r: Rect)
    ensures
        r == (Rect { x: ui.cursor.x, y: ui.cursor.y, w: ui.cursor.w, h: height }),
{
    Rect { x: ui.cursor.x, y: ui.cursor.y, w: ui.cursor.w, h: height }
}

/// A horizontal gap: draws nothing, occupies the given width by the
/// available height.
pub fn hspacer(ui: &Ui, width: i64) -> (r: Rect)
    ensures
        r == (Rect { x: ui.cursor.x, y: ui.cursor.y, w: width, h: ui.cursor.h }),
{
    Rect { x: ui.cursor.x, y: ui.cursor.y, w: width, h: ui.cursor.h }
}

/// Relies on `String::push`: appends exactly the given character.
#[verifier::external_body]
fn push_char(s: &mut String, c: char)
    ensures
        final(s)@ == old(s)@.push(c),
{
    s.push(c);
}

/// Relies on `String::pop`: removes and returns the last character, or
/// leaves an empty string untouched.
#[verifier::external_body]
fn pop_char(s: &mut String) -> (r: Option<char>)
    ensures
        old(s)@.len() == 0 ==> final(s)@ == old(s)@ && r is None,
        old(s)@.len() > 0 ==> final(s)@ == old(s)@.drop_last() && r == Some(old(s)@.last()),
{
    s.pop()
}

/// Whether the entry under `id`, if there is one, holds a text buffer
/// short enough for the caret math.
pub open spec fn spec_text_entry_ok(s: StateStore, id: u64) -> bool {
    s.states@.contains_key(id) ==> {
        &&& s.states@[id]@ matches crate::state::StateValueModel::Text(t)
        &&& (s.states@[id]@ matches crate::state::StateValueModel::Text(t) ==> t.len()
            <= 100000000)
    }
}

/// Whether the entry under `id`, if there is one, holds a boolean flag.
pub open spec fn spec_flag_entry_ok(s: StateStore, id: u64) -> bool {
    s.states@.contains_key(id) ==> s.states@[id]@ matches crate::state::StateValueModel::Flag(b)
}

/// The focus flag after this frame's clicks: a press edge over the
/// field toggles it, a press edge anywhere else clears it, and without
/// a press edge it is untouched.
pub open spec fn spec_focus_after(f0: bool, hovered: bool, just_clicked: bool) -> bool {
    if just_clicked {
        if hovered {
            !f0
        } else {
            false
        }
    } else {
        f0
    }
}

/// The buffer after this frame's character, applied only while the
/// field was already focused when the frame began: backspace removes
/// the last character, a printable character is appended, control
/// characters are ignored.
pub open spec fn spec_text_after(t: Seq<char>, f0: bool, ch: Option<char>) -> Seq<char> {
    if !f0 {
        t
    } else {
        match ch {
            None => t,
            Some(c) => {
                if c as u32 == 8 {
                    if t.len() > 0 {
                        t.drop_last()
                    } else {
                        t
                    }
                } else if c as u32 >= 32 && c as u32 != 127 {
                    t.push(c)
                } else {
                    t
                }
            },
        }
    }
}

/// Whether the caret is on in its blink cycle at vertical position `y`:
/// the integer-milliradian sign of a slow sine of the position.
pub open spec fn spec_caret_visible(y: i64) -> bool {
    (y * 5 + 32941015040) % 6283 < 3142
}

/// The commands a text field records: surface, border, then either the
/// placeholder (while empty and unfocused) or the buffer, and a caret
/// while focused and on in its blink cycle.
pub open spec fn spec_text_input_ops(
    theme: crate::config::Theme,
    rect: Rect,
    t0: Seq<char>,
    f0: bool,
    hovered: bool,
    placeholder: Seq<char>,
) -> Seq<PaintOpModel> {
    let bg_col = (if f0 {
        theme.colors.surface
    } else if hovered {
        theme.colors.surface_hover
    } else {
        theme.colors.surface
    });
    let border_col = (if f0 {
        theme.colors.primary
    } else if hovered {
        theme.colors.border
    } else {
        crate::color::Color { a: 100, ..theme.colors.border }
    });
    let display = (if t0.len() == 0 && !f0 {
        placeholder
    } else {
        t0
    });
    let display_col = (if t0.len() == 0 && !f0 {
        theme.colors.text_muted
    } else {
        theme.colors.text_primary
    });
    seq![
        PaintOpModel::FillRoundedRect {
            x: rect.x,
            y: rect.y,
            w: rect.w,
            h: rect.h,
            radius: crate::config::BUTTON_BORDER_RADIUS,
            color: bg_col,
        },
        PaintOpModel::FillRoundedRect {
            x: rect.x,
            y: rect.y,
            w: rect.w,
            h: rect.h,
            radius: crate::config::BUTTON_BORDER_RADIUS,
            color: (crate::color::Color { a: 80, ..border_col }),
        },
        PaintOpModel::TextRun {
            x: (rect.x + crate::config::SPACING_MD) as i64,
            y: (rect.y + 12) as i64,
            size: crate::config::FONT_SIZE_MD,
            text: display,
            color: display_col,
        },
    ] + (if f0 && spec_caret_visible(rect.y) {
        seq![
            PaintOpModel::FillRect {
                x: (rect.x + crate::config::SPACING_MD + 9 * t0.len()) as i64,
                y: (rect.y + 12) as i64,
                w: 2,
                h: 20,
                color: theme.colors.text_primary,
            },
        ]
    } else {
        Seq::<PaintOpModel>::empty()
    })
}

/// A single-line text field.  Its buffer and focus flag live in the
/// store under two sibling identities; a press edge toggles or clears
/// focus, and while focused this frame's character edits the buffer.
/// The result is the buffer as the frame began — an edit shows from the
/// next frame on.  The cursor is not advanced.
pub fn text_input(ui: &mut Ui, store: &mut StateStore, m: Modifier, placeholder: &str) -> (out: (
    String,
    Rect,
))
    requires
        old(ui).wf(),
        m.wf(),
        old(ui).widget_id_counter < u64::MAX - 1000,
        placeholder@.len() <= 100000000,
        spec_text_entry_ok(
            *old(store),
            fold_step(
                fold_step(old(store).widget_stack.current, old(ui).widget_id_counter),
                old(ui).widget_id_counter,
            ),
        ),
        spec_flag_entry_ok(
            *old(store),
            fold_step(
                fold_step(old(store).widget_stack.current, old(ui).widget_id_counter),
                (old(ui).widget_id_counter + 1000) as u64,
            ),
        ),
    ensures
        final(ui).wf(),
        ({
            let wid = old(ui).widget_id_counter;
            let cur1 = fold_step(old(store).widget_stack.current, wid);
            let id_t = fold_step(cur1, wid);
            let id_f = fold_step(cur1, (wid + 1000) as u64);
            let e0 = crate::state::entries_of(*old(store));
            let e1 = (if e0.contains_key(id_t) {
                e0
            } else {
                e0.insert(id_t, crate::state::StateValueModel::Text(Seq::<char>::empty()))
            });
            let e2 = (if e1.contains_key(id_f) {
                e1
            } else {
                e1.insert(id_f, crate::state::StateValueModel::Flag(false))
            });
            let t0 = (match e2[id_t] {
                crate::state::StateValueModel::Text(t) => t,
                _ => Seq::<char>::empty(),
            });
            let f0 = (match e2[id_f] {
                crate::state::StateValueModel::Flag(b) => b,
                _ => false,
            });
            let rect = (Rect {
                x: old(ui).cursor.x,
                y: old(ui).cursor.y,
                w: (match m.width {
                    Some(w) => w,
                    None => 200,
                }),
                h: (match m.height {
                    Some(h) => h,
                    None => crate::config::BUTTON_HEIGHT,
                }),
            });
            let hovered = old(ui).spec_is_hovered(rect);
            let jc = old(ui).input.mouse_just_clicked;
            let new_f = spec_focus_after(f0, hovered, jc);
            let e3 = (if jc && (hovered || f0) {
                e2.insert(id_f, crate::state::StateValueModel::Flag(new_f))
            } else {
                e2
            });
            let new_t = spec_text_after(t0, f0, old(ui).input.char_input);
            let e4 = (if new_t == t0 {
                e3
            } else {
                e3.insert(id_t, crate::state::StateValueModel::Text(new_t))
            });
            &&& out.0@ == t0
            &&& out.1 == rect
            &&& crate::state::entries_of(*final(store)) == e4
            &&& final(store).widget_stack.stack@ == old(store).widget_stack.stack@
            &&& final(store).widget_stack.wf()
            &&& final(store).theme == old(store).theme
            &&& final(store).current_index == old(store).current_index
            &&& ops_of(final(ui).cmds) == ops_of(old(ui).cmds) + spec_text_input_ops(
                old(store).theme,
                rect,
                t0,
                f0,
                hovered,
                placeholder@,
            )
            &&& *final(ui) == (Ui {
                widget_id_counter: (old(ui).widget_id_counter + 1) as u64,
                cmds: final(ui).cmds,
                ..*old(ui)
            })
        }),
{
    let widget_id = ui.next_widget_id();
    ui.push_id(store, widget_id);
    proof {
        crate::identity::lemma_fold_step_local_injective(
            store.widget_stack.current,
            widget_id,
            (widget_id + 1000) as u64,
        );
    }

    let text_state = ui.use_state_with_id(store, widget_id, StateValue::Text(String::new()));
    let focus_state = ui.use_state_with_id(
        store,
        widget_id + 1000,
        StateValue::Flag(false),
    );

    let w: i64 = match m.width {
        Some(ww) => ww,
        None => 200,
    };
    let h: i64 = match m.height {
        Some(hh) => hh,
        None => crate::config::BUTTON_HEIGHT,
    };
    let rect = Rect { x: ui.cursor.x, y: ui.cursor.y, w, h };

    let hovered = ui.is_hovered(rect);
    let focused: bool = match focus_state.get(store) {
        StateValue::Flag(b) => b,
        _ => {
            proof {
                assert(false);
            }
            false
        },
    };
    let text: String = match text_state.get(store) {
        StateValue::Text(s) => s,
        _ => {
            proof {
                assert(false);
            }
            String::new()
        },
    };

    // A press edge over the field toggles focus; one anywhere else
    // clears it.
    if hovered && ui.input.mouse_just_clicked {
        focus_state.set(store, StateValue::Flag(!focused));
    }
    if focused && ui.input.mouse_just_clicked && !hovered {
        focus_state.set(store, StateValue::Flag(false));
    }

    // While focused, this frame's character edits the buffer.
    if focused {
        if let Some(ch) = ui.input.char_input {
            let code: u32 = ch as u32;
            if code == 8 {
                let mut new_text = text.clone();
                pop_char(&mut new_text);
                if new_text.unicode_len() != text.unicode_len() {
                    text_state.set(store, StateValue::Text(new_text));
                }
            } else if code >= 32 && code != 127 {
                let mut new_text = text.clone();
                push_char(&mut new_text, ch);
                text_state.set(store, StateValue::Text(new_text));
            }
        }
    }

    let theme = ui.theme(store);
    let bg_col = if focused {
        theme.colors.surface
    } else if hovered {
        theme.colors.surface_hover
    } else {
        theme.colors.surface
    };
    let border_col = if focused {
        theme.colors.primary
    } else if hovered {
        theme.colors.border
    } else {
        theme.colors.border.alpha(100)
    };

    ui.cmds.push(PaintOp::FillRoundedRect {
        x: rect.x,
        y: rect.y,
        w,
        h,
        radius: crate::config::BUTTON_BORDER_RADIUS,
        color: bg_col,
    });
    ui.cmds.push(PaintOp::FillRoundedRect {
        x: rect.x,
        y: rect.y,
        w,
        h,
        radius: crate::config::BUTTON_BORDER_RADIUS,
        color: border_col.alpha(80),
    });

    let text_empty = text.unicode_len() == 0;
    if text_empty && !focused {
        ui.cmds.push(PaintOp::TextRun {
            x: rect.x + crate::config::SPACING_MD,
            y: rect.y + 12,
            size: crate::config::FONT_SIZE_MD,
            text: placeholder.to_owned(),
            color: theme.colors.text_muted,
        });
    } else {
        ui.cmds.push(PaintOp::TextRun {
            x: rect.x + crate::config::SPACING_MD,
            y: rect.y + 12,
            size: crate::config::FONT_SIZE_MD,
            text: text.clone(),
            color: theme.colors.text_primary,
        });
    }

    let mut pushed_caret = false;
    if focused {
        let phase: i64 = (rect.y * 5 + 32941015040) % 6283;
        if phase < 3142 {
            ui.cmds.push(PaintOp::FillRect {
                x: rect.x + crate::config::SPACING_MD + 9 * (text.unicode_len() as i64),
                y: rect.y + 12,
                w: 2,
                h: 20,
                color: theme.colors.text_primary,
            });
            pushed_caret = true;
        }
    }

    ui.pop_id(store);
    proof {
        if pushed_caret {
            assert(ops_of(ui.cmds) =~= ops_of(old(ui).cmds) + seq![
                ui.cmds@[ui.cmds@.len() - 4]@,
                ui.cmds@[ui.cmds@.len() - 3]@,
                ui.cmds@[ui.cmds@.len() - 2]@,
                ui.cmds@[ui.cmds@.len() - 1]@,
            ]);
        } else {
            assert(ops_of(ui.cmds) =~= ops_of(old(ui).cmds) + seq![
                ui.cmds@[ui.cmds@.len() - 3]@,
                ui.cmds@[ui.cmds@.len() - 2]@,
                ui.cmds@[ui.cmds@.len() - 1]@,
            ]);
        }
    }
    (text, rect)
}

/// The command list a scroll container's child starts with: the
/// parent's commands plus the background, if one was given.
pub open spec fn spec_scroll_view_child_cmds(p: Ui, m: Modifier) -> Seq<PaintOpModel> {
    let bx = spec_scroll_view_box(p, m);
    p.cmds@.map_values(|o: PaintOp| o@) + (match m.background {
        Some(b) => seq![
            PaintOpModel::FillRoundedRect {
                x: bx.x,
                y: bx.y,
                w: bx.w,
                h: bx.h,
                radius: crate::config::CARD_BORDER_RADIUS,
                color: b,
            },
        ],
        None => Seq::<PaintOpModel>::empty(),
    })
}

} // verus!
