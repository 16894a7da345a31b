use rustui::bg;
use rustui::card;
use rustui::pad;
use rustui::row;
use rustui::sz;
use rustui::InputState;
use rustui::Modifier;
use rustui::PaintOp;
use rustui::Rect;
use rustui::StateStore;
use rustui::Ui;

fn frame() -> (Ui, StateStore) {
    let mut store = StateStore::new();
    store.reset_frame();
    (Ui::new(800, 600, InputState::default(), 0), store)
}

#[test]
fn auto_sized_column_measures_its_child() {
    let (mut ui, mut store) = frame();
    // Padding 10, one explicitly 40-pixel-tall child: the column
    // resolves to 40 + trailing padding 10 = 50.
    let rect = rustui::column(&mut ui, &mut store, pad(10), |mut c, mut s| {
        rustui::column(&mut c, &mut s, sz(100, 40), |ci, si| (ci, si));
        (c, s)
    });
    assert_eq!(rect.h, 50);
    assert_eq!(rect.x, 0);
    assert_eq!(rect.y, 0);
    // The parent cursor advanced by the resolved height.
    assert_eq!(ui.cursor.y, 50);
}

#[test]
fn explicit_column_height_wins() {
    let (mut ui, mut store) = frame();
    let rect = rustui::column(&mut ui, &mut store, Modifier::new().s(120, 80), |c, s| (c, s));
    assert_eq!(rect.h, 80);
    assert_eq!(rect.w, 120);
    assert_eq!(ui.cursor.y, 80);
}

#[test]
fn column_children_get_indented_cursor() {
    let (mut ui, mut store) = frame();
    ui.cursor.x = 100;
    ui.cursor.y = 30;
    rustui::column(&mut ui, &mut store, pad(10), |c, s| {
        assert_eq!(c.cursor.x, 110);
        assert_eq!(c.cursor.y, 40);
        (c, s)
    });
}

#[test]
fn auto_sized_background_is_painted_after_content() {
    let (mut ui, mut store) = frame();
    rustui::column(
        &mut ui,
        &mut store,
        bg(rustui::Color { r: 1, g: 2, b: 3, a: 255 }).p(5),
        |mut c, s| {
            c.cmds.push(PaintOp::FillRect { x: 0, y: 0, w: 1, h: 1, color: rustui::Color {
                r: 9,
                g: 9,
                b: 9,
                a: 255,
            } });
            (c, s)
        },
    );
    // The content's command comes first; the column background follows
    // it, because an auto-sized box is only known after the content ran.
    assert_eq!(ui.cmds.len(), 2);
    assert!(matches!(ui.cmds[0], PaintOp::FillRect { .. }));
    match &ui.cmds[1] {
        PaintOp::FillRoundedRect { color, radius, .. } => {
            assert_eq!(color.r, 1);
            assert_eq!(*radius, 0);
        },
        other => panic!("expected the background fill, got {:?}", other),
    }
}

#[test]
fn row_takes_the_widest_child() {
    let (mut ui, mut store) = frame();
    let rect = row(&mut ui, &mut store, Modifier::new(), |mut c, mut s| {
        rustui::column(&mut c, &mut s, sz(30, 20), |ci, si| (ci, si));
        (c, s)
    });
    assert_eq!(rect.w, 30);
    assert_eq!(rect.h, 20);
    assert_eq!(ui.cursor.y, 20);
}

#[test]
fn card_has_fixed_box_and_paints_before_content() {
    let (mut ui, mut store) = frame();
    ui.cursor.x = 10;
    ui.cursor.y = 20;
    let rect = card(&mut ui, &mut store, sz(200, 60).p(15), |c, s| {
        // The card insets its child by the fixed card padding.
        assert_eq!(c.cursor.x, 10 + 16);
        assert_eq!(c.cursor.y, 20 + 16);
        (c, s)
    });
    assert_eq!(rect, Rect { x: 10, y: 20, w: 200, h: 60 });
    // Shadow first, then the rounded surface, both before any content.
    assert!(matches!(ui.cmds[0], PaintOp::Shadow { .. }));
    assert!(matches!(ui.cmds[1], PaintOp::FillRoundedRect { .. }));
    // A card is a vertical container: the parent cursor advances by its
    // height and its box lands in the extent accumulators.
    assert_eq!(ui.cursor.y, 80);
    assert_eq!(ui.cursor.x, 10);
    assert_eq!(ui.max_y_seen, 80);
    assert_eq!(ui.max_x_seen, 210);
}

#[test]
fn nested_scopes_keep_the_store_stack_balanced() {
    let (mut ui, mut store) = frame();
    rustui::column(&mut ui, &mut store, pad(0), |mut c, mut s| {
        row(&mut c, &mut s, pad(0), |ci, si| (ci, si));
        (c, s)
    });
    assert_eq!(store.widget_stack.current_id(), 0);
}

#[test]
fn widget_ordinals_flow_through_children() {
    let (mut ui, mut store) = frame();
    rustui::column(&mut ui, &mut store, pad(0), |mut c, mut s| {
        assert_eq!(c.widget_id_counter, 1);
        rustui::column(&mut c, &mut s, pad(0), |ci, si| (ci, si));
        assert_eq!(c.widget_id_counter, 2);
        (c, s)
    });
    assert_eq!(ui.widget_id_counter, 2);
}
