use rustui::button;
use rustui::divider;
use rustui::scroll_view;
use rustui::sidebar_item;
use rustui::stat_card;
use rustui::sz;
use rustui::text;
use rustui::text_input;
use rustui::Color;
use rustui::InputState;
use rustui::Modifier;
use rustui::PaintOp;
use rustui::Rect;
use rustui::StateStore;
use rustui::Ui;

fn frame_with_input(input: InputState) -> (Ui, StateStore) {
    let mut store = StateStore::new();
    store.reset_frame();
    (Ui::new(800, 600, input, 0), store)
}

fn pointer(x: i64, y: i64) -> InputState {
    let mut input = InputState::default();
    input.mouse_x = x;
    input.mouse_y = y;
    input
}

#[test]
fn button_fires_on_the_press_edge_only() {
    // Pointer at (70, 20) over a button at (0, 0, 140, 40) with a
    // press edge this frame: clicked.
    let mut input = pointer(70, 20);
    input.mouse_clicked = true;
    input.mouse_just_clicked = true;
    let (mut ui, mut store) = frame_with_input(input);
    let (clicked, rect) = button(&mut ui, &mut store, Modifier::new(), "OK");
    assert!(clicked);
    assert_eq!(rect, Rect { x: 0, y: 0, w: 140, h: 40 });

    // Same pointer, button still held from an earlier frame: no edge,
    // no click.
    let mut input = pointer(70, 20);
    input.mouse_clicked = true;
    let (mut ui, mut store) = frame_with_input(input);
    let (clicked, _) = button(&mut ui, &mut store, Modifier::new(), "OK");
    assert!(!clicked);

    // An edge with the pointer outside the rect: no click.
    let mut input = pointer(300, 20);
    input.mouse_just_clicked = true;
    let (mut ui, mut store) = frame_with_input(input);
    let (clicked, _) = button(&mut ui, &mut store, Modifier::new(), "OK");
    assert!(!clicked);
}

#[test]
fn scrolled_hit_test_subtracts_the_offset() {
    // A widget recorded at content Y = 300 inside a container scrolled
    // by 100 is hovered at screen Y = 200, not at screen Y = 300.
    let (mut ui, _) = frame_with_input(pointer(50, 200));
    ui.scroll.content_height = 1000;
    ui.scroll.viewport_height = 400;
    ui.scroll.offset = 100;
    let rect = Rect { x: 0, y: 300, w: 100, h: 40 };
    assert!(ui.is_hovered(rect));

    let (mut ui, _) = frame_with_input(pointer(50, 300));
    ui.scroll.content_height = 1000;
    ui.scroll.viewport_height = 400;
    ui.scroll.offset = 100;
    assert!(!ui.is_hovered(rect));
}

#[test]
fn clip_rect_blocks_hover() {
    let (mut ui, _) = frame_with_input(pointer(70, 20));
    ui.clip_rect = Some(Rect { x: 0, y: 0, w: 50, h: 50 });
    let rect = Rect { x: 0, y: 0, w: 140, h: 40 };
    assert!(!ui.is_hovered(rect));
    // The absolute test ignores the clip.
    assert!(ui.is_hovered_absolute(rect));
}

#[test]
fn hover_is_inclusive_on_edges() {
    let (ui, _) = frame_with_input(pointer(140, 40));
    assert!(ui.is_hovered(Rect { x: 0, y: 0, w: 140, h: 40 }));
    let (ui, _) = frame_with_input(pointer(141, 40));
    assert!(!ui.is_hovered(Rect { x: 0, y: 0, w: 140, h: 40 }));
}

#[test]
fn button_hover_animation_progresses_over_frames() {
    let mut store = StateStore::new();

    // Frame at t=0: hovered, the fade starts at 0.
    store.reset_frame();
    let mut ui = Ui::new(800, 600, pointer(70, 20), 0);
    button(&mut ui, &mut store, Modifier::new(), "OK");
    let first_fill = match &ui.cmds[0] {
        PaintOp::FillRoundedRect { color, .. } => *color,
        other => panic!("expected the button fill, got {:?}", other),
    };

    // Frame at t=150: the fade is complete, the fill reached the
    // hover tone.
    store.reset_frame();
    let mut ui = Ui::new(800, 600, pointer(70, 20), 150);
    button(&mut ui, &mut store, Modifier::new(), "OK");
    let settled_fill = match &ui.cmds[0] {
        PaintOp::FillRoundedRect { color, .. } => *color,
        other => panic!("expected the button fill, got {:?}", other),
    };

    let dark = rustui::Theme::dark();
    assert_eq!(first_fill, dark.colors.primary);
    assert_eq!(settled_fill, dark.colors.primary_hover);
}

#[test]
fn plus_label_draws_the_icon() {
    let (mut ui, mut store) = frame_with_input(InputState::default());
    button(&mut ui, &mut store, sz(40, 40), "+");
    assert!(matches!(ui.cmds[1], PaintOp::IconPlus { .. }));
}

#[test]
fn text_input_gains_focus_and_buffers_typed_text() {
    let mut store = StateStore::new();

    // Frame one: click inside the field to focus it.
    store.reset_frame();
    let mut input = pointer(10, 10);
    input.mouse_just_clicked = true;
    let mut ui = Ui::new(800, 600, input, 0);
    let (shown, rect) = text_input(&mut ui, &mut store, Modifier::new(), "Search");
    assert_eq!(shown, "");
    assert_eq!(rect, Rect { x: 0, y: 0, w: 200, h: 40 });

    // Frame two: a character arrives; the shown text is still the old
    // buffer, the store now holds "a".
    store.reset_frame();
    let mut input = pointer(10, 10);
    input.char_input = Some('a');
    let mut ui = Ui::new(800, 600, input, 0);
    let (shown, _) = text_input(&mut ui, &mut store, Modifier::new(), "Search");
    assert_eq!(shown, "");

    // Frame three: the buffer reads back.
    store.reset_frame();
    let mut ui = Ui::new(800, 600, pointer(10, 10), 0);
    let (shown, _) = text_input(&mut ui, &mut store, Modifier::new(), "Search");
    assert_eq!(shown, "a");

    // Frame four: backspace removes it.
    store.reset_frame();
    let mut input = pointer(10, 10);
    input.char_input = Some('\u{8}');
    let mut ui = Ui::new(800, 600, input, 0);
    text_input(&mut ui, &mut store, Modifier::new(), "Search");

    store.reset_frame();
    let mut ui = Ui::new(800, 600, pointer(10, 10), 0);
    let (shown, _) = text_input(&mut ui, &mut store, Modifier::new(), "Search");
    assert_eq!(shown, "");
}

#[test]
fn text_input_loses_focus_on_outside_click() {
    let mut store = StateStore::new();

    // Focus it.
    store.reset_frame();
    let mut input = pointer(10, 10);
    input.mouse_just_clicked = true;
    let mut ui = Ui::new(800, 600, input, 0);
    text_input(&mut ui, &mut store, Modifier::new(), "");

    // Click far away; then typed characters are ignored.
    store.reset_frame();
    let mut input = pointer(700, 500);
    input.mouse_just_clicked = true;
    let mut ui = Ui::new(800, 600, input, 0);
    text_input(&mut ui, &mut store, Modifier::new(), "");

    store.reset_frame();
    let mut input = pointer(700, 500);
    input.char_input = Some('x');
    let mut ui = Ui::new(800, 600, input, 0);
    let (shown, _) = text_input(&mut ui, &mut store, Modifier::new(), "");
    assert_eq!(shown, "");

    store.reset_frame();
    let mut ui = Ui::new(800, 600, pointer(10, 10), 0);
    let (shown, _) = text_input(&mut ui, &mut store, Modifier::new(), "");
    assert_eq!(shown, "");
}

#[test]
fn control_characters_are_ignored() {
    let mut store = StateStore::new();

    store.reset_frame();
    let mut input = pointer(10, 10);
    input.mouse_just_clicked = true;
    let mut ui = Ui::new(800, 600, input, 0);
    text_input(&mut ui, &mut store, Modifier::new(), "");

    store.reset_frame();
    let mut input = pointer(10, 10);
    input.char_input = Some('\u{7f}');
    let mut ui = Ui::new(800, 600, input, 0);
    text_input(&mut ui, &mut store, Modifier::new(), "");

    store.reset_frame();
    let mut ui = Ui::new(800, 600, pointer(10, 10), 0);
    let (shown, _) = text_input(&mut ui, &mut store, Modifier::new(), "");
    assert_eq!(shown, "");
}

#[test]
fn sidebar_item_clicks_and_occupies_the_row() {
    let mut input = pointer(30, 20);
    input.mouse_just_clicked = true;
    let (mut ui, mut store) = frame_with_input(input);
    ui.cursor.w = 260;
    let (clicked, rect) = sidebar_item(&mut ui, &mut store, "Overview", false);
    assert!(clicked);
    assert_eq!(rect, Rect { x: 0, y: 0, w: 260, h: 45 });
    assert_eq!(ui.cmds.len(), 2);
}

#[test]
fn stat_card_records_its_five_commands() {
    let (mut ui, mut store) = frame_with_input(InputState::default());
    let rect = stat_card(&mut ui, &mut store, "REVENUE", "$ 12K", Color { r: 16, g: 185, b: 129, a: 255 });
    assert_eq!(rect, Rect { x: 0, y: 0, w: 260, h: 120 });
    assert!(matches!(ui.cmds[0], PaintOp::Shadow { .. }));
    assert!(matches!(ui.cmds[1], PaintOp::FillRoundedRect { .. }));
    assert!(matches!(ui.cmds[2], PaintOp::TextRun { .. }));
    assert!(matches!(ui.cmds[3], PaintOp::TextRun { .. }));
    assert!(matches!(ui.cmds[4], PaintOp::IconChart { .. }));
}

#[test]
fn text_widgets_report_their_extent() {
    let (mut ui, store) = frame_with_input(InputState::default());
    let rect = text(&mut ui, &store, "hello");
    assert_eq!(rect.w, 45); // five characters at half the 18-pixel size
    assert_eq!(rect.h, 26);
    match &ui.cmds[0] {
        PaintOp::TextRun { text, size, .. } => {
            assert_eq!(text, "hello");
            assert_eq!(*size, 18);
        },
        other => panic!("expected a text run, got {:?}", other),
    }
}

#[test]
fn divider_spans_the_available_width() {
    let (mut ui, store) = frame_with_input(InputState::default());
    ui.cursor.w = 260;
    let rect = divider(&mut ui, &store);
    assert_eq!(rect, Rect { x: 0, y: 0, w: 260, h: 1 });
}

#[test]
fn scroll_view_measures_content_and_draws_the_scrollbar() {
    let (mut ui, mut store) = frame_with_input(InputState::default());
    let rect = scroll_view(&mut ui, &mut store, sz(400, 200).p(0), |mut c, s| {
        // The content reaches 500 pixels down from the viewport top.
        c.max_y_seen = c.cursor.y + 500;
        (c, s)
    });
    assert_eq!(rect, Rect { x: 0, y: 0, w: 400, h: 200 });
    assert_eq!(ui.scroll.content_height, 500);
    assert_eq!(ui.scroll.viewport_height, 200);
    // The container consumes vertical space in its parent.
    assert_eq!(ui.cursor.y, 200);
    assert_eq!(ui.max_x_seen, 400);
    // Content overflows, so a thumb and a track were recorded.
    assert_eq!(ui.cmds.len(), 2);
    assert!(matches!(ui.cmds[0], PaintOp::FillRoundedRect { .. }));
    assert!(matches!(ui.cmds[1], PaintOp::FillRect { .. }));
}

#[test]
fn scrollbar_drag_state_machine() {
    // Content 400 in a 200 viewport: thumb is 100 tall at the track
    // top.  A press edge on the thumb starts the drag.
    let mut input = pointer(395, 50);
    input.mouse_clicked = true;
    input.mouse_just_clicked = true;
    let (mut ui, store) = frame_with_input(input);
    ui.scroll.content_height = 400;
    ui.scroll.viewport_height = 200;
    ui.draw_scrollbar(&store, 392, 0);
    assert!(ui.scroll.is_dragging);
    assert_eq!(ui.scroll.drag_start_y, 50);
    assert_eq!(ui.scroll.drag_start_offset, 0);

    // Pointer travel of 50 over a 100-pixel travel range maps onto
    // half the 200-pixel scrollable range.
    let mut moved = ui.scroll;
    let mut input = pointer(395, 100);
    input.mouse_clicked = true;
    let (mut ui, store) = frame_with_input(input);
    moved.is_hovered = false;
    ui.scroll = moved;
    ui.draw_scrollbar(&store, 392, 0);
    assert!(ui.scroll.is_dragging);
    assert_eq!(ui.scroll.offset, 100);

    // Releasing the button ends the drag wherever the pointer is.
    let carried = ui.scroll;
    let (mut ui, store) = frame_with_input(pointer(10, 400));
    ui.scroll = carried;
    ui.draw_scrollbar(&store, 392, 0);
    assert!(!ui.scroll.is_dragging);
}

#[test]
fn wheel_scrolls_only_while_hovered() {
    let (mut ui, _) = frame_with_input(InputState::default());
    ui.scroll.content_height = 500;
    ui.scroll.viewport_height = 200;
    ui.scroll.is_hovered = true;
    ui.input.scroll_delta = -40;
    ui.handle_scroll();
    assert_eq!(ui.scroll.offset, 40);

    ui.scroll.is_hovered = false;
    ui.handle_scroll();
    assert_eq!(ui.scroll.offset, 80 - 40); // unchanged
}
