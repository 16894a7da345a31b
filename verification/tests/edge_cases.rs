use rustui::button;
use rustui::pad;
use rustui::sidebar_item;
use rustui::text_input;
use rustui::Color;
use rustui::InputState;
use rustui::Modifier;
use rustui::PaintOp;
use rustui::StateStore;
use rustui::StateValue;
use rustui::Ui;

fn pointer(x: i64, y: i64) -> InputState {
    let mut input = InputState::default();
    input.mouse_x = x;
    input.mouse_y = y;
    input
}

#[test]
fn identity_scopes_via_the_context() {
    let mut store = StateStore::new();
    let ui = Ui::new(100, 100, InputState::default(), 0);
    ui.push_id(&mut store, 7);
    assert_eq!(ui.make_id(&store, 3), 7 * 31 + 3);
    ui.push_id(&mut store, 9);
    ui.pop_id(&mut store);
    assert_eq!(store.widget_stack.current_id(), 7);
    ui.pop_id(&mut store);
    assert_eq!(store.widget_stack.current_id(), 0);
    // Popping an empty scope stack is harmless.
    ui.pop_id(&mut store);
    assert_eq!(store.widget_stack.current_id(), 0);
    assert_eq!(store.get_widget_id(5), 5);
}

#[test]
fn next_widget_id_counts_up() {
    let mut ui = Ui::new(100, 100, InputState::default(), 0);
    assert_eq!(ui.next_widget_id(), 0);
    assert_eq!(ui.next_widget_id(), 1);
    assert_eq!(ui.widget_id_counter, 2);
}

#[test]
fn degenerate_column_width_clamps_to_zero() {
    let mut store = StateStore::new();
    let mut ui = Ui::new(100, 100, InputState::default(), 0);
    ui.cursor.w = 40;
    // Padding wider than the available width: the children get zero
    // width rather than a negative one.
    let rect = rustui::column(&mut ui, &mut store, pad(50), |c, s| {
        assert_eq!(c.cursor.w, 0);
        (c, s)
    });
    assert_eq!(rect.w, 100); // the padding on both sides remains
    assert_eq!(rect.h, 50); // no content, only the trailing padding
}

#[test]
fn pressed_button_dims_its_fill() {
    let mut input = pointer(70, 20);
    input.mouse_clicked = true;
    let mut store = StateStore::new();
    let mut ui = Ui::new(800, 600, input, 0);
    button(&mut ui, &mut store, Modifier::new(), "OK");
    match &ui.cmds[0] {
        PaintOp::FillRoundedRect { color, .. } => assert_eq!(color.a, 200),
        other => panic!("expected the button fill, got {:?}", other),
    }
}

#[test]
fn sidebar_alpha_tiers() {
    // Active and unhovered: the resting alpha of 60.
    let mut store = StateStore::new();
    let mut ui = Ui::new(800, 600, pointer(700, 500), 0);
    ui.cursor.w = 260;
    sidebar_item(&mut ui, &mut store, "Overview", true);
    match &ui.cmds[0] {
        PaintOp::FillRoundedRect { color, .. } => assert_eq!(color.a, 60),
        other => panic!("expected the row fill, got {:?}", other),
    }

    // Inactive, hovered, fade complete: the hover alpha of 20.
    let mut store = StateStore::new();
    let mut ui = Ui::new(800, 600, pointer(30, 20), 0);
    ui.cursor.w = 260;
    sidebar_item(&mut ui, &mut store, "Overview", false);
    store.reset_frame();
    let mut ui = Ui::new(800, 600, pointer(30, 20), 150);
    ui.cursor.w = 260;
    sidebar_item(&mut ui, &mut store, "Overview", false);
    match &ui.cmds[0] {
        PaintOp::FillRoundedRect { color, .. } => assert_eq!(color.a, 20),
        other => panic!("expected the row fill, got {:?}", other),
    }
}

#[test]
fn caret_blinks_with_vertical_position() {
    // Focus a field whose top sits where the blink phase is on.
    let mut store = StateStore::new();
    let mut input = pointer(10, 10);
    input.mouse_just_clicked = true;
    let mut ui = Ui::new(800, 600, input, 0);
    text_input(&mut ui, &mut store, Modifier::new(), "");

    store.reset_frame();
    let mut ui = Ui::new(800, 600, pointer(10, 10), 0);
    text_input(&mut ui, &mut store, Modifier::new(), "");
    // Surface, border, text, and the caret: the phase at y = 0 is on.
    assert_eq!(ui.cmds.len(), 4);
    assert!(matches!(ui.cmds[3], PaintOp::FillRect { .. }));

    // At y = 629 the phase has crossed the half cycle: no caret.
    store.reset_frame();
    let mut ui = Ui::new(800, 600, pointer(10, 639), 0);
    ui.cursor.y = 629;
    let mut click = pointer(10, 639);
    click.mouse_just_clicked = true;
    let mut ui2 = Ui::new(800, 600, click, 0);
    ui2.cursor.y = 629;
    text_input(&mut ui2, &mut store, Modifier::new(), "");
    store.reset_frame();
    ui.cursor.y = 629;
    text_input(&mut ui, &mut store, Modifier::new(), "");
    assert_eq!(ui.cmds.len(), 3);
}

#[test]
fn placeholder_shows_only_while_empty_and_unfocused() {
    let mut store = StateStore::new();
    let mut ui = Ui::new(800, 600, pointer(700, 500), 0);
    text_input(&mut ui, &mut store, Modifier::new(), "Search...");
    match &ui.cmds[2] {
        PaintOp::TextRun { text, .. } => assert_eq!(text, "Search..."),
        other => panic!("expected the placeholder run, got {:?}", other),
    }
}

#[test]
fn anonymous_and_explicit_ids_do_not_collide_in_practice() {
    let mut store = StateStore::new();
    store.reset_frame();
    let ui = Ui::new(800, 600, InputState::default(), 0);
    let anon = ui.use_state(&mut store, StateValue::Num(1));
    let explicit = ui.use_state_with_id(&mut store, 77, StateValue::Num(2));
    assert_ne!(anon.id, explicit.id);
    match anon.get(&store) {
        StateValue::Num(n) => assert_eq!(n, 1),
        _ => panic!("stored kind changed"),
    }
    match explicit.get(&store) {
        StateValue::Num(n) => assert_eq!(n, 2),
        _ => panic!("stored kind changed"),
    }
}

#[test]
fn light_theme_divider_uses_its_border_tone() {
    let mut store = StateStore::new();
    store.theme = rustui::Theme::light();
    let mut ui = Ui::new(800, 600, InputState::default(), 0);
    rustui::divider(&mut ui, &store);
    match &ui.cmds[0] {
        PaintOp::FillRect { color, .. } => {
            assert_eq!((color.r, color.g, color.b, color.a), (226, 232, 240, 50));
        },
        other => panic!("expected the divider fill, got {:?}", other),
    }
}

#[test]
fn lerp_color_is_exact_at_the_spec_midpoint() {
    // The button fill halfway through a fade between the two primary
    // tones of the dark theme.
    let dark = rustui::Theme::dark();
    let half = Color::lerp(dark.colors.primary, dark.colors.primary_hover, 500);
    // primary (79, 70, 229) toward hover (99, 102, 241).
    assert_eq!((half.r, half.g, half.b), (89, 86, 235));
}
