use rustui::InputState;
use rustui::StateStore;
use rustui::StateValue;
use rustui::Ui;

fn fresh_frame(store: &mut StateStore) -> Ui {
    store.reset_frame();
    Ui::new(800, 600, InputState::default(), 0)
}

#[test]
fn state_persists_across_frames() {
    let mut store = StateStore::new();

    // Frame one: create the entry under explicit id 42 and set it to 7.
    let ui = fresh_frame(&mut store);
    let handle = ui.use_state_with_id(&mut store, 42, StateValue::Num(0));
    handle.set(&mut store, StateValue::Num(7));

    // Frame two: the same id reads back 7, not the initializer.
    let ui = fresh_frame(&mut store);
    let handle = ui.use_state_with_id(&mut store, 42, StateValue::Num(0));
    match handle.get(&store) {
        StateValue::Num(n) => assert_eq!(n, 7),
        _ => panic!("stored kind changed"),
    }
}

#[test]
fn anonymous_slots_follow_call_order() {
    let mut store = StateStore::new();

    let ui = fresh_frame(&mut store);
    let first = ui.use_state(&mut store, StateValue::Num(10));
    let second = ui.use_state(&mut store, StateValue::Num(20));
    first.set(&mut store, StateValue::Num(11));
    second.set(&mut store, StateValue::Num(21));

    // Next frame, the same call order reaches the same slots.
    let ui = fresh_frame(&mut store);
    let first_again = ui.use_state(&mut store, StateValue::Num(10));
    let second_again = ui.use_state(&mut store, StateValue::Num(20));
    assert_eq!(first.id, first_again.id);
    assert_eq!(second.id, second_again.id);
    match first_again.get(&store) {
        StateValue::Num(n) => assert_eq!(n, 11),
        _ => panic!("stored kind changed"),
    }
    match second_again.get(&store) {
        StateValue::Num(n) => assert_eq!(n, 21),
        _ => panic!("stored kind changed"),
    }
}

#[test]
fn set_is_visible_immediately() {
    let mut store = StateStore::new();
    let ui = fresh_frame(&mut store);
    let handle = ui.use_state_with_id(&mut store, 5, StateValue::Flag(false));
    handle.set(&mut store, StateValue::Flag(true));
    match handle.get(&store) {
        StateValue::Flag(b) => assert!(b),
        _ => panic!("stored kind changed"),
    }
}

#[test]
fn update_applies_the_function() {
    let mut store = StateStore::new();
    let ui = fresh_frame(&mut store);
    let handle = ui.use_state_with_id(&mut store, 8, StateValue::Num(40));
    handle.update(&mut store, |v| match v {
        StateValue::Num(n) => StateValue::Num(n + 2),
        other => other,
    });
    match handle.get(&store) {
        StateValue::Num(n) => assert_eq!(n, 42),
        _ => panic!("stored kind changed"),
    }
}

#[test]
fn explicit_ids_survive_reordering() {
    let mut store = StateStore::new();

    let ui = fresh_frame(&mut store);
    let a = ui.use_state_with_id(&mut store, 1, StateValue::Num(100));
    let b = ui.use_state_with_id(&mut store, 2, StateValue::Num(200));
    a.set(&mut store, StateValue::Num(101));
    b.set(&mut store, StateValue::Num(201));

    // Re-acquired in the opposite order, each id still finds its value.
    let ui = fresh_frame(&mut store);
    let b2 = ui.use_state_with_id(&mut store, 2, StateValue::Num(200));
    let a2 = ui.use_state_with_id(&mut store, 1, StateValue::Num(100));
    match b2.get(&store) {
        StateValue::Num(n) => assert_eq!(n, 201),
        _ => panic!("stored kind changed"),
    }
    match a2.get(&store) {
        StateValue::Num(n) => assert_eq!(n, 101),
        _ => panic!("stored kind changed"),
    }
}

#[test]
fn theme_swaps_at_runtime() {
    let mut store = StateStore::new();
    assert_eq!(store.theme.name, "Dark");
    store.theme = rustui::Theme::light();
    assert_eq!(store.theme.name, "Light");
    assert_eq!(store.theme.colors.surface.r, 255);
}
