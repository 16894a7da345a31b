use rustui::WidgetIdStack;

#[test]
fn identity_stable_across_frames() {
    // The same push sequence [A, B] then make_id(C) yields the same
    // value in two independent frames.
    let mut first = WidgetIdStack::new();
    first.push(11);
    first.push(22);
    let id_frame_one = first.make_id(33);

    let mut second = WidgetIdStack::new();
    second.push(11);
    second.push(22);
    let id_frame_two = second.make_id(33);

    assert_eq!(id_frame_one, id_frame_two);

    // Resetting and replaying the calls reproduces the identity too.
    first.reset();
    first.push(11);
    first.push(22);
    assert_eq!(first.make_id(33), id_frame_one);
}

#[test]
fn identity_diverges_on_sibling_order() {
    let mut ab = WidgetIdStack::new();
    ab.push(1);
    ab.push(2);
    let mut ba = WidgetIdStack::new();
    ba.push(2);
    ba.push(1);
    assert_ne!(ab.current_id(), ba.current_id());
    assert_ne!(ab.make_id(3), ba.make_id(3));
}

#[test]
fn make_id_folds_multiplicatively() {
    let mut st = WidgetIdStack::new();
    assert_eq!(st.make_id(42), 42);
    st.push(1);
    assert_eq!(st.current_id(), 1);
    assert_eq!(st.make_id(2), 1 * 31 + 2);
    st.push(2);
    assert_eq!(st.current_id(), 33);
    assert_eq!(st.make_id(7), 33 * 31 + 7);
}

#[test]
fn pop_recomputes_the_fold() {
    let mut st = WidgetIdStack::new();
    st.push(5);
    st.push(7);
    assert_eq!(st.current_id(), 5 * 31 + 7);
    assert_eq!(st.pop(), Some(7));
    assert_eq!(st.current_id(), 5);
    assert_eq!(st.pop(), Some(5));
    assert_eq!(st.current_id(), 0);
    assert_eq!(st.pop(), None);
    assert_eq!(st.current_id(), 0);
}

#[test]
fn reset_clears_the_path() {
    let mut st = WidgetIdStack::new();
    st.push(9);
    st.push(10);
    st.reset();
    assert_eq!(st.current_id(), 0);
    assert_eq!(st.make_id(4), 4);
}
