use rustui::AnimatedValue;
use rustui::AnimationState;
use rustui::ScrollState;

#[test]
fn scroll_clamps_both_ways() {
    let mut s = ScrollState::new();
    s.content_height = 500;
    s.viewport_height = 200;
    s.offset = 0;

    // Scrolling far down clamps to content - viewport.
    s.scroll(-1000);
    assert_eq!(s.offset, 300);

    // Scrolling far up clamps back to zero.
    s.scroll(1000);
    assert_eq!(s.offset, 0);
}

#[test]
fn scroll_to_clamps() {
    let mut s = ScrollState::new();
    s.content_height = 500;
    s.viewport_height = 200;
    s.scroll_to(250);
    assert_eq!(s.offset, 250);
    s.scroll_to(9999);
    assert_eq!(s.offset, 300);
    s.scroll_to(-5);
    assert_eq!(s.offset, 0);
}

#[test]
fn can_scroll_only_when_content_overflows() {
    let mut s = ScrollState::new();
    s.content_height = 100;
    s.viewport_height = 200;
    assert!(!s.can_scroll());
    s.content_height = 201;
    assert!(s.can_scroll());
}

#[test]
fn scrollbar_rect_geometry() {
    let mut s = ScrollState::new();
    s.content_height = 400;
    s.viewport_height = 200;
    s.offset = 100;

    // Thumb height is viewport^2 / content = 100; travel is 100; the
    // offset of 100 out of 200 puts the thumb halfway down the travel.
    let thumb = s.scrollbar_rect(10, 20).expect("content overflows");
    assert_eq!(thumb.x, 10);
    assert_eq!(thumb.w, 8);
    assert_eq!(thumb.h, 100);
    assert_eq!(thumb.y, 20 + 50);
}

#[test]
fn scrollbar_thumb_has_minimum_height() {
    let mut s = ScrollState::new();
    s.content_height = 100000;
    s.viewport_height = 200;
    let thumb = s.scrollbar_rect(0, 0).expect("content overflows");
    assert_eq!(thumb.h, 32);
}

#[test]
fn no_scrollbar_when_content_fits() {
    let mut s = ScrollState::new();
    s.content_height = 150;
    s.viewport_height = 200;
    assert!(s.scrollbar_rect(0, 0).is_none());
}

#[test]
fn animation_terminal_and_midpoint_values() {
    // Milli-unit fixed point: 1000 stands for 1.0.
    let a = AnimationState::new(0, 1000, 150, 0);
    assert_eq!(a.value(0), 0);
    assert_eq!(a.value(75), 875); // 1 - 0.5^3 = 0.875
    assert_eq!(a.value(150), 1000);
    assert_eq!(a.value(10_000), 1000);
    assert!(!a.is_complete(149));
    assert!(a.is_complete(150));
}

#[test]
fn animation_descending_values() {
    let a = AnimationState::new(1000, 0, 150, 100);
    assert_eq!(a.value(100), 1000);
    assert_eq!(a.value(175), 125); // 1000 - 875
    assert_eq!(a.value(250), 0);
}

#[test]
fn zero_duration_completes_immediately() {
    let a = AnimationState::new(3, 9, 0, 50);
    assert!(a.is_complete(50));
    assert_eq!(a.value(50), 9);
}

#[test]
fn repeated_identical_requests_do_not_restart() {
    let mut v = AnimatedValue::new(0);
    v.set(1000, 150, 0);
    // Re-requesting the same target 50 ms in must not restart the
    // clock: the sample at 75 ms still reads the first curve.
    v.set(1000, 150, 50);
    assert_eq!(v.update(75), 875);
    assert!(v.is_animating());
    assert_eq!(v.update(150), 1000);
    assert!(!v.is_animating());
    // Once settled at the target, asking for it again starts nothing.
    v.set(1000, 150, 200);
    assert!(!v.is_animating());
}

#[test]
fn retargeting_restarts_from_the_displayed_value() {
    let mut v = AnimatedValue::new(0);
    v.set(1000, 150, 0);
    // Halfway up the fade the target flips: the new curve starts from
    // the value displayed at that moment, 875, not from the old target.
    v.set(0, 150, 75);
    assert_eq!(v.update(75), 875);
    // And it eases down to zero from there.
    assert_eq!(v.update(150), 875 - 875 * 875 / 1000);
    assert_eq!(v.update(225), 0);
}
