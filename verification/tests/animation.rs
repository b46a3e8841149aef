use seltrack::anim::{
    anim_width, anim_x, expand_trigger, shrink_trigger, AnimationController, ANIM_STEPS,
};
use seltrack::tracker::{TRIGGER_PARAGRAPH_WIDTH, TRIGGER_SELECTION_WIDTH};

#[test]
fn starting_a_second_animation_invalidates_the_first() {
    // An animation applies a frame only while its token is current; the
    // second start makes the first token stale, so the first animation
    // stops at its next frame check.
    let mut c = AnimationController::new();
    let t1 = c.begin();
    assert!(c.is_current(t1));

    let t2 = c.begin();
    assert!(!c.is_current(t1));
    assert!(c.is_current(t2));
}

#[test]
fn tokens_are_monotonic() {
    let mut c = AnimationController::new();
    let t1 = c.begin();
    let t2 = c.begin();
    let t3 = c.begin();
    assert!(t1 < t2 && t2 < t3);
    assert!(!c.is_current(t1) && !c.is_current(t2) && c.is_current(t3));
}

#[test]
fn expand_and_shrink_target_the_fixed_widths() {
    let mut c = AnimationController::new();
    let (t_expand, w_expand) = expand_trigger(&mut c);
    assert_eq!(w_expand, TRIGGER_SELECTION_WIDTH);
    assert!(c.is_current(t_expand));

    let (t_shrink, w_shrink) = shrink_trigger(&mut c);
    assert_eq!(w_shrink, TRIGGER_PARAGRAPH_WIDTH);
    assert!(c.is_current(t_shrink));
    assert!(!c.is_current(t_expand));
}

#[test]
fn easing_lands_exactly_on_the_target() {
    assert_eq!(anim_width(400, 1600, ANIM_STEPS), 1600);
    assert_eq!(anim_width(1600, 400, ANIM_STEPS), 400);
    assert_eq!(anim_width(700, 700, ANIM_STEPS), 700);
}

#[test]
fn easing_exact_values() {
    // From 400 to 1600 (distance 1200), the eased numerators over 64 are
    // 15, 28, 39, 48, 55, 60, 63, 64.
    let expected = [681, 925, 1131, 1300, 1431, 1525, 1581, 1600];
    for (idx, want) in expected.iter().enumerate() {
        let i = (idx + 1) as u64;
        assert_eq!(anim_width(400, 1600, i), *want, "step {}", i);
    }
}

#[test]
fn easing_never_overshoots() {
    let mut last = 1600;
    for i in 1..=ANIM_STEPS {
        let w = anim_width(1600, 400, i);
        assert!((400..=1600).contains(&w));
        assert!(w <= last, "shrinking is monotone in this run");
        last = w;
    }
}

#[test]
fn frames_recenter_symmetrically() {
    // Growing by 282 centi-units shifts the left edge by half of that.
    assert_eq!(anim_x(10000, 400, 682), 10000 - 141);
    // Shrinking moves the edge the other way.
    assert_eq!(anim_x(10000, 1600, 400), 10000 + 600);
    // No width change leaves the edge alone.
    assert_eq!(anim_x(10000, 800, 800), 10000);
}
