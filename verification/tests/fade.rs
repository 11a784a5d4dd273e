use overlay_capture::fade::FadeState;

#[test]
fn decay_step_removes_twenty() {
    let mut f = FadeState { decay: 255 };
    f.step();
    assert_eq!(f.decay, 235);
    f.step();
    assert_eq!(f.decay, 215);
}

#[test]
fn decay_step_floors_at_zero() {
    let mut f = FadeState { decay: 15 };
    let alpha: u8 = f.step();
    assert_eq!(alpha, 225);
    assert_eq!(f.decay, 0);
}

#[test]
fn flash_is_opaque_after_capture() {
    let mut f = FadeState::new();
    f.arm();
    assert_eq!(f.decay, 255);
    let alpha: u8 = f.step();
    assert_eq!(alpha, 255);
}

#[test]
fn alpha_climbs_back_near_expiry() {
    let mut f = FadeState { decay: 35 };
    let a1: u8 = f.step();
    assert_eq!(a1, 185);
    assert_eq!(f.decay, 15);
    let a2: u8 = f.step();
    assert_eq!(a2, 225);
    assert_eq!(f.decay, 0);
}

#[test]
fn alpha_clamps_at_midpoint() {
    let mut low = FadeState { decay: 127 };
    assert_eq!(low.step(), 0);
    let mut high = FadeState { decay: 128 };
    assert_eq!(high.step(), 1);
}

#[test]
fn alpha_descends_on_the_high_side() {
    let mut f = FadeState { decay: 255 };
    let mut last: u8 = f.step();
    while f.decay >= 135 {
        let alpha: u8 = f.step();
        assert!(alpha < last);
        last = alpha;
    }
}
