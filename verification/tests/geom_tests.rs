use dutchman::geom::{floor_div, floor_mod, towards};

#[test]
fn towards_works() {
    assert_eq!(towards(10, 20, 5), 15);
}

#[test]
fn towards_clamps_at_target_from_below() {
    assert_eq!(towards(10, 20, 25), 20);
}

#[test]
fn towards_clamps_at_target_from_above() {
    assert_eq!(towards(20, 10, 25), 10);
}

#[test]
fn towards_at_target_stays() {
    assert_eq!(towards(7, 7, 100), 7);
}

#[test]
fn towards_never_overshoots_when_repeated() {
    let target = 1000;
    let mut v = 0;
    let mut last_gap = target - v;
    for _ in 0..50 {
        v = towards(v, target, 37);
        let gap = target - v;
        assert!(gap >= 0, "overshot the target");
        assert!(gap <= last_gap, "gap grew");
        last_gap = gap;
    }
    assert_eq!(v, 1000);
}

#[test]
fn floor_div_rounds_toward_negative_infinity() {
    assert_eq!(floor_div(7, 2), 3);
    assert_eq!(floor_div(-7, 2), -4);
    assert_eq!(floor_div(-6, 2), -3);
    assert_eq!(floor_div(0, 32000), 0);
    assert_eq!(floor_div(-1, 32000), -1);
}

#[test]
fn floor_mod_is_always_nonnegative() {
    assert_eq!(floor_mod(7, 2), 1);
    assert_eq!(floor_mod(-7, 2), 1);
    assert_eq!(floor_mod(-1, 32000), 31999);
    assert_eq!(floor_mod(64000, 32000), 0);
}
