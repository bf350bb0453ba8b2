use wirecube::anim::{AnimationState, Message, Plane};
use wirecube::fx::SCALE;
use wirecube::geom::RotationFlags;

#[test]
fn new_state_defaults() {
    let st = AnimationState::new(42);
    assert_eq!(st.last, 42);
    assert_eq!(st.angle, SCALE);
    assert_eq!(st.speed, SCALE);
    assert_eq!(st.flags, RotationFlags { xz: true, yz: false, xy: false });
}

#[test]
fn tick_advances_by_elapsed_times_speed() {
    let mut st = AnimationState::new(1_000);
    st.on_tick(1_500);
    // Half a second at speed 1.0: the angle grows by 0.5.
    assert_eq!(st.angle, SCALE + 500_000);
    assert_eq!(st.last, 1_500);
    assert_eq!(st.speed, SCALE);
}

#[test]
fn repeated_timestamp_contributes_nothing() {
    // Two ticks at t0 then t1 advance by exactly (t1 - t0) * speed,
    // however many ticks at t0 stand in between.
    let mut direct = AnimationState::new(1_000);
    direct.on_tick(2_000);
    direct.on_tick(3_500);

    let mut repeated = AnimationState::new(1_000);
    repeated.on_tick(2_000);
    repeated.on_tick(2_000);
    repeated.on_tick(2_000);
    repeated.on_tick(2_000);
    repeated.on_tick(3_500);

    assert_eq!(direct, repeated);
    // 1.0 (start) + 1.0 (first second) + 1.5 (next) at speed 1.0.
    assert_eq!(direct.angle, 3_500_000);
}

#[test]
fn backward_clock_counts_as_zero_elapsed() {
    let mut st = AnimationState::new(1_000);
    st.on_tick(400);
    assert_eq!(st.angle, SCALE);
    assert_eq!(st.last, 400);
}

#[test]
fn speed_changes_are_unclamped() {
    let mut st = AnimationState::new(0);
    st.increase_speed();
    assert_eq!(st.speed, 2 * SCALE);
    st.decrease_speed();
    st.decrease_speed();
    st.decrease_speed();
    // Past zero and into reverse.
    assert_eq!(st.speed, -SCALE);
    st.on_tick(2_000);
    // Two seconds at speed -1.0 wind the angle back by 2.0.
    assert_eq!(st.angle, SCALE - 2_000_000);
}

#[test]
fn zero_speed_freezes_rotation() {
    let mut st = AnimationState::new(0);
    st.decrease_speed();
    assert_eq!(st.speed, 0);
    st.on_tick(10_000);
    assert_eq!(st.angle, SCALE);
}

#[test]
fn toggle_twice_restores_flags() {
    let mut st = AnimationState::new(0);
    let start = st.flags;
    for plane in [Plane::XZ, Plane::YZ, Plane::XY] {
        st.toggle_plane(plane);
        assert_ne!(st.flags, start);
        st.toggle_plane(plane);
        assert_eq!(st.flags, start);
    }
}

#[test]
fn toggles_are_independent() {
    let mut st = AnimationState::new(0);
    st.toggle_plane(Plane::YZ);
    assert_eq!(st.flags, RotationFlags { xz: true, yz: true, xy: false });
    st.toggle_plane(Plane::XZ);
    assert_eq!(st.flags, RotationFlags { xz: false, yz: true, xy: false });
    st.toggle_plane(Plane::XY);
    assert_eq!(st.flags, RotationFlags { xz: false, yz: true, xy: true });
}

#[test]
fn update_dispatches_all_commands() {
    let mut st = AnimationState::new(0);
    st.update(Message::Tick(250));
    assert_eq!(st.angle, SCALE + 250_000);
    assert_eq!(st.last, 250);
    st.update(Message::IncreaseSpeed);
    assert_eq!(st.speed, 2 * SCALE);
    st.update(Message::DecreaseSpeed);
    assert_eq!(st.speed, SCALE);
    st.update(Message::ToggleYZ);
    assert_eq!(st.flags, RotationFlags { xz: true, yz: true, xy: false });
    st.update(Message::ToggleXZ);
    assert_eq!(st.flags, RotationFlags { xz: false, yz: true, xy: false });
    st.update(Message::ToggleXY);
    assert_eq!(st.flags, RotationFlags { xz: false, yz: true, xy: true });
}

#[test]
fn tick_truncation_rounds_toward_zero() {
    // 1 ms at speed 1.0 is exactly 0.001; at a speed of 0.5 the product
    // 0.0005 is representable too, so pick a speed that forces rounding:
    // 3 ms at speed 1/3-ish is not representable, so use 1 ms at a tiny
    // negative speed instead: -0.0000005 * 0.001 truncates to zero.
    let mut st = AnimationState::new(0);
    st.decrease_speed();
    st.decrease_speed();
    // speed is now -1.0.
    assert_eq!(st.speed, -SCALE);
    let mut tiny = st;
    tiny.speed = -1; // crafted directly: a struct of plain fields
    tiny.on_tick(1);
    // -1 * 1000 / 1_000_000 truncates toward zero: no movement at all.
    assert_eq!(tiny.angle, SCALE);
}
