use kinetic_game::player::{
    contains_entity, grapple_casts, grapple_update, is_floored, plan_movement, ButtonEdges,
    MovementKeys,
};

fn keys(forward: bool, back: bool, left: bool, right: bool, jump: bool) -> MovementKeys {
    MovementKeys { forward, back, left, right, jump }
}

fn edges(pressed: bool, just_pressed: bool, just_released: bool) -> ButtonEdges {
    ButtonEdges { pressed, just_pressed, just_released }
}

#[test]
fn forward_on_ground_walks() {
    let p = plan_movement(keys(true, false, false, false, false), true, 2.0f32, 1.0f32, 20.0f32);
    assert_eq!(p.input_x, 0);
    assert_eq!(p.input_z, -1);
    assert_eq!(p.linear_damping_tenths, 50);
    assert_eq!(p.push_speed, Some(2.0));
    assert_eq!(p.jump_impulse, None);
}

#[test]
fn back_and_right_in_air() {
    let p = plan_movement(keys(false, true, false, true, false), false, 2.0f32, 1.0f32, 20.0f32);
    assert_eq!(p.input_x, 1);
    assert_eq!(p.input_z, 1);
    assert_eq!(p.linear_damping_tenths, 5);
    assert_eq!(p.push_speed, Some(1.0));
}

#[test]
fn left_is_negative_x() {
    let p = plan_movement(keys(false, false, true, false, false), true, 2, 1, 20);
    assert_eq!(p.input_x, -1);
    assert_eq!(p.input_z, 0);
}

#[test]
fn opposite_keys_cancel() {
    let p = plan_movement(keys(true, true, true, true, false), true, 2, 1, 20);
    assert_eq!(p.input_x, 0);
    assert_eq!(p.input_z, 0);
    assert_eq!(p.push_speed, None);
}

#[test]
fn jump_only_from_ground() {
    let ground = plan_movement(keys(false, false, false, false, true), true, 2, 1, 20);
    assert_eq!(ground.jump_impulse, Some(20));
    assert_eq!(ground.push_speed, None);
    let air = plan_movement(keys(false, false, false, false, true), false, 2, 1, 20);
    assert_eq!(air.jump_impulse, None);
}

#[test]
fn no_keys_no_push() {
    let p = plan_movement(keys(false, false, false, false, false), false, 2, 1, 20);
    assert_eq!(p.push_speed, None);
    assert_eq!(p.jump_impulse, None);
    assert_eq!(p.linear_damping_tenths, 5);
}

#[test]
fn contains_finds_entities() {
    let v = vec![3u64, 7, 9];
    assert!(contains_entity(&v, 7));
    assert!(!contains_entity(&v, 8));
    assert!(!contains_entity(&Vec::new(), 8));
}

#[test]
fn floored_only_on_ground_hit() {
    let grounds = vec![10u64, 11];
    assert!(is_floored(Some(11), &grounds));
    assert!(!is_floored(Some(12), &grounds));
    assert!(!is_floored(None, &grounds));
}

#[test]
fn grapple_casts_on_press_only() {
    assert!(grapple_casts(edges(true, true, false)));
    assert!(!grapple_casts(edges(true, false, false)));
    assert!(!grapple_casts(edges(false, true, true)));
}

#[test]
fn grapple_press_hit_anchors_and_pulls() {
    let r = grapple_update(None, edges(true, true, false), Some(5));
    assert_eq!(r.anchor, Some(5));
    assert!(r.pull);
}

#[test]
fn grapple_press_miss_keeps_anchor() {
    let r = grapple_update(Some(4), edges(true, true, false), None);
    assert_eq!(r.anchor, Some(4));
    assert!(r.pull);
    let r = grapple_update(None::<i32>, edges(true, true, false), None);
    assert_eq!(r.anchor, None);
    assert!(!r.pull);
}

#[test]
fn grapple_release_drops_anchor() {
    let r = grapple_update(Some(4), edges(false, false, true), Some(9));
    assert_eq!(r.anchor, None);
    assert!(!r.pull);
}

#[test]
fn grapple_hold_keeps_pulling() {
    let r = grapple_update(Some(4), edges(true, false, false), Some(9));
    assert_eq!(r.anchor, Some(4));
    assert!(r.pull);
}

#[test]
fn grapple_idle_keeps_anchor_without_pull() {
    let r = grapple_update(Some(4), edges(false, false, false), None);
    assert_eq!(r.anchor, Some(4));
    assert!(!r.pull);
}
