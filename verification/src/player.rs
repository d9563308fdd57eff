//! The player's movement and grappling hook: how this frame's keys and mouse
//! buttons, the ground under the player and the result of the hook's aim
//! become impulses and an anchor.

use vstd::prelude::*;

verus! {

/// The movement keys held this frame.
#[derive(Clone, Copy, Debug, PartialEq, Eq, Structural)]
pub struct MovementKeys {
    pub forward: bool,
    pub back: bool,
    pub left: bool,
    pub right: bool,
    pub jump: bool,
}

/// A mouse button's state this frame.
#[derive(Clone, Copy, Debug, PartialEq, Eq, Structural)]
pub struct ButtonEdges {
    /// Held down.
    pub pressed: bool,
    /// Went down this frame.
    pub just_pressed: bool,
    /// Came up this frame.
    pub just_released: bool,
}

/// What the player's body is to do this frame. `S` is the engine's scalar.
#[derive(Debug)]
pub struct MovementPlan<S> {
    /// The sideways input: -1 to the left, 1 to the right, 0 for none.
    pub input_x: i8,
    /// The lengthwise input in the engine's axes: -1 forward, 1 back, 0 for none.
    pub input_z: i8,
    /// The body's linear damping, in tenths.
    pub linear_damping_tenths: u32,
    /// The speed to push along the input direction, where there is input.
    pub push_speed: Option<S>,
    /// The upward impulse of a jump, where the player jumps.
    pub jump_impulse: Option<S>,
}

/// What the grappling hook holds after this frame, and whether it pulls.
#[derive(Debug)]
pub struct GrappleOutcome<A> {
    /// The point the hook is fixed to, if any.
    pub anchor: Option<A>,
    /// Whether the hook pulls the player towards the anchor this frame.
    pub pull: bool,
}

/// An input axis from the key that pushes it down and the key that pushes it
/// up: the two together cancel.
pub open spec fn axis(down: bool, up: bool) -> int {
    (if up { 1int } else { 0int }) - (if down { 1int } else { 0int })
}

/// The plan for one frame: the input axes from the keys; on the ground a
/// damping of 5 and the walking speed, in the air a damping of 0.5 and the
/// air speed; a jump only on the ground.
pub open spec fn spec_plan_movement<S>(keys: MovementKeys, floored: bool, move_speed: S, air_speed: S, jump_force: S) -> MovementPlan<S> {
    let x = axis(keys.left, keys.right);
    let z = axis(keys.forward, keys.back);
    MovementPlan {
        input_x: x as i8,
        input_z: z as i8,
        linear_damping_tenths: if floored { 50 } else { 5 },
        push_speed: if x != 0 || z != 0 { Some(if floored { move_speed } else { air_speed }) } else { None },
        jump_impulse: if keys.jump && floored { Some(jump_force) } else { None },
    }
}

fn axis_value(down: bool, up: bool) -> (v: i8)
    ensures
        v == axis(down, up),
{
    let mut v: i8 = 0;
    if down {
        v = v - 1;
    }
    if up {
        v = v + 1;
    }
    v
}

/// This frame's movement decisions from the keys, whether the player stands
/// on the ground, and the player's speeds and jump force.
pub fn plan_movement<S: Copy>(keys: MovementKeys, floored: bool, move_speed: S, air_speed: S, jump_force: S) -> (plan: MovementPlan<S>)
    ensures
        plan == spec_plan_movement(keys, floored, move_speed, air_speed, jump_force),
{
    let x = axis_value(keys.left, keys.right);
    let z = axis_value(keys.forward, keys.back);
    let linear_damping_tenths: u32 = if floored { 50 } else { 5 };
    let push_speed = if x != 0 || z != 0 {
        Some(if floored { move_speed } else { air_speed })
    } else {
        None
    };
    let jump_impulse = if keys.jump && floored { Some(jump_force) } else { None };
    MovementPlan { input_x: x, input_z: z, linear_damping_tenths, push_speed, jump_impulse }
}

/// Whether `v` holds the entity `e`.
pub fn contains_entity(v: &Vec<u64>, e: u64) -> (b: bool)
    ensures
        b == v@.contains(e),
{
    let mut i: usize = 0;
    while i < v.len()
        invariant
            i <= v.len(),
            forall|j: int| 0 <= j < i ==> v@[j] != e,
        decreases v.len() - i,
    {
        if v[i] == e {
            assert(v@[i as int] == e);
            return true;
        }
        i = i + 1;
    }
    false
}

/// The player stands on the ground where the short ray cast down from it hits
/// an entity, and that entity is ground.
pub fn is_floored(hit: Option<u64>, grounds: &Vec<u64>) -> (b: bool)
    ensures
        b == (hit matches Some(e) && grounds@.contains(e)),
{
    match hit {
        Some(e) => contains_entity(grounds, e),
        None => false,
    }
}

/// Whether the hook aims this frame: the button went down and did not come up.
pub open spec fn spec_grapple_casts(b: ButtonEdges) -> bool {
    !b.just_released && b.just_pressed
}

/// Whether the hook is to cast its ray this frame.
pub fn grapple_casts(b: ButtonEdges) -> (r: bool)
    ensures
        r == spec_grapple_casts(b),
{
    !b.just_released && b.just_pressed
}

/// The hook after this frame, from the anchor it held, the button, and what
/// its ray hit where it cast one. Releasing the button drops the anchor; a
/// cast that hits moves the anchor to the hit, one that misses keeps it; the
/// hook pulls while the button is held and it has an anchor.
pub open spec fn spec_grapple_update<A>(anchor: Option<A>, b: ButtonEdges, hit: Option<A>) -> GrappleOutcome<A> {
    if b.just_released {
        GrappleOutcome { anchor: None, pull: false }
    } else {
        let next = if b.just_pressed && hit is Some { hit } else { anchor };
        GrappleOutcome { anchor: next, pull: b.pressed && next is Some }
    }
}

/// The hook's anchor and pull for this frame. `hit` is read only where
/// `grapple_casts(b)` holds.
pub fn grapple_update<A>(anchor: Option<A>, b: ButtonEdges, hit: Option<A>) -> (r: GrappleOutcome<A>)
    ensures
        r == spec_grapple_update(anchor, b, hit),
{
    if b.just_released {
        return GrappleOutcome { anchor: None, pull: false };
    }
    let next = if b.just_pressed {
        match hit {
            Some(h) => Some(h),
            None => anchor,
        }
    } else {
        anchor
    };
    let pull = b.pressed && next.is_some();
    GrappleOutcome { anchor: next, pull }
}

/// Holding both keys of an axis is holding neither; every axis is -1, 0 or 1.
pub proof fn lemma_opposite_keys_cancel<S>(keys: MovementKeys, floored: bool, move_speed: S, air_speed: S, jump_force: S)
    ensures
        ({
            let plan = spec_plan_movement(keys, floored, move_speed, air_speed, jump_force);
            &&& -1 <= plan.input_x <= 1
            &&& -1 <= plan.input_z <= 1
            &&& keys.forward == keys.back ==> plan.input_z == 0
            &&& keys.left == keys.right ==> plan.input_x == 0
        }),
{
}

/// The player jumps only from the ground, and in the air moves only at the
/// air speed.
pub proof fn lemma_no_air_jump<S>(keys: MovementKeys, move_speed: S, air_speed: S, jump_force: S)
    ensures
        spec_plan_movement(keys, false, move_speed, air_speed, jump_force).jump_impulse is None,
        spec_plan_movement(keys, false, move_speed, air_speed, jump_force).push_speed matches Some(s) ==> s == air_speed,
        spec_plan_movement(keys, false, move_speed, air_speed, jump_force).linear_damping_tenths < spec_plan_movement(keys, true, move_speed, air_speed, jump_force).linear_damping_tenths,
{
}

/// The hook pulls only towards an anchor, never in the frame its button comes
/// up; releasing always drops the anchor; and without a cast the anchor is
/// what it was.
pub proof fn lemma_grapple_laws<A>(anchor: Option<A>, b: ButtonEdges, hit: Option<A>)
    ensures
        spec_grapple_update(anchor, b, hit).pull ==> spec_grapple_update(anchor, b, hit).anchor is Some && b.pressed,
        b.just_released ==> spec_grapple_update(anchor, b, hit).anchor is None && !spec_grapple_update(anchor, b, hit).pull,
        !spec_grapple_casts(b) && !b.just_released ==> spec_grapple_update(anchor, b, hit).anchor == anchor,
        !spec_grapple_casts(b) ==> spec_grapple_update(anchor, b, hit) == spec_grapple_update(anchor, b, None::<A>),
{
}

/// The input axes follow the keys: A alone gives -1 and D alone 1 sideways,
/// W alone gives -1 and S alone 1 lengthwise, and anything else gives 0.
pub proof fn lemma_axes_follow_keys<S>(keys: MovementKeys, floored: bool, move_speed: S, air_speed: S, jump_force: S)
    ensures
        ({
            let plan = spec_plan_movement(keys, floored, move_speed, air_speed, jump_force);
            &&& plan.input_x == (if keys.left && !keys.right { -1int } else if keys.right && !keys.left { 1int } else { 0int })
            &&& plan.input_z == (if keys.forward && !keys.back { -1int } else if keys.back && !keys.forward { 1int } else { 0int })
        }),
{
}

/// The player is pushed exactly when some movement axis is nonzero, whichever
/// axis it is, at the walking speed on the ground and the air speed in the
/// air; strafing alone pushes as moving forward does.
pub proof fn lemma_push_iff_input<S>(keys: MovementKeys, floored: bool, move_speed: S, air_speed: S, jump_force: S)
    ensures
        ({
            let plan = spec_plan_movement(keys, floored, move_speed, air_speed, jump_force);
            &&& (plan.push_speed is Some <==> (plan.input_x != 0 || plan.input_z != 0))
            &&& (plan.push_speed is Some <==> (keys.left != keys.right || keys.forward != keys.back))
            &&& (floored && plan.push_speed is Some ==> plan.push_speed == Some(move_speed))
            &&& (!floored && plan.push_speed is Some ==> plan.push_speed == Some(air_speed))
        }),
{
}

/// On the ground the jump depends on the jump key alone, whatever movement
/// keys are held; in the air there is never a jump. The damping is 5 on the
/// ground and 0.5 in the air, whatever the keys.
pub proof fn lemma_jump_only_by_key<S>(keys: MovementKeys, move_speed: S, air_speed: S, jump_force: S)
    ensures
        spec_plan_movement(keys, true, move_speed, air_speed, jump_force).jump_impulse
            == (if keys.jump { Some(jump_force) } else { None }),
        spec_plan_movement(keys, false, move_speed, air_speed, jump_force).jump_impulse is None,
        spec_plan_movement(keys, true, move_speed, air_speed, jump_force).linear_damping_tenths == 50,
        spec_plan_movement(keys, false, move_speed, air_speed, jump_force).linear_damping_tenths == 5,
{
}

/// The hook casts exactly on the frame the button goes down (and does not
/// come up); on any frame where the button neither goes down nor comes up,
/// the anchor stays what it was, whatever the ray would have hit.
pub proof fn lemma_anchor_moves_only_on_press<A>(anchor: Option<A>, b: ButtonEdges, hit: Option<A>)
    ensures
        spec_grapple_casts(b) <==> (b.just_pressed && !b.just_released),
        !b.just_pressed && !b.just_released ==> spec_grapple_update(anchor, b, hit).anchor == anchor,
        !b.just_pressed && !b.just_released ==> (spec_grapple_update(anchor, b, hit).pull <==> (b.pressed && anchor is Some)),
        b.just_pressed && !b.just_released && hit is Some ==> spec_grapple_update(anchor, b, hit).anchor == hit,
        b.just_pressed && !b.just_released && hit is None ==> spec_grapple_update(anchor, b, hit).anchor == anchor,
{
}

} // verus!
