//! The map: which new colliders become ground, and which cameras that came
//! with the loaded scene are removed.

use crate::player::contains_entity;
use vstd::prelude::*;

verus! {

/// A camera entity, and whether it is the player's own camera.
#[derive(Clone, Copy, Debug, PartialEq, Eq, Structural)]
pub struct CameraEntity {
    pub entity: u64,
    pub is_player_camera: bool,
}

/// The colliders among `new_colliders` that are to be marked as ground: all
/// but the players', in their order.
pub fn auto_add_ground(new_colliders: &Vec<u64>, players: &Vec<u64>) -> (r: Vec<u64>)
    ensures
        r@ == new_colliders@.filter(|e: u64| !players@.contains(e)),
{
    let ghost keep = |e: u64| !players@.contains(e);
    let mut r: Vec<u64> = Vec::new();
    let mut i: usize = 0;
    assert(new_colliders@.take(0) =~= Seq::<u64>::empty());
    proof {
        reveal(Seq::filter);
    }
    while i < new_colliders.len()
        invariant
            i <= new_colliders.len(),
            keep == (|e: u64| !players@.contains(e)),
            r@ == new_colliders@.take(i as int).filter(keep),
        decreases new_colliders.len() - i,
    {
        let e = new_colliders[i];
        proof {
            assert(new_colliders@.take(i + 1) =~= new_colliders@.take(i as int).push(e));
            new_colliders@.take(i as int).lemma_filter_push(e, keep);
        }
        if !contains_entity(players, e) {
            r.push(e);
        }
        i = i + 1;
    }
    assert(new_colliders@.take(i as int) =~= new_colliders@);
    r
}

/// The entity of a camera.
pub open spec fn camera_entity_of(c: CameraEntity) -> u64 {
    c.entity
}

/// Whether a camera is one that the loaded scene brought along.
pub open spec fn is_intruder(c: CameraEntity) -> bool {
    !c.is_player_camera
}

/// The cameras to remove: every camera but the player's, in their order.
pub fn cleanup_cameras(cameras: &Vec<CameraEntity>) -> (r: Vec<u64>)
    ensures
        r@ == cameras@.filter(|c: CameraEntity| is_intruder(c)).map_values(|c: CameraEntity| camera_entity_of(c)),
{
    let ghost keep = |c: CameraEntity| is_intruder(c);
    let ghost ent = |c: CameraEntity| camera_entity_of(c);
    let mut r: Vec<u64> = Vec::new();
    let mut i: usize = 0;
    assert(cameras@.take(0) =~= Seq::<CameraEntity>::empty());
    proof {
        reveal(Seq::filter);
        assert(cameras@.take(0).filter(keep).map_values(ent) =~= Seq::<u64>::empty());
    }
    while i < cameras.len()
        invariant
            i <= cameras.len(),
            keep == (|c: CameraEntity| is_intruder(c)),
            ent == (|c: CameraEntity| camera_entity_of(c)),
            r@ == cameras@.take(i as int).filter(keep).map_values(ent),
        decreases cameras.len() - i,
    {
        let c = cameras[i];
        proof {
            assert(cameras@.take(i + 1) =~= cameras@.take(i as int).push(c));
            cameras@.take(i as int).lemma_filter_push(c, keep);
        }
        if !c.is_player_camera {
            proof {
                assert(cameras@.take(i as int).filter(keep).push(c).map_values(ent) =~= r@.push(c.entity));
            }
            r.push(c.entity);
        }
        i = i + 1;
    }
    assert(cameras@.take(i as int) =~= cameras@);
    r
}

/// A camera is removed exactly when it is not the player's own, and it is
/// removed by its own entity.
pub proof fn lemma_intruder_cameras(c: CameraEntity)
    ensures
        is_intruder(c) <==> !c.is_player_camera,
        camera_entity_of(c) == c.entity,
{
}

} // verus!
