//! Which projectiles explode when the physics engine reports contacts.

use crate::entity_set::{
    entity_set_contents, entity_set_elements, entity_set_insert, entity_set_new,
};
use vstd::prelude::*;

verus! {

/// A contact reported by the physics engine between two entities.
#[derive(Clone, Copy, Debug, PartialEq, Eq, Structural)]
pub enum Collision {
    /// The two entities started touching.
    Started(u64, u64),
    /// The two entities stopped touching.
    Stopped(u64, u64),
}

/// A live projectile and the entity that fired it.
#[derive(Clone, Copy, Debug, PartialEq, Eq, Structural)]
pub struct ProjectileInfo {
    pub entity: u64,
    pub shooter: u64,
}

/// The shooter of the first projectile in `ps` that is the entity `e`, or
/// `None` where `e` is no projectile of `ps`.
pub open spec fn shooter_of(ps: Seq<ProjectileInfo>, e: u64) -> Option<u64>
    decreases ps.len(),
{
    if ps.len() == 0 {
        None
    } else if ps[0].entity == e {
        Some(ps[0].shooter)
    } else {
        shooter_of(ps.drop_first(), e)
    }
}

/// The projectile that a contact sets off, if any. Only a started contact
/// counts; its first entity is taken as the projectile where it is one, else
/// its second; the projectile is spared where the other entity is its own
/// shooter.
pub open spec fn detonation_of(ps: Seq<ProjectileInfo>, c: Collision) -> Option<u64> {
    match c {
        Collision::Started(a, b) => match shooter_of(ps, a) {
            Some(s) => if b == s { None } else { Some(a) },
            None => match shooter_of(ps, b) {
                Some(s) => if a == s { None } else { Some(b) },
                None => None,
            },
        },
        Collision::Stopped(_, _) => None,
    }
}

/// Whether some contact of `cs` sets off the projectile `p`.
pub open spec fn detonates(ps: Seq<ProjectileInfo>, cs: Seq<Collision>, p: u64) -> bool {
    exists|i: int| 0 <= i < cs.len() && #[trigger] detonation_of(ps, cs[i]) == Some(p)
}

proof fn lemma_shooter_of_skip(ps: Seq<ProjectileInfo>, i: int, e: u64)
    requires
        0 <= i < ps.len(),
        ps[i].entity != e,
    ensures
        shooter_of(ps.skip(i), e) == shooter_of(ps.skip(i + 1), e),
{
    assert(ps.skip(i).drop_first() =~= ps.skip(i + 1));
}

/// The shooter of the projectile `e`, or `None` where `e` is no projectile.
pub fn find_shooter(ps: &Vec<ProjectileInfo>, e: u64) -> (r: Option<u64>)
    ensures
        r == shooter_of(ps@, e),
{
    let mut i: usize = 0;
    assert(ps@.skip(0) =~= ps@);
    while i < ps.len()
        invariant
            i <= ps.len(),
            shooter_of(ps@, e) == shooter_of(ps@.skip(i as int), e),
        decreases ps.len() - i,
    {
        if ps[i].entity == e {
            return Some(ps[i].shooter);
        }
        proof {
            lemma_shooter_of_skip(ps@, i as int, e);
        }
        i = i + 1;
    }
    assert(ps@.skip(i as int).len() == 0);
    None
}

/// The projectile that the contact `c` sets off, if any.
pub fn projectile_hit(ps: &Vec<ProjectileInfo>, c: Collision) -> (r: Option<u64>)
    ensures
        r == detonation_of(ps@, c),
{
    match c {
        Collision::Started(a, b) => match find_shooter(ps, a) {
            Some(s) => if b == s { None } else { Some(a) },
            None => match find_shooter(ps, b) {
                Some(s) => if a == s { None } else { Some(b) },
                None => None,
            },
        },
        Collision::Stopped(_, _) => None,
    }
}

/// The projectiles to explode and despawn this frame: each projectile that a
/// started contact sets off, once, whatever the number of its contacts.
pub fn collect_detonations(contacts: &Vec<Collision>, projectiles: &Vec<ProjectileInfo>) -> (r: Vec<u64>)
    ensures
        forall|p: u64| r@.contains(p) <==> detonates(projectiles@, contacts@, p),
        forall|p: u64| r@.contains(p) <==> exists|i: int|
            0 <= i < contacts@.len() && #[trigger] detonation_of(projectiles@, contacts@[i]) == Some(p),
        r@.no_duplicates(),
{
    let mut queue = entity_set_new();
    let mut i: usize = 0;
    while i < contacts.len()
        invariant
            i <= contacts.len(),
            forall|p: u64|
                entity_set_contents(queue).contains(p) <==> exists|j: int|
                    0 <= j < i && #[trigger] detonation_of(projectiles@, contacts@[j]) == Some(p),
        decreases contacts.len() - i,
    {
        let hit = projectile_hit(projectiles, contacts[i]);
        let ghost before = entity_set_contents(queue);
        if let Some(p) = hit {
            entity_set_insert(&mut queue, p);
        }
        assert forall|p: u64|
            entity_set_contents(queue).contains(p) <==> exists|j: int|
                0 <= j < i + 1 && #[trigger] detonation_of(projectiles@, contacts@[j]) == Some(p) by {
            if entity_set_contents(queue).contains(p) {
                if !before.contains(p) {
                    assert(detonation_of(projectiles@, contacts@[i as int]) == Some(p));
                }
            }
            if exists|j: int| 0 <= j < i + 1 && #[trigger] detonation_of(projectiles@, contacts@[j]) == Some(p) {
                let j = choose|j: int| 0 <= j < i + 1 && #[trigger] detonation_of(projectiles@, contacts@[j]) == Some(p);
                if j < i {
                    assert(before.contains(p));
                }
            }
        }
        i = i + 1;
    }
    let r = entity_set_elements(&queue);
    proof {
        assert forall|p: u64| r@.contains(p) <==> detonates(projectiles@, contacts@, p) by {
            assert(r@.contains(p) <==> r@.to_set().contains(p));
        }
    }
    r
}

/// Only a projectile explodes: whatever a contact sets off is a projectile of
/// the list.
pub proof fn lemma_only_projectiles_detonate(ps: Seq<ProjectileInfo>, c: Collision, p: u64)
    requires
        detonation_of(ps, c) == Some(p),
    ensures
        shooter_of(ps, p) is Some,
{
}

/// A projectile never explodes on the entity that fired it, whichever way
/// round the contact names the two, and a contact that ends sets nothing off.
pub proof fn lemma_shooter_is_spared(ps: Seq<ProjectileInfo>, p: u64, s: u64)
    requires
        shooter_of(ps, p) == Some(s),
        shooter_of(ps, s) is None,
    ensures
        detonation_of(ps, Collision::Started(p, s)) is None,
        detonation_of(ps, Collision::Started(s, p)) is None,
        detonation_of(ps, Collision::Stopped(p, s)) is None,
{
}

/// The projectiles set off by two batches of contacts are those set off by
/// the first or by the second: neither the order of the contacts nor their
/// repetition changes what explodes.
pub proof fn lemma_detonations_append(ps: Seq<ProjectileInfo>, a: Seq<Collision>, b: Seq<Collision>, p: u64)
    ensures
        detonates(ps, a + b, p) <==> (detonates(ps, a, p) || detonates(ps, b, p)),
{
    if detonates(ps, a + b, p) {
        let i = choose|i: int| 0 <= i < (a + b).len() && #[trigger] detonation_of(ps, (a + b)[i]) == Some(p);
        if i < a.len() {
            assert(detonation_of(ps, a[i]) == Some(p));
        } else {
            assert(detonation_of(ps, b[i - a.len()]) == Some(p));
        }
    }
    if detonates(ps, a, p) {
        let i = choose|i: int| 0 <= i < a.len() && #[trigger] detonation_of(ps, a[i]) == Some(p);
        assert(detonation_of(ps, (a + b)[i]) == Some(p));
    }
    if detonates(ps, b, p) {
        let i = choose|i: int| 0 <= i < b.len() && #[trigger] detonation_of(ps, b[i]) == Some(p);
        assert(detonation_of(ps, (a + b)[a.len() + i]) == Some(p));
    }
}

/// A projectile's shooter is found exactly where the projectile is in the
/// list, and it is the shooter recorded at the first place the projectile
/// appears.
pub proof fn lemma_shooter_of_lookup(ps: Seq<ProjectileInfo>, e: u64)
    ensures
        shooter_of(ps, e) is Some <==> exists|i: int| 0 <= i < ps.len() && #[trigger] ps[i].entity == e,
        shooter_of(ps, e) matches Some(s) ==> exists|i: int|
            0 <= i < ps.len() && #[trigger] ps[i].entity == e && ps[i].shooter == s
                && forall|j: int| 0 <= j < i ==> ps[j].entity != e,
    decreases ps.len(),
{
    if ps.len() > 0 {
        lemma_shooter_of_lookup(ps.drop_first(), e);
        if ps[0].entity == e {
            assert(ps[0].entity == e);
        } else {
            if exists|i: int| 0 <= i < ps.len() && #[trigger] ps[i].entity == e {
                let i = choose|i: int| 0 <= i < ps.len() && #[trigger] ps[i].entity == e;
                assert(ps.drop_first()[i - 1].entity == e);
            }
            if shooter_of(ps, e) is Some {
                let s = shooter_of(ps, e)->0;
                let k = choose|k: int|
                    0 <= k < ps.drop_first().len() && #[trigger] ps.drop_first()[k].entity == e
                        && ps.drop_first()[k].shooter == s
                        && forall|j: int| 0 <= j < k ==> ps.drop_first()[j].entity != e;
                assert(ps[k + 1].entity == e);
                assert forall|j: int| 0 <= j < k + 1 implies ps[j].entity != e by {
                    if j > 0 {
                        assert(ps[j] == ps.drop_first()[j - 1]);
                    }
                }
            }
        }
    }
}

/// A contact that ends never sets anything off.
pub proof fn lemma_ended_contact_is_harmless(ps: Seq<ProjectileInfo>, a: u64, b: u64)
    ensures
        detonation_of(ps, Collision::Stopped(a, b)) is None,
{
}

/// What a started contact between `a` and `b` sets off: at most one of the
/// two, always a projectile, never one touching its own shooter; where `a` is
/// a projectile, `b` is never the one (the first-named projectile takes the
/// contact); and a projectile that touches anything but its shooter is set
/// off (or, for `b`, where `a` is no projectile).
pub proof fn lemma_started_contact(ps: Seq<ProjectileInfo>, a: u64, b: u64)
    ensures
        detonation_of(ps, Collision::Started(a, b)) matches Some(p) ==> {
            &&& (p == a || p == b)
            &&& shooter_of(ps, p) is Some
            &&& p == a ==> shooter_of(ps, a) != Some(b)
            &&& p != a ==> shooter_of(ps, b) != Some(a)
        },
        shooter_of(ps, a) is Some && a != b ==> detonation_of(ps, Collision::Started(a, b)) != Some(b),
        shooter_of(ps, a) matches Some(s) && b != s ==> detonation_of(ps, Collision::Started(a, b)) == Some(a),
        shooter_of(ps, a) is None && (shooter_of(ps, b) matches Some(s) && a != s)
            ==> detonation_of(ps, Collision::Started(a, b)) == Some(b),
        shooter_of(ps, a) is None && shooter_of(ps, b) is None
            ==> detonation_of(ps, Collision::Started(a, b)) is None,
{
}

/// What a frame sets off is exactly the union of what each of its contacts
/// sets off; a single contact sets off at most one projectile, and a frame of
/// ended contacts sets off none.
pub proof fn lemma_frame_is_union_of_contacts(ps: Seq<ProjectileInfo>, cs: Seq<Collision>, c: Collision, p: u64, q: u64)
    ensures
        detonates(ps, cs, p) <==> exists|i: int| 0 <= i < cs.len() && #[trigger] detonation_of(ps, cs[i]) == Some(p),
        detonates(ps, seq![c], p) <==> detonation_of(ps, c) == Some(p),
        detonates(ps, seq![c], p) && detonates(ps, seq![c], q) ==> p == q,
        (forall|i: int| 0 <= i < cs.len() ==> #[trigger] cs[i] is Stopped) ==> !detonates(ps, cs, p),
{
    if detonates(ps, seq![c], p) {
        let i = choose|i: int| 0 <= i < 1 && #[trigger] detonation_of(ps, seq![c][i]) == Some(p);
        assert(seq![c][i] == c);
    }
    if detonation_of(ps, c) == Some(p) {
        assert(seq![c][0] == c);
        assert(detonation_of(ps, seq![c][0]) == Some(p));
    }
    if detonates(ps, seq![c], q) {
        let i = choose|i: int| 0 <= i < 1 && #[trigger] detonation_of(ps, seq![c][i]) == Some(q);
        assert(seq![c][i] == c);
    }
    if (forall|i: int| 0 <= i < cs.len() ==> #[trigger] cs[i] is Stopped) && detonates(ps, cs, p) {
        let i = choose|i: int| 0 <= i < cs.len() && #[trigger] detonation_of(ps, cs[i]) == Some(p);
        assert(cs[i] is Stopped);
    }
}

} // verus!
