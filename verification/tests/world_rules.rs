use kinetic_game::map::{auto_add_ground, cleanup_cameras, CameraEntity};
use kinetic_game::weapon::{collect_detonations, find_shooter, projectile_hit, Collision, ProjectileInfo};

fn sorted(mut v: Vec<u64>) -> Vec<u64> {
    v.sort();
    v
}

fn projectiles() -> Vec<ProjectileInfo> {
    vec![
        ProjectileInfo { entity: 100, shooter: 1 },
        ProjectileInfo { entity: 101, shooter: 2 },
    ]
}

#[test]
fn ground_excludes_players_and_keeps_order() {
    let r = auto_add_ground(&vec![5, 1, 7, 2, 9], &vec![1, 2]);
    assert_eq!(r, vec![5, 7, 9]);
    assert_eq!(auto_add_ground(&vec![], &vec![1]), Vec::<u64>::new());
    assert_eq!(auto_add_ground(&vec![3, 4], &vec![]), vec![3, 4]);
}

#[test]
fn only_foreign_cameras_removed() {
    let cams = vec![
        CameraEntity { entity: 8, is_player_camera: false },
        CameraEntity { entity: 9, is_player_camera: true },
        CameraEntity { entity: 3, is_player_camera: false },
    ];
    assert_eq!(cleanup_cameras(&cams), vec![8, 3]);
    assert_eq!(cleanup_cameras(&vec![]), Vec::<u64>::new());
}

#[test]
fn shooter_lookup() {
    let ps = projectiles();
    assert_eq!(find_shooter(&ps, 100), Some(1));
    assert_eq!(find_shooter(&ps, 101), Some(2));
    assert_eq!(find_shooter(&ps, 1), None);
}

#[test]
fn hit_picks_projectile_either_side() {
    let ps = projectiles();
    assert_eq!(projectile_hit(&ps, Collision::Started(100, 50)), Some(100));
    assert_eq!(projectile_hit(&ps, Collision::Started(50, 101)), Some(101));
    assert_eq!(projectile_hit(&ps, Collision::Started(50, 51)), None);
    assert_eq!(projectile_hit(&ps, Collision::Stopped(100, 50)), None);
}

#[test]
fn shooter_contact_spares_projectile() {
    let ps = projectiles();
    assert_eq!(projectile_hit(&ps, Collision::Started(100, 1)), None);
    assert_eq!(projectile_hit(&ps, Collision::Started(1, 100)), None);
    assert_eq!(projectile_hit(&ps, Collision::Started(101, 1)), Some(101));
}

#[test]
fn two_projectiles_first_one_counts() {
    let ps = projectiles();
    assert_eq!(projectile_hit(&ps, Collision::Started(101, 100)), Some(101));
}

#[test]
fn detonations_deduplicated() {
    let ps = projectiles();
    let contacts = vec![
        Collision::Started(100, 50),
        Collision::Started(50, 100),
        Collision::Started(101, 2),
        Collision::Stopped(101, 60),
        Collision::Started(60, 101),
        Collision::Started(7, 8),
    ];
    assert_eq!(sorted(collect_detonations(&contacts, &ps)), vec![100, 101]);
}

#[test]
fn no_contacts_no_detonations() {
    assert_eq!(collect_detonations(&vec![], &projectiles()), Vec::<u64>::new());
    let only_shooter = vec![Collision::Started(100, 1), Collision::Started(2, 101)];
    assert_eq!(collect_detonations(&only_shooter, &projectiles()), Vec::<u64>::new());
}

#[test]
fn detonations_of_batches_union() {
    let ps = projectiles();
    let a = vec![Collision::Started(100, 50)];
    let b = vec![Collision::Started(101, 50), Collision::Started(100, 51)];
    let mut ab = a.clone();
    ab.extend(b.iter().copied());
    let mut ba = b.clone();
    ba.extend(a.iter().copied());
    assert_eq!(sorted(collect_detonations(&ab, &ps)), vec![100, 101]);
    assert_eq!(sorted(collect_detonations(&ba, &ps)), vec![100, 101]);
}
