use alice_presence::coord::CoordBits;
use alice_presence::group::{GroupConfig, PresenceGroup, MAX_GROUP_SIZE};

fn make_coord(x: f64, y: f64) -> CoordBits {
    CoordBits::new(x.to_bits(), y.to_bits(), 0.0f64.to_bits())
}

fn group_distance(a: &CoordBits, b: &CoordBits) -> f64 {
    let dx = f64::from_bits(a.x_bits) - f64::from_bits(b.x_bits);
    let dy = f64::from_bits(a.y_bits) - f64::from_bits(b.y_bits);
    (dx * dx + dy * dy).sqrt() + f64::from_bits(a.height_bits) + f64::from_bits(b.height_bits)
}

#[test]
fn empty_group() {
    let g = PresenceGroup::new(GroupConfig::default());
    assert_eq!(g.member_count(), 0);
    assert!(g.prove_proximity(0.0f64.to_bits(), true).is_none());
}

#[test]
fn add_and_remove_member() {
    let mut g = PresenceGroup::new(GroupConfig::default());
    assert!(g.add_member(1, make_coord(0.0, 0.0), 100));
    assert!(g.add_member(2, make_coord(1.0, 0.0), 200));
    assert_eq!(g.member_count(), 2);
    assert!(g.contains(1));
    assert!(g.contains(2));

    assert!(g.remove_member(1));
    assert_eq!(g.member_count(), 1);
    assert!(!g.contains(1));
}

#[test]
fn duplicate_id_rejected() {
    let mut g = PresenceGroup::new(GroupConfig::default());
    assert!(g.add_member(1, make_coord(0.0, 0.0), 100));
    assert!(!g.add_member(1, make_coord(5.0, 5.0), 200));
    assert_eq!(g.member_count(), 1);
}

#[test]
fn max_group_size_enforced() {
    let mut g = PresenceGroup::new(GroupConfig::default());
    for i in 0..MAX_GROUP_SIZE {
        assert!(g.add_member(i as u32, make_coord(0.0, 0.0), 0));
    }
    assert!(!g.add_member(999, make_coord(0.0, 0.0), 0));
}

#[test]
fn remove_nonexistent_returns_false() {
    let mut g = PresenceGroup::new(GroupConfig::default());
    assert!(!g.remove_member(42));
}

#[test]
fn member_ids_sorted() {
    let mut g = PresenceGroup::new(GroupConfig::default());
    g.add_member(5, make_coord(0.0, 0.0), 0);
    g.add_member(2, make_coord(0.0, 0.0), 0);
    g.add_member(8, make_coord(0.0, 0.0), 0);
    assert_eq!(g.member_ids(), vec![2, 5, 8]);
}

#[test]
fn prove_proximity_success() {
    let cfg = GroupConfig { proximity_threshold_bits: 10.0f64.to_bits(), min_members: 2 };
    let mut g = PresenceGroup::new(cfg);
    let a = make_coord(0.0, 0.0);
    let b = make_coord(1.0, 0.0);
    g.add_member(1, a, 0);
    g.add_member(2, b, 0);
    let max_distance = group_distance(&a, &b);
    let proof = g.prove_proximity(max_distance.to_bits(), max_distance <= 10.0).unwrap();
    assert!(proof.all_proximate);
    assert_eq!(proof.member_count, 2);
    assert!((f64::from_bits(proof.max_distance_bits) - 1.0).abs() < 1e-12);
    assert_ne!(proof.content_hash, 0);
    assert_ne!(proof.group_id, 0);
}

#[test]
fn prove_proximity_too_few() {
    let cfg = GroupConfig { proximity_threshold_bits: 10.0f64.to_bits(), min_members: 3 };
    let mut g = PresenceGroup::new(cfg);
    let a = make_coord(0.0, 0.0);
    let b = make_coord(1.0, 0.0);
    g.add_member(1, a, 0);
    g.add_member(2, b, 0);
    let max_distance = group_distance(&a, &b);
    assert!(g.prove_proximity(max_distance.to_bits(), max_distance <= 10.0).is_none());
}

#[test]
fn group_id_deterministic() {
    let cfg = GroupConfig::default();
    let mut g1 = PresenceGroup::new(cfg);
    g1.add_member(1, make_coord(0.0, 0.0), 0);
    g1.add_member(2, make_coord(1.0, 0.0), 0);

    let mut g2 = PresenceGroup::new(cfg);
    // Add in different order
    g2.add_member(2, make_coord(1.0, 0.0), 0);
    g2.add_member(1, make_coord(0.0, 0.0), 0);

    let p1 = g1.prove_proximity(1.0f64.to_bits(), true).unwrap();
    let p2 = g2.prove_proximity(1.0f64.to_bits(), true).unwrap();
    assert_eq!(p1.group_id, p2.group_id);
}

#[test]
fn group_id_differs_for_different_members() {
    let cfg = GroupConfig::default();
    let mut g1 = PresenceGroup::new(cfg);
    g1.add_member(1, make_coord(0.0, 0.0), 0);
    g1.add_member(2, make_coord(1.0, 0.0), 0);

    let mut g2 = PresenceGroup::new(cfg);
    g2.add_member(1, make_coord(0.0, 0.0), 0);
    g2.add_member(3, make_coord(1.0, 0.0), 0);

    let p1 = g1.prove_proximity(1.0f64.to_bits(), true).unwrap();
    let p2 = g2.prove_proximity(1.0f64.to_bits(), true).unwrap();
    assert_ne!(p1.group_id, p2.group_id);
}

#[test]
fn member_ids_empty_group() {
    let g = PresenceGroup::new(GroupConfig::default());
    assert_eq!(g.member_ids(), Vec::<u32>::new());
}

#[test]
fn remove_then_readd() {
    let mut g = PresenceGroup::new(GroupConfig::default());
    assert!(g.add_member(7, make_coord(0.0, 0.0), 0));
    assert!(g.remove_member(7));
    assert!(g.add_member(7, make_coord(2.0, 2.0), 1));
    assert!(g.contains(7));
    assert_eq!(g.member_count(), 1);
}
