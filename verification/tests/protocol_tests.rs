use alice_presence::coord::CoordBits;
use alice_presence::{execute_presence_protocol, PartyInfo, PresenceConfig, ProximityProof};

fn party_coord(x: f64, y: f64) -> CoordBits {
    CoordBits::new(x.to_bits(), y.to_bits(), 0.0f64.to_bits())
}

fn proto_distance(a: &CoordBits, b: &CoordBits) -> f64 {
    let dx = f64::from_bits(a.x_bits) - f64::from_bits(b.x_bits);
    let dy = f64::from_bits(a.y_bits) - f64::from_bits(b.y_bits);
    (dx * dx + dy * dy).sqrt() + f64::from_bits(a.height_bits) + f64::from_bits(b.height_bits)
}

fn measure(a: &PartyInfo, b: &PartyInfo, config: &PresenceConfig) -> ProximityProof {
    let d = proto_distance(&a.coord, &b.coord);
    let threshold = f64::from_bits(config.proximity_threshold_bits);
    ProximityProof::prove(&a.coord, &b.coord, d.to_bits(), threshold.to_bits(), d <= threshold)
}

#[test]
fn protocol_config_defaults() {
    let cfg = PresenceConfig::default();
    assert!((f64::from_bits(cfg.proximity_threshold_bits) - 10.0).abs() < 1e-12);
    assert_eq!(cfg.challenge_bits, 64);
    assert!(cfg.require_mutual);
}

#[test]
fn protocol_protocol_proximate_succeeds() {
    let a = PartyInfo::new(party_coord(0.0, 0.0), 42, 1);
    let b = PartyInfo::new(party_coord(1.0, 1.0), 99, 2);
    let cfg = PresenceConfig::default();
    let prox = measure(&a, &b, &cfg);
    let result = execute_presence_protocol(&a, &b, 1_000_000, &cfg, prox);
    assert!(result.is_some());
    let record = result.unwrap();
    assert!(record.is_fully_verified());
    assert!(record.event.is_mutual());
    assert!(record.event.is_verified());
    assert!(record.event.is_proximate());
}

#[test]
fn protocol_protocol_distant_returns_none() {
    let a = PartyInfo::new(party_coord(0.0, 0.0), 42, 1);
    let b = PartyInfo::new(party_coord(1000.0, 1000.0), 99, 2);
    let cfg = PresenceConfig::default();
    let prox = measure(&a, &b, &cfg);
    let result = execute_presence_protocol(&a, &b, 1_000_000, &cfg, prox);
    assert!(result.is_none());
}

#[test]
fn protocol_protocol_custom_threshold() {
    let a = PartyInfo::new(party_coord(0.0, 0.0), 1, 1);
    let b = PartyInfo::new(party_coord(3.0, 4.0), 2, 2); // distance = 5.0
    let tight = PresenceConfig {
        proximity_threshold_bits: 4.0f64.to_bits(),
        ..Default::default()
    };
    let prox_tight = measure(&a, &b, &tight);
    assert!(execute_presence_protocol(&a, &b, 0, &tight, prox_tight).is_none());

    let loose = PresenceConfig {
        proximity_threshold_bits: 6.0f64.to_bits(),
        ..Default::default()
    };
    let prox_loose = measure(&a, &b, &loose);
    assert!(execute_presence_protocol(&a, &b, 0, &loose, prox_loose).is_some());
}

#[test]
fn protocol_protocol_deterministic() {
    let a = PartyInfo::new(party_coord(1.0, 2.0), 10, 1);
    let b = PartyInfo::new(party_coord(3.0, 4.0), 20, 2);
    let cfg = PresenceConfig::default();
    let r1 = execute_presence_protocol(&a, &b, 500, &cfg, measure(&a, &b, &cfg)).unwrap();
    let r2 = execute_presence_protocol(&a, &b, 500, &cfg, measure(&a, &b, &cfg)).unwrap();
    assert_eq!(r1.content_hash, r2.content_hash);
}

#[test]
fn protocol_not_mutual() {
    let a = PartyInfo::new(party_coord(0.0, 0.0), 42, 1);
    let b = PartyInfo::new(party_coord(1.0, 0.0), 99, 2);
    let cfg = PresenceConfig { require_mutual: false, ..Default::default() };
    let prox = measure(&a, &b, &cfg);
    let record = execute_presence_protocol(&a, &b, 100, &cfg, prox).unwrap();
    assert!(!record.event.is_mutual());
}

#[test]
fn lib_config_defaults() {
    let cfg = PresenceConfig::default();
    assert!((f64::from_bits(cfg.proximity_threshold_bits) - 10.0).abs() < 1e-12);
    assert_eq!(cfg.challenge_bits, 64);
    assert!(cfg.require_mutual);
}

#[test]
fn lib_protocol_proximate_succeeds() {
    let a = PartyInfo::new(party_coord(0.0, 0.0), 42, 1);
    let b = PartyInfo::new(party_coord(1.0, 1.0), 99, 2);
    let cfg = PresenceConfig::default();
    let prox = measure(&a, &b, &cfg);
    let result = execute_presence_protocol(&a, &b, 1_000_000, &cfg, prox);
    assert!(result.is_some());
    let record = result.unwrap();
    assert!(record.is_fully_verified());
    assert!(record.event.is_mutual());
    assert!(record.event.is_verified());
    assert!(record.event.is_proximate());
}

#[test]
fn lib_protocol_distant_returns_none() {
    let a = PartyInfo::new(party_coord(0.0, 0.0), 42, 1);
    let b = PartyInfo::new(party_coord(1000.0, 1000.0), 99, 2);
    let cfg = PresenceConfig::default();
    let prox = measure(&a, &b, &cfg);
    let result = execute_presence_protocol(&a, &b, 1_000_000, &cfg, prox);
    assert!(result.is_none());
}

#[test]
fn lib_protocol_custom_threshold() {
    let a = PartyInfo::new(party_coord(0.0, 0.0), 1, 1);
    let b = PartyInfo::new(party_coord(3.0, 4.0), 2, 2); // distance = 5.0
    let tight = PresenceConfig {
        proximity_threshold_bits: 4.0f64.to_bits(),
        ..Default::default()
    };
    let prox_tight = measure(&a, &b, &tight);
    assert!(execute_presence_protocol(&a, &b, 0, &tight, prox_tight).is_none());

    let loose = PresenceConfig {
        proximity_threshold_bits: 6.0f64.to_bits(),
        ..Default::default()
    };
    let prox_loose = measure(&a, &b, &loose);
    assert!(execute_presence_protocol(&a, &b, 0, &loose, prox_loose).is_some());
}

#[test]
fn lib_protocol_deterministic() {
    let a = PartyInfo::new(party_coord(1.0, 2.0), 10, 1);
    let b = PartyInfo::new(party_coord(3.0, 4.0), 20, 2);
    let cfg = PresenceConfig::default();
    let r1 = execute_presence_protocol(&a, &b, 500, &cfg, measure(&a, &b, &cfg)).unwrap();
    let r2 = execute_presence_protocol(&a, &b, 500, &cfg, measure(&a, &b, &cfg)).unwrap();
    assert_eq!(r1.content_hash, r2.content_hash);
}
