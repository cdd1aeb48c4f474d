use argon2_bridge::config::{
    resolve, HashVariant, HashVersion, ThreadModeChoice, DEFAULT_HASH_LENGTH,
    DEFAULT_LANES, DEFAULT_MEM_COST, DEFAULT_TIME_COST,
};
use argon2_bridge::options::HashOptions;

fn empty_options() -> HashOptions {
    HashOptions {
        salt: vec![0u8; 16],
        secret: None,
        data: None,
        version: None,
        variant: None,
        memory_cost: None,
        time_cost: None,
        lanes: None,
        thread_mode: None,
        hash_length: None,
    }
}

#[test]
fn defaults_are_documented() {
    let c = resolve(&empty_options());
    assert_eq!(c.variant, HashVariant::Argon2id);
    assert_eq!(c.version, HashVersion::Version13);
    assert_eq!(c.thread_mode, ThreadModeChoice::Sequential);
    assert_eq!(c.mem_cost, DEFAULT_MEM_COST);
    assert_eq!(c.mem_cost, 19456);
    assert_eq!(c.time_cost, DEFAULT_TIME_COST);
    assert_eq!(c.time_cost, 2);
    assert_eq!(c.lanes, DEFAULT_LANES);
    assert_eq!(c.lanes, 1);
    assert_eq!(c.hash_length, DEFAULT_HASH_LENGTH);
    assert_eq!(c.hash_length, 32);
    assert!(c.secret.is_empty());
    assert!(c.ad.is_empty());
}

#[test]
fn recognized_variant_names() {
    for (name, expected) in [
        ("Argon2d", HashVariant::Argon2d),
        ("argon2d", HashVariant::Argon2d),
        ("Argon2i", HashVariant::Argon2i),
        ("argon2i", HashVariant::Argon2i),
        ("Argon2id", HashVariant::Argon2id),
        ("argon2id", HashVariant::Argon2id),
    ] {
        let mut o = empty_options();
        o.variant = Some(name.to_string());
        assert_eq!(resolve(&o).variant, expected);
    }
}

#[test]
fn recognized_version_names() {
    let mut o = empty_options();
    o.version = Some("16".to_string());
    assert_eq!(resolve(&o).version, HashVersion::Version10);
    o.version = Some("19".to_string());
    assert_eq!(resolve(&o).version, HashVersion::Version13);
}

#[test]
fn unknown_variant_falls_back_to_default() {
    let mut o = empty_options();
    o.variant = Some("argon3".to_string());
    assert_eq!(resolve(&o).variant, HashVariant::Argon2id);
    o.variant = Some("".to_string());
    assert_eq!(resolve(&o).variant, HashVariant::Argon2id);
}

#[test]
fn unknown_version_falls_back_to_default() {
    let mut o = empty_options();
    o.version = Some("18".to_string());
    assert_eq!(resolve(&o).version, HashVersion::Version13);
}

#[test]
fn thread_mode_mapping() {
    let mut o = empty_options();
    o.thread_mode = Some(0);
    assert_eq!(resolve(&o).thread_mode, ThreadModeChoice::Sequential);
    o.thread_mode = Some(1);
    assert_eq!(resolve(&o).thread_mode, ThreadModeChoice::Parallel);
    o.thread_mode = Some(7);
    assert_eq!(resolve(&o).thread_mode, ThreadModeChoice::Sequential);
}

#[test]
fn explicit_fields_override_defaults() {
    let mut o = empty_options();
    o.memory_cost = Some(64);
    o.time_cost = Some(1);
    o.lanes = Some(2);
    o.hash_length = Some(24);
    o.secret = Some(vec![1, 2, 3]);
    o.data = Some(vec![4, 5]);
    let c = resolve(&o);
    assert_eq!(c.mem_cost, 64);
    assert_eq!(c.time_cost, 1);
    assert_eq!(c.lanes, 2);
    assert_eq!(c.hash_length, 24);
    assert_eq!(c.secret, vec![1, 2, 3]);
    assert_eq!(c.ad, vec![4, 5]);
}
