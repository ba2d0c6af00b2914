use ruid::layout::{DEVICE_ID_SHIFT, PREFIX_SHIFT, TIMESTAMP_SHIFT, VERSION_CODE_SHIFT};
use ruid::prefix::UNCATEGORIZED_DATA;
use rand::RngCore;
use rand::SeedableRng;
use rand_chacha::ChaCha20Rng;
use ruid::RuidGenerator;

fn prefix_field(v: u128) -> u16 {
    (v >> PREFIX_SHIFT) as u16
}

fn version_field(v: u128) -> u8 {
    ((v >> VERSION_CODE_SHIFT) & 0xF) as u8
}

fn device_field(v: u128) -> u16 {
    ((v >> DEVICE_ID_SHIFT) & 0xFFFF) as u16
}

fn timestamp_field(v: u128) -> u64 {
    ((v >> TIMESTAMP_SHIFT) & 0xFFFF_FFFF_FFFF) as u64
}

fn random_field(v: u128) -> u64 {
    (v & 0xFFF_FFFF_FFFF) as u64
}

#[test]
fn same_seed_same_identifiers() {
    let seed = [7u8; 32];
    let mut a = RuidGenerator::new().set_seed(seed).set_default_device_id(5).set_device_id(5);
    let mut b = RuidGenerator::new().set_seed(seed).set_default_device_id(5).set_device_id(5);
    for ts in [0u64, 1, 1_700_000_000_000_000, u64::MAX] {
        let x = a.generate_at(ts);
        let y = b.generate_at(ts);
        assert_eq!(x, y);
        assert_eq!(device_field(x.to_u128()), 5);
        assert_eq!(timestamp_field(x.to_u128()), ts & 0xFFFF_FFFF_FFFF);
    }
}

#[test]
fn different_seeds_different_random_fields() {
    let mut a = RuidGenerator::new().set_seed([1u8; 32]);
    let mut b = RuidGenerator::new().set_seed([2u8; 32]);
    let x = a.generate_at(100);
    let y = b.generate_at(100);
    assert_ne!(random_field(x.to_u128()), random_field(y.to_u128()));
}

#[test]
fn random_source_advances() {
    let mut g = RuidGenerator::new().set_seed([3u8; 32]);
    let x = g.generate_at(100);
    let y = g.generate_at(100);
    assert_ne!(x, y);
}

#[test]
fn one_shot_settings_reset() {
    let mut g = RuidGenerator::new()
        .set_seed([9u8; 32])
        .set_default_device_id(0x0042)
        .set_prefix(0x00AB)
        .set_device_id(0x0002);
    let first = g.generate().to_u128();
    assert_eq!(prefix_field(first), 0x00AB);
    assert_eq!(device_field(first), 0x0002);
    let second = g.generate().to_u128();
    assert_eq!(prefix_field(second), UNCATEGORIZED_DATA);
    assert_eq!(device_field(second), 0x0042);
    assert_eq!(version_field(second), 1);
}

#[test]
fn generate_with_is_exact() {
    let mut g = RuidGenerator::new().set_prefix(0x00AB).set_device_id(0x0002);
    let r = g.generate_with(1, 0);
    assert_eq!(r.to_u128(), 0x00ab_1000_2000_0000_0000_1000_0000_0000);
    let next = g.generate_with(1, 0);
    assert_eq!(next.to_u128(), RuidGenerator::generator(UNCATEGORIZED_DATA, 0, 1, 0));
}

#[test]
fn new_generator_defaults() {
    let mut g = RuidGenerator::new();
    let v = g.generate().to_u128();
    assert_eq!(prefix_field(v), UNCATEGORIZED_DATA);
    assert_eq!(device_field(v), 0);
    assert_eq!(version_field(v), 1);
}

#[test]
fn generate_stamps_the_clock() {
    let mask: u64 = 0xFFFF_FFFF_FFFF;
    let before = (chrono::Utc::now().timestamp_micros() as u64) & mask;
    let v = RuidGenerator::new().generate().to_u128();
    let after = (chrono::Utc::now().timestamp_micros() as u64) & mask;
    let ts = timestamp_field(v);
    if before <= after {
        assert!(before <= ts && ts <= after);
    }
    assert_ne!(ts, 0);
}

#[test]
fn random_fields_follow_the_seed_stream() {
    let seed = [11u8; 32];
    let mut stream = ChaCha20Rng::from_seed(seed);
    let mut g = RuidGenerator::new()
        .set_seed([4u8; 32])
        .set_prefix(0x0101)
        .set_seed(seed)
        .set_device_id(3);
    for _ in 0..3 {
        let v = g.generate().to_u128();
        assert_eq!(random_field(v), stream.next_u64() & 0xFFF_FFFF_FFFF);
    }
}

#[test]
fn reseeding_discards_earlier_draws() {
    let seed = [21u8; 32];
    let mut a = RuidGenerator::new().set_seed([1u8; 32]);
    a.generate_at(5);
    a.generate_at(6);
    let mut a = a.set_seed(seed);
    let mut b = RuidGenerator::new().set_seed(seed);
    assert_eq!(a.generate_at(9), b.generate_at(9));
    assert_eq!(a.generate_at(10), b.generate_at(10));
}
