use std::collections::HashMap;

use pubg::{HealthProbe, HealthStep, PlayerSpyer};

fn read(memory: &HashMap<u64, u8>, address: u64, size: u64) -> Vec<u8> {
    (0..size).map(|i| *memory.get(&(address + i)).unwrap_or(&0)).collect()
}

fn put(memory: &mut HashMap<u64, u8>, address: u64, bytes: &[u8]) {
    for (i, b) in bytes.iter().enumerate() {
        memory.insert(address + i as u64, *b);
    }
}

/// Drives a health probe against `memory`, returning the health bytes and
/// the addresses that were read.
fn run(memory: &HashMap<u64, u8>, actor: u64) -> ([u8; 4], Vec<u64>) {
    let spyer = PlayerSpyer::new();
    let mut probe = HealthProbe::start(actor);
    let mut reads = Vec::new();
    loop {
        let r = probe.read();
        reads.push(r.address);
        let data = read(memory, r.address, r.size);
        assert!(probe.accepts(&data));
        match spyer.get_health(probe, &data) {
            HealthStep::Next(next) => probe = next,
            HealthStep::Done(bytes) => return (bytes, reads),
        }
    }
}

#[test]
fn decrypt_uses_little_endian_key_bytes() {
    let spyer = PlayerSpyer::new();
    let mut zero = [0u8; 4];
    spyer.decrypt_player_health(&mut zero, 0);
    assert_eq!(zero, [0x9F, 0xA5, 0xC7, 0xCE]);

    let mut zero = [0u8; 4];
    spyer.decrypt_player_health(&mut zero, 4);
    assert_eq!(zero, [0x3E, 0xB2, 0x63, 0x9B]);
}

#[test]
fn decrypt_wraps_around_the_key_stream() {
    let spyer = PlayerSpyer::new();
    let mut zero = [0u8; 4];
    spyer.decrypt_player_health(&mut zero, 62);
    assert_eq!(zero, [0xD7, 0xE2, 0x9F, 0xA5]);

    let mut zero = [0u8; 2];
    spyer.decrypt_player_health(&mut zero, 64 + 1);
    assert_eq!(zero, [0xA5, 0xC7]);
}

#[test]
fn decrypt_xors_the_value() {
    let spyer = PlayerSpyer::new();
    let mut value = [0xFFu8, 0x00, 0x0F, 0xF0];
    spyer.decrypt_player_health(&mut value, 0);
    assert_eq!(value, [0xFF ^ 0x9F, 0xA5, 0x0F ^ 0xC7, 0xF0 ^ 0xCE]);
}

#[test]
fn decrypt_twice_restores_the_value() {
    let spyer = PlayerSpyer::new();
    let original = 87.5f32.to_le_bytes();
    let mut value = original;
    spyer.decrypt_player_health(&mut value, 13);
    assert_ne!(value, original);
    spyer.decrypt_player_health(&mut value, 13);
    assert_eq!(value, original);
}

#[test]
fn decrypt_empty_value() {
    let spyer = PlayerSpyer::new();
    let mut empty: [u8; 0] = [];
    spyer.decrypt_player_health(&mut empty, u32::MAX);
    assert_eq!(empty.len(), 0);
}

#[test]
fn health_from_the_plain_slot_when_flag_is_three() {
    let actor = 0x1000;
    let mut memory = HashMap::new();
    put(&mut memory, actor + 0x380, &[3]);
    put(&mut memory, actor + 0xA28, &1u32.to_le_bytes());
    put(&mut memory, actor + 0x970, &100.0f32.to_le_bytes());
    let (bytes, reads) = run(&memory, actor);
    assert_eq!(f32::from_le_bytes(bytes), 100.0);
    assert_eq!(reads, vec![actor + 0x380, actor + 0xA28, actor + 0x970]);
}

#[test]
fn health_from_the_plain_slot_when_guard_is_zero() {
    let actor = 0x2000;
    let mut memory = HashMap::new();
    put(&mut memory, actor + 0x380, &[1]);
    put(&mut memory, actor + 0x970, &42.0f32.to_le_bytes());
    let (bytes, _) = run(&memory, actor);
    assert_eq!(f32::from_le_bytes(bytes), 42.0);
}

#[test]
fn health_from_the_guarded_slot_unencrypted() {
    let actor = 0x3000;
    let mut memory = HashMap::new();
    put(&mut memory, actor + 0x380, &[0]);
    put(&mut memory, actor + 0xA28, &5u32.to_le_bytes());
    put(&mut memory, actor + 0xA45, &[0]);
    put(&mut memory, actor + 0xA44, &[8]);
    put(&mut memory, actor + 0xA30 + 8, &64.0f32.to_le_bytes());
    let (bytes, reads) = run(&memory, actor);
    assert_eq!(f32::from_le_bytes(bytes), 64.0);
    assert_eq!(
        reads,
        vec![actor + 0x380, actor + 0xA28, actor + 0xA45, actor + 0xA44, actor + 0xA30 + 8]
    );
}

#[test]
fn health_from_the_guarded_slot_encrypted() {
    let spyer = PlayerSpyer::new();
    let actor = 0x4000;
    let mut encrypted = 75.0f32.to_le_bytes();
    spyer.decrypt_player_health(&mut encrypted, 9);
    let mut memory = HashMap::new();
    put(&mut memory, actor + 0x380, &[0]);
    put(&mut memory, actor + 0xA28, &5u32.to_le_bytes());
    put(&mut memory, actor + 0xA45, &[1]);
    put(&mut memory, actor + 0xA44, &[4]);
    put(&mut memory, actor + 0xA30 + 4, &encrypted);
    put(&mut memory, actor + 0xA40, &9u32.to_le_bytes());
    let (bytes, reads) = run(&memory, actor);
    assert_eq!(f32::from_le_bytes(bytes), 75.0);
    assert_eq!(reads.len(), 6);
    assert_eq!(reads[5], actor + 0xA40);
}

#[test]
fn health_probe_refuses_wrong_sizes_and_overflow() {
    let probe = HealthProbe::start(0x1000);
    assert!(!probe.accepts(&[0, 0]));
    assert!(probe.accepts(&[0]));
    let probe = HealthProbe::start(u64::MAX - 0x380);
    assert!(!probe.accepts(&[0]));
    let key = HealthProbe::KeyOffset { actor: 0, value: [0; 4] };
    assert!(!key.accepts(&(u32::MAX - 2).to_le_bytes()));
    assert!(key.accepts(&(u32::MAX - 3).to_le_bytes()));
}

#[test]
fn health_ignores_bytes_it_does_not_read() {
    let actor = 0x5000;
    let mut memory = HashMap::new();
    put(&mut memory, actor + 0x380, &[3]);
    put(&mut memory, actor + 0x970, &55.0f32.to_le_bytes());
    let (first, _) = run(&memory, actor);
    put(&mut memory, actor + 0x400, &[0xAB; 16]);
    put(&mut memory, actor + 0xA30, &[0xCD; 8]);
    let (second, _) = run(&memory, actor);
    assert_eq!(first, second);
    assert_eq!(f32::from_le_bytes(second), 55.0);
}
