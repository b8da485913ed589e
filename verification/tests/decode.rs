use pubg::bytes::{read_u32_le, read_u64_le};
use pubg::{APawn, APlayerController, Entry, TArray, ULevel, UWorld};

#[test]
fn little_endian_reads() {
    let bytes = [0x01u8, 0x02, 0x03, 0x04, 0x05, 0x06, 0x07, 0x08, 0x09];
    assert_eq!(read_u32_le(&bytes, 0), 0x0403_0201);
    assert_eq!(read_u32_le(&bytes, 5), 0x0908_0706);
    assert_eq!(read_u64_le(&bytes, 1), 0x0908_0706_0504_0302);
}

#[test]
fn tarray_decodes_its_fields() {
    let mut bytes = [0u8; 16];
    bytes[0..8].copy_from_slice(&0x1122_3344_5566_7788u64.to_le_bytes());
    bytes[8..12].copy_from_slice(&42u32.to_le_bytes());
    bytes[12..16].copy_from_slice(&64u32.to_le_bytes());
    let a = TArray::decode(&bytes);
    assert_eq!(a.data, 0x1122_3344_5566_7788);
    assert_eq!(a.count, 42);
    assert_eq!(a.max, 64);
}

#[test]
fn pawn_decodes_its_fields() {
    let mut bytes = vec![0u8; APawn::SIZE];
    bytes[0x13B0..0x13B4].copy_from_slice(&3u32.to_le_bytes());
    bytes[0x1740..0x1744].copy_from_slice(&17u32.to_le_bytes());
    bytes[0x220..0x228].copy_from_slice(&0xAAAAu64.to_le_bytes());
    bytes[0x470..0x478].copy_from_slice(&0xBBBBu64.to_le_bytes());
    let pawn = APawn::decode(&bytes);
    assert_eq!(pawn.spectated_count, 3);
    assert_eq!(pawn.last_team_num, 17);
    assert_eq!(pawn.actor.root_component, 0xAAAA);
    assert_eq!(pawn.actor.mesh, 0xBBBB);
}

#[test]
fn pointer_objects_decode_their_fields() {
    let entry = Entry::decode(&0x99u64.to_le_bytes());
    assert_eq!(entry.u_world.address, 0x99);

    let mut world = vec![0u8; UWorld::SIZE];
    world[0x150..0x158].copy_from_slice(&5u64.to_le_bytes());
    world[0x160..0x168].copy_from_slice(&6u64.to_le_bytes());
    let w = UWorld::decode(&world);
    assert_eq!(w.u_level.address, 5);
    assert_eq!(w.game_instance.address, 6);

    let mut level = vec![0u8; ULevel::SIZE];
    level[0x40..0x48].copy_from_slice(&7u64.to_le_bytes());
    assert_eq!(ULevel::decode(&level).actors.address, 7);

    let mut pc = vec![0u8; APlayerController::SIZE];
    pc[0x428..0x430].copy_from_slice(&1u64.to_le_bytes());
    pc[0x498..0x4A0].copy_from_slice(&2u64.to_le_bytes());
    pc[0x4C0..0x4C8].copy_from_slice(&3u64.to_le_bytes());
    let c = APlayerController::decode(&pc);
    assert_eq!(c.player_state, 1);
    assert_eq!(c.acknowledged_pawn, 2);
    assert_eq!(c.player_camera_manager, 3);
}
