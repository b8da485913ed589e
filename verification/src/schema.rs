//! The layout of the engine objects that are read from the game's memory.
//! Each object is decoded from a copy of its bytes; every field sits at a
//! fixed offset, little-endian.
use vstd::prelude::*;

use crate::bytes::{le_u32, le_u64, read_u32_le, read_u64_le};
use crate::encrypted_ptr::EncryptedPtr64;

verus! {

/// Offset of the global `Entry` object from the game module's base.
pub const ENTRY_OFFSET: u64 = 0x108535F8;

/// The global entry point of the engine's object graph.
#[derive(Debug, Clone, Copy)]
pub struct Entry {
    pub u_world: EncryptedPtr64<UWorld>,
}

impl Entry {
    pub const SIZE: usize = 0x8;

    pub const U_WORLD: usize = 0x0;

    pub fn decode(bytes: &[u8]) -> (r: Entry)
        requires
            bytes@.len() == 0x8,
        ensures
            r.u_world@ == le_u64(bytes@, 0x0),
    {
        Entry { u_world: EncryptedPtr64::new(read_u64_le(bytes, 0x0)) }
    }
}

/// The loaded world.
#[derive(Debug, Clone, Copy)]
pub struct UWorld {
    pub u_level: EncryptedPtr64<ULevel>,
    pub game_instance: EncryptedPtr64<GameInstance>,
}

impl UWorld {
    pub const SIZE: usize = 0x168;

    pub const U_LEVEL: usize = 0x150;

    pub const GAME_INSTANCE: usize = 0x160;

    pub fn decode(bytes: &[u8]) -> (r: UWorld)
        requires
            bytes@.len() == 0x168,
        ensures
            r.u_level@ == le_u64(bytes@, 0x150),
            r.game_instance@ == le_u64(bytes@, 0x160),
    {
        UWorld {
            u_level: EncryptedPtr64::new(read_u64_le(bytes, 0x150)),
            game_instance: EncryptedPtr64::new(read_u64_le(bytes, 0x160)),
        }
    }
}

/// The current level, which holds the actors.
#[derive(Debug, Clone, Copy)]
pub struct ULevel {
    pub actors: EncryptedPtr64<TArray>,
}

impl ULevel {
    pub const SIZE: usize = 0x48;

    pub const ACTORS: usize = 0x40;

    pub fn decode(bytes: &[u8]) -> (r: ULevel)
        requires
            bytes@.len() == 0x48,
        ensures
            r.actors@ == le_u64(bytes@, 0x40),
    {
        ULevel { actors: EncryptedPtr64::new(read_u64_le(bytes, 0x40)) }
    }
}

/// The game instance, which holds the local players.
#[derive(Debug, Clone, Copy)]
pub struct GameInstance {
    pub local_players: EncryptedPtr64<LocalPlayers>,
}

impl GameInstance {
    pub const SIZE: usize = 0x80;

    pub const LOCAL_PLAYERS: usize = 0x78;

    pub fn decode(bytes: &[u8]) -> (r: GameInstance)
        requires
            bytes@.len() == 0x80,
        ensures
            r.local_players@ == le_u64(bytes@, 0x78),
    {
        GameInstance { local_players: EncryptedPtr64::new(read_u64_le(bytes, 0x78)) }
    }
}

/// The local players of a game instance.
#[derive(Debug, Clone, Copy)]
pub struct LocalPlayers {
    pub player_controller: EncryptedPtr64<APlayerController>,
}

impl LocalPlayers {
    pub const SIZE: usize = 0x38;

    pub const PLAYER_CONTROLLER: usize = 0x30;

    pub fn decode(bytes: &[u8]) -> (r: LocalPlayers)
        requires
            bytes@.len() == 0x38,
        ensures
            r.player_controller@ == le_u64(bytes@, 0x30),
    {
        LocalPlayers { player_controller: EncryptedPtr64::new(read_u64_le(bytes, 0x30)) }
    }
}

/// An engine array: `count` elements of 8-byte pointers at `data`, with room
/// for `max`.
#[derive(Debug, Clone, Copy)]
pub struct TArray {
    pub data: u64,
    pub count: u32,
    pub max: u32,
}

impl TArray {
    pub const SIZE: usize = 0x10;

    pub const DATA: usize = 0x0;

    pub const COUNT: usize = 0x8;

    pub const MAX: usize = 0xC;

    pub fn decode(bytes: &[u8]) -> (r: TArray)
        requires
            bytes@.len() == 0x10,
        ensures
            r.data == le_u64(bytes@, 0x0),
            r.count == le_u32(bytes@, 0x8),
            r.max == le_u32(bytes@, 0xC),
    {
        TArray {
            data: read_u64_le(bytes, 0x0),
            count: read_u32_le(bytes, 0x8),
            max: read_u32_le(bytes, 0xC),
        }
    }
}

/// An actor of the level: `root_component` and `mesh` are addresses.
#[derive(Debug, Clone, Copy)]
pub struct AActor {
    pub root_component: u64,
    pub mesh: u64,
}

impl AActor {
    pub const SIZE: usize = 0x478;

    pub const ROOT_COMPONENT: usize = 0x220;

    pub const MESH: usize = 0x470;

    pub fn decode(bytes: &[u8]) -> (r: AActor)
        requires
            bytes@.len() >= 0x478,
        ensures
            r.root_component == le_u64(bytes@, 0x220),
            r.mesh == le_u64(bytes@, 0x470),
    {
        AActor { root_component: read_u64_le(bytes, 0x220), mesh: read_u64_le(bytes, 0x470) }
    }
}

/// A player controller, which is an actor too: the pointers are addresses.
#[derive(Debug, Clone, Copy)]
pub struct APlayerController {
    pub actor: AActor,
    pub player_state: u64,
    pub acknowledged_pawn: u64,
    pub player_camera_manager: u64,
}

impl APlayerController {
    pub const SIZE: usize = 0x4C8;

    pub const PLAYER_STATE: usize = 0x428;

    pub const ACKNOWLEDGED_PAWN: usize = 0x498;

    pub const PLAYER_CAMERA_MANAGER: usize = 0x4C0;

    pub fn decode(bytes: &[u8]) -> (r: APlayerController)
        requires
            bytes@.len() == 0x4C8,
        ensures
            r.actor.root_component == le_u64(bytes@, 0x220),
            r.actor.mesh == le_u64(bytes@, 0x470),
            r.player_state == le_u64(bytes@, 0x428),
            r.acknowledged_pawn == le_u64(bytes@, 0x498),
            r.player_camera_manager == le_u64(bytes@, 0x4C0),
    {
        APlayerController {
            actor: AActor::decode(bytes),
            player_state: read_u64_le(bytes, 0x428),
            acknowledged_pawn: read_u64_le(bytes, 0x498),
            player_camera_manager: read_u64_le(bytes, 0x4C0),
        }
    }
}

/// A pawn, which is an actor too.
#[derive(Debug, Clone, Copy)]
pub struct APawn {
    pub actor: AActor,
    pub spectated_count: u32,
    pub last_team_num: u32,
}

impl APawn {
    pub const SIZE: usize = 0x1744;

    pub const SPECTATED_COUNT: usize = 0x13B0;

    pub const LAST_TEAM_NUM: usize = 0x1740;

    pub fn decode(bytes: &[u8]) -> (r: APawn)
        requires
            bytes@.len() == 0x1744,
        ensures
            r.actor.root_component == le_u64(bytes@, 0x220),
            r.actor.mesh == le_u64(bytes@, 0x470),
            r.spectated_count == le_u32(bytes@, 0x13B0),
            r.last_team_num == le_u32(bytes@, 0x1740),
    {
        APawn {
            actor: AActor::decode(bytes),
            spectated_count: read_u32_le(bytes, 0x13B0),
            last_team_num: read_u32_le(bytes, 0x1740),
        }
    }
}

} // verus!
