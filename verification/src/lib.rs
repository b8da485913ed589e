//! Game-state decoding for the PUBG and CS2 enhancers: the offsets that the
//! CS2 client exposes, encrypted pointers, the layout of the engine objects,
//! and the decisions that turn memory reads into player information.
//!
//! Reading the game's memory and decrypting its pointers happen outside of
//! this library: the resolvers here are state machines that name the next
//! read or decryption, take its result, and decide what follows.

pub mod actor_list;
pub mod bytes;
pub mod encrypted_ptr;
pub mod health;
pub mod logger;
pub mod offsets;
pub mod player;
pub mod report;
pub mod scan;
pub mod schema;
pub mod signature;
pub mod state;

pub use actor_list::{ActorListError, ActorListStage, ActorListStep, StateActorList};
pub use encrypted_ptr::EncryptedPtr64;
pub use health::{HealthProbe, HealthStep, MemoryRead};
pub use logger::{Frame, FrameLog, FrameLogger, LogLevel};
pub use offsets::{
    CS2Offset, OffsetError, OffsetResolution, StatePredefinedOffset, StateResolvedOffset,
};
pub use player::PlayerSpyer;
pub use report::{PlayerData, MAX_REPORTED_PLAYERS};
pub use scan::{ActorScan, ScanError, ScanStep};
pub use schema::{
    AActor, APawn, APlayerController, Entry, GameInstance, LocalPlayers, TArray, ULevel, UWorld,
    ENTRY_OFFSET,
};
pub use signature::{Module, Signature, SignatureType};
pub use state::{Reply, StateCacheType};
