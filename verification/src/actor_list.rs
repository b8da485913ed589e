use vstd::prelude::*;

use crate::bytes::{le_u32, le_u64, lemma_le_u64_of_bytes, read_u64_le, u64_le_bytes};
use crate::schema::{Entry, TArray, ULevel, UWorld, ENTRY_OFFSET};
use crate::state::{Reply, ReplyView, StateCacheType};

verus! {

/// The actors of the current level, as a copy of the level's actor array.
pub struct StateActorList(pub TArray);

impl core::ops::Deref for StateActorList {
    type Target = TArray;

    fn deref(&self) -> (r: &TArray)
        ensures
            *r == self.0,
    {
        &self.0
    }
}

/// Why the actor list could not be resolved.
#[derive(Debug, Clone, Copy, PartialEq, Eq, Structural)]
pub enum ActorListError {
    /// The entry's world pointer could not be read.
    UWorldUnreadable,
    /// The world's level pointer could not be read.
    ULevelUnreadable,
    /// The level's actor array pointer could not be read.
    ActorArrayUnreadable,
    /// A pointer on the way was null.
    NullPointer,
    /// The actor array itself could not be copied.
    ActorArrayCopy,
}

/// Where resolving the actor list stands; each stage names what it waits for.
#[derive(Debug, Clone, Copy, PartialEq, Eq, Structural)]
pub enum ActorListStage {
    /// Reads the 8-byte world pointer of the entry at `entry`.
    UWorldField { entry: u64 },
    /// Waits for the world pointer `encrypted` to be decrypted.
    DecryptUWorld { encrypted: u64 },
    /// Reads the 8-byte level pointer of the world at `u_world`.
    ULevelField { u_world: u64 },
    /// Waits for the level pointer `encrypted` to be decrypted.
    DecryptULevel { encrypted: u64 },
    /// Reads the 8-byte actor array pointer of the level at `u_level`.
    ActorsField { u_level: u64 },
    /// Waits for the actor array pointer `encrypted` to be decrypted.
    DecryptActors { encrypted: u64 },
    /// Copies the 16-byte actor array at `address`.
    ActorArray { address: u64 },
}

/// What follows an event: the next stage, the actor list, or an error.
pub enum ActorListStep {
    Next(ActorListStage),
    Done(StateActorList),
    Failed(ActorListError),
}

/// The address and size of the read that `stage` waits for, or `None` for a
/// stage that waits for a decryption.
pub open spec fn spec_stage_read(stage: ActorListStage) -> Option<(int, nat)> {
    match stage {
        ActorListStage::UWorldField { entry } => Some((entry + Entry::U_WORLD, 8)),
        ActorListStage::ULevelField { u_world } => Some((u_world + UWorld::U_LEVEL, 8)),
        ActorListStage::ActorsField { u_level } => Some((u_level + ULevel::ACTORS, 8)),
        ActorListStage::ActorArray { address } => Some((address as int, 16)),
        _ => None,
    }
}

/// Whether the stage's read address fits in 64 bits.
pub open spec fn spec_stage_fits(stage: ActorListStage) -> bool {
    match spec_stage_read(stage) {
        Some((address, _)) => address <= u64::MAX,
        None => true,
    }
}

/// Whether `event` is what `stage` waits for: bytes of the right size (or a
/// failed read) for a read, an address for a decryption.
pub open spec fn spec_event_fits(stage: ActorListStage, event: ReplyView) -> bool {
    match spec_stage_read(stage) {
        Some((_, size)) => match event {
            ReplyView::Read(Some(data)) => data.len() == size,
            ReplyView::Read(None) => true,
            ReplyView::Decrypted(_) => false,
        },
        None => event is Decrypted,
    }
}

/// The step from a field read: `fail` where the read failed, a null pointer
/// error where the pointer is zero, and `decrypt` of the pointer otherwise.
pub open spec fn spec_pointer_step(
    data: Option<Seq<u8>>,
    fail: ActorListError,
    decrypt: spec_fn(u64) -> ActorListStage,
) -> ActorListStep {
    match data {
        None => ActorListStep::Failed(fail),
        Some(bytes) => {
            let pointer = le_u64(bytes, 0);
            if pointer > 0 {
                ActorListStep::Next(decrypt(pointer))
            } else {
                ActorListStep::Failed(ActorListError::NullPointer)
            }
        },
    }
}

/// The step from `stage` on `event`.
pub open spec fn spec_actor_list_step(stage: ActorListStage, event: ReplyView) -> ActorListStep {
    match (stage, event) {
        (ActorListStage::UWorldField { .. }, ReplyView::Read(data)) => spec_pointer_step(
            data,
            ActorListError::UWorldUnreadable,
            |p: u64| ActorListStage::DecryptUWorld { encrypted: p },
        ),
        (ActorListStage::DecryptUWorld { .. }, ReplyView::Decrypted(a)) => ActorListStep::Next(
            ActorListStage::ULevelField { u_world: a },
        ),
        (ActorListStage::ULevelField { .. }, ReplyView::Read(data)) => spec_pointer_step(
            data,
            ActorListError::ULevelUnreadable,
            |p: u64| ActorListStage::DecryptULevel { encrypted: p },
        ),
        (ActorListStage::DecryptULevel { .. }, ReplyView::Decrypted(a)) => ActorListStep::Next(
            ActorListStage::ActorsField { u_level: a },
        ),
        (ActorListStage::ActorsField { .. }, ReplyView::Read(data)) => spec_pointer_step(
            data,
            ActorListError::ActorArrayUnreadable,
            |p: u64| ActorListStage::DecryptActors { encrypted: p },
        ),
        (ActorListStage::DecryptActors { .. }, ReplyView::Decrypted(a)) => ActorListStep::Next(
            ActorListStage::ActorArray { address: a },
        ),
        (ActorListStage::ActorArray { .. }, ReplyView::Read(Some(bytes))) => ActorListStep::Done(
            StateActorList(
                TArray {
                    data: le_u64(bytes, 0x0),
                    count: le_u32(bytes, 0x8),
                    max: le_u32(bytes, 0xC),
                },
            ),
        ),
        (ActorListStage::ActorArray { .. }, ReplyView::Read(None)) => ActorListStep::Failed(
            ActorListError::ActorArrayCopy,
        ),
        _ => ActorListStep::Failed(ActorListError::NullPointer),
    }
}

/// Whether the step from `stage` on `event` is defined: the event is the one
/// the stage waits for, and the address that the next stage reads at fits in
/// 64 bits.
pub open spec fn spec_actor_list_accepts(stage: ActorListStage, event: ReplyView) -> bool {
    &&& spec_event_fits(stage, event)
    &&& match spec_actor_list_step(stage, event) {
        ActorListStep::Next(next) => spec_stage_fits(next),
        _ => true,
    }
}

/// What a game answers for `stage`: `read(address, size)` gives the bytes of a
/// read (`None` where it fails) and `decrypt` the decryption of a pointer.
pub open spec fn spec_game_reply(
    stage: ActorListStage,
    read: spec_fn(int, nat) -> Option<Seq<u8>>,
    decrypt: spec_fn(u64) -> u64,
) -> ReplyView {
    match stage {
        ActorListStage::DecryptUWorld { encrypted } => ReplyView::Decrypted(decrypt(encrypted)),
        ActorListStage::DecryptULevel { encrypted } => ReplyView::Decrypted(decrypt(encrypted)),
        ActorListStage::DecryptActors { encrypted } => ReplyView::Decrypted(decrypt(encrypted)),
        _ => {
            let (address, size) = spec_stage_read(stage)->0;
            ReplyView::Read(read(address, size))
        },
    }
}

/// Drives the resolution from `stage` for at most `fuel` steps, answering
/// each from the game.
pub open spec fn spec_run_actor_list(
    stage: ActorListStage,
    read: spec_fn(int, nat) -> Option<Seq<u8>>,
    decrypt: spec_fn(u64) -> u64,
    fuel: nat,
) -> Option<Result<TArray, ActorListError>>
    decreases fuel,
{
    if fuel == 0 {
        None
    } else {
        match spec_actor_list_step(stage, spec_game_reply(stage, read, decrypt)) {
            ActorListStep::Next(next) => spec_run_actor_list(next, read, decrypt, (fuel - 1) as nat),
            ActorListStep::Done(StateActorList(array)) => Some(Ok(array)),
            ActorListStep::Failed(e) => Some(Err(e)),
        }
    }
}

/// The pointer in a field read: `fail` where the read failed, a null pointer
/// error where it is zero.
pub open spec fn spec_follow(data: Option<Seq<u8>>, fail: ActorListError) -> Result<
    u64,
    ActorListError,
> {
    match data {
        None => Err(fail),
        Some(bytes) => if le_u64(bytes, 0) > 0 {
            Ok(le_u64(bytes, 0))
        } else {
            Err(ActorListError::NullPointer)
        },
    }
}

/// The actor array of the game module at `base`: the entry's world pointer,
/// the world's level pointer and the level's actor array pointer, each read
/// and decrypted in turn, then the array copied.
pub open spec fn spec_actor_list(
    base: u64,
    read: spec_fn(int, nat) -> Option<Seq<u8>>,
    decrypt: spec_fn(u64) -> u64,
) -> Result<TArray, ActorListError> {
    match spec_follow(read(base + ENTRY_OFFSET + Entry::U_WORLD, 8), ActorListError::UWorldUnreadable) {
        Err(e) => Err(e),
        Ok(world) => {
            let u_world = decrypt(world);
            match spec_follow(read(u_world + UWorld::U_LEVEL, 8), ActorListError::ULevelUnreadable) {
                Err(e) => Err(e),
                Ok(level) => {
                    let u_level = decrypt(level);
                    match spec_follow(
                        read(u_level + ULevel::ACTORS, 8),
                        ActorListError::ActorArrayUnreadable,
                    ) {
                        Err(e) => Err(e),
                        Ok(actors) => match read(decrypt(actors) as int, 16) {
                            None => Err(ActorListError::ActorArrayCopy),
                            Some(bytes) => Ok(
                                TArray {
                                    data: le_u64(bytes, 0x0),
                                    count: le_u32(bytes, 0x8),
                                    max: le_u32(bytes, 0xC),
                                },
                            ),
                        },
                    }
                },
            }
        },
    }
}

/// Answering every step from one game, the resolution started at a module
/// base ends within seven steps with that game's actor array, or with the
/// error of the first pointer that cannot be read or is null.
pub proof fn lemma_actor_list_follows_pointers(
    base: u64,
    read: spec_fn(int, nat) -> Option<Seq<u8>>,
    decrypt: spec_fn(u64) -> u64,
)
    requires
        base + ENTRY_OFFSET <= u64::MAX,
    ensures
        spec_run_actor_list(
            ActorListStage::UWorldField { entry: (base + ENTRY_OFFSET) as u64 },
            read,
            decrypt,
            7,
        ) == Some(spec_actor_list(base, read, decrypt)),
{
    reveal_with_fuel(spec_run_actor_list, 8);
}

/// A field read of the little-endian bytes of any `v` is taken as the whole
/// pointer `v`: zero is null, and any other value, high bits included, is
/// decrypted as it is.
pub proof fn lemma_actor_list_reads_whole_pointers(v: u64, entry: u64, u_world: u64, u_level: u64)
    ensures
        spec_follow(Some(u64_le_bytes(v)), ActorListError::UWorldUnreadable) == if v == 0 {
            Err::<u64, ActorListError>(ActorListError::NullPointer)
        } else {
            Ok(v)
        },
        spec_actor_list_step(
            ActorListStage::UWorldField { entry },
            ReplyView::Read(Some(u64_le_bytes(v))),
        ) == if v == 0 {
            ActorListStep::Failed(ActorListError::NullPointer)
        } else {
            ActorListStep::Next(ActorListStage::DecryptUWorld { encrypted: v })
        },
        spec_actor_list_step(
            ActorListStage::ULevelField { u_world },
            ReplyView::Read(Some(u64_le_bytes(v))),
        ) == if v == 0 {
            ActorListStep::Failed(ActorListError::NullPointer)
        } else {
            ActorListStep::Next(ActorListStage::DecryptULevel { encrypted: v })
        },
        spec_actor_list_step(
            ActorListStage::ActorsField { u_level },
            ReplyView::Read(Some(u64_le_bytes(v))),
        ) == if v == 0 {
            ActorListStep::Failed(ActorListError::NullPointer)
        } else {
            ActorListStep::Next(ActorListStage::DecryptActors { encrypted: v })
        },
{
    lemma_le_u64_of_bytes(v);
}

/// The step from a field read, as `spec_pointer_step` states it.
fn pointer_step(
    data: Option<Vec<u8>>,
    fail: ActorListError,
    which: u8,
) -> (r: ActorListStep)
    requires
        data matches Some(bytes) ==> bytes@.len() == 8,
        which < 3,
    ensures
        r == spec_pointer_step(
            match data {
                Some(bytes) => Some(bytes@),
                None => None,
            },
            fail,
            |p: u64|
                if which == 0 {
                    ActorListStage::DecryptUWorld { encrypted: p }
                } else if which == 1 {
                    ActorListStage::DecryptULevel { encrypted: p }
                } else {
                    ActorListStage::DecryptActors { encrypted: p }
                },
        ),
{
    match data {
        None => ActorListStep::Failed(fail),
        Some(bytes) => {
            let pointer = read_u64_le(bytes.as_slice(), 0);
            if pointer > 0 {
                if which == 0 {
                    ActorListStep::Next(ActorListStage::DecryptUWorld { encrypted: pointer })
                } else if which == 1 {
                    ActorListStep::Next(ActorListStage::DecryptULevel { encrypted: pointer })
                } else {
                    ActorListStep::Next(ActorListStage::DecryptActors { encrypted: pointer })
                }
            } else {
                ActorListStep::Failed(ActorListError::NullPointer)
            }
        },
    }
}

impl ActorListStage {
    /// The read that this stage waits for, as address and size, or `None`
    /// where it waits for a decryption.
    pub fn read(&self) -> (r: Option<(u64, usize)>)
        requires
            spec_stage_fits(*self),
        ensures
            match spec_stage_read(*self) {
                Some((address, size)) => r == Some((address as u64, size as usize)),
                None => r is None,
            },
    {
        match *self {
            ActorListStage::UWorldField { entry } => Some((entry + Entry::U_WORLD as u64, 8)),
            ActorListStage::ULevelField { u_world } => Some((u_world + UWorld::U_LEVEL as u64, 8)),
            ActorListStage::ActorsField { u_level } => Some((u_level + ULevel::ACTORS as u64, 8)),
            ActorListStage::ActorArray { address } => Some((address, 16)),
            _ => None,
        }
    }

    /// Whether `step` is defined on `event`.
    pub fn accepts(&self, event: &Reply) -> (r: bool)
        ensures
            r == spec_actor_list_accepts(*self, event@),
    {
        match (*self, event) {
            (ActorListStage::UWorldField { .. }, Reply::Read(data))
            | (ActorListStage::ULevelField { .. }, Reply::Read(data))
            | (ActorListStage::ActorsField { .. }, Reply::Read(data)) => match data {
                None => true,
                Some(bytes) => bytes.len() == 8,
            },
            (ActorListStage::ActorArray { .. }, Reply::Read(data)) => match data {
                None => true,
                Some(bytes) => bytes.len() == 16,
            },
            (ActorListStage::DecryptUWorld { .. }, Reply::Decrypted(a)) => *a
                <= u64::MAX - UWorld::U_LEVEL as u64,
            (ActorListStage::DecryptULevel { .. }, Reply::Decrypted(a)) => *a
                <= u64::MAX - ULevel::ACTORS as u64,
            (ActorListStage::DecryptActors { .. }, Reply::Decrypted(_)) => true,
            _ => false,
        }
    }
}

impl StateActorList {
    /// Starts resolving the actor list from the base address of the game
    /// module: the first read is the world pointer of the global entry.
    pub fn create(base_address: u64) -> (r: ActorListStage)
        requires
            base_address + ENTRY_OFFSET <= u64::MAX,
        ensures
            r == (ActorListStage::UWorldField { entry: (base_address + ENTRY_OFFSET) as u64 }),
            spec_stage_fits(r),
    {
        ActorListStage::UWorldField { entry: base_address + ENTRY_OFFSET }
    }

    /// Takes what the caller did for `stage` and moves on: a pointer that
    /// cannot be read or is null ends the resolution with an error, a
    /// non-null one is decrypted and followed, and the copied actor array
    /// ends it.
    pub fn step(stage: ActorListStage, event: Reply) -> (r: ActorListStep)
        requires
            spec_actor_list_accepts(stage, event@),
        ensures
            r == spec_actor_list_step(stage, event@),
            r matches ActorListStep::Next(next) ==> spec_stage_fits(next),
    {
        match (stage, event) {
            (ActorListStage::UWorldField { .. }, Reply::Read(data)) => pointer_step(
                data,
                ActorListError::UWorldUnreadable,
                0,
            ),
            (ActorListStage::DecryptUWorld { .. }, Reply::Decrypted(a)) => ActorListStep::Next(
                ActorListStage::ULevelField { u_world: a },
            ),
            (ActorListStage::ULevelField { .. }, Reply::Read(data)) => pointer_step(
                data,
                ActorListError::ULevelUnreadable,
                1,
            ),
            (ActorListStage::DecryptULevel { .. }, Reply::Decrypted(a)) => ActorListStep::Next(
                ActorListStage::ActorsField { u_level: a },
            ),
            (ActorListStage::ActorsField { .. }, Reply::Read(data)) => pointer_step(
                data,
                ActorListError::ActorArrayUnreadable,
                2,
            ),
            (ActorListStage::DecryptActors { .. }, Reply::Decrypted(a)) => ActorListStep::Next(
                ActorListStage::ActorArray { address: a },
            ),
            (ActorListStage::ActorArray { .. }, Reply::Read(Some(bytes))) => ActorListStep::Done(
                StateActorList(TArray::decode(bytes.as_slice())),
            ),
            (ActorListStage::ActorArray { .. }, Reply::Read(None)) => ActorListStep::Failed(
                ActorListError::ActorArrayCopy,
            ),
            _ => ActorListStep::Failed(ActorListError::NullPointer),
        }
    }

    /// How long the actor list stays valid: one frame.
    pub fn cache_type() -> (r: StateCacheType)
        ensures
            r == StateCacheType::Volatile,
    {
        StateCacheType::Volatile
    }
}

} // verus!
