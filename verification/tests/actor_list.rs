use std::collections::HashMap;

use pubg::{
    ActorListError, ActorListStage, ActorListStep, Reply, StateActorList, StateCacheType, TArray,
    ENTRY_OFFSET,
};

/// A game whose pointers decrypt by XOR with a fixed key.
struct Game {
    memory: HashMap<u64, u8>,
    unreadable: Vec<u64>,
}

const KEY: u64 = 0x5A5A_0000_0000_0000;

impl Game {
    fn new() -> Self {
        Game { memory: HashMap::new(), unreadable: Vec::new() }
    }

    fn put(&mut self, address: u64, bytes: &[u8]) {
        for (i, b) in bytes.iter().enumerate() {
            self.memory.insert(address + i as u64, *b);
        }
    }

    fn reply(&self, stage: &ActorListStage) -> Reply {
        match stage.read() {
            Some((address, size)) => {
                if self.unreadable.contains(&address) {
                    Reply::Read(None)
                } else {
                    Reply::Read(Some(
                        (0..size as u64)
                            .map(|i| *self.memory.get(&(address + i)).unwrap_or(&0))
                            .collect(),
                    ))
                }
            }
            None => match stage {
                ActorListStage::DecryptUWorld { encrypted }
                | ActorListStage::DecryptULevel { encrypted }
                | ActorListStage::DecryptActors { encrypted } => Reply::Decrypted(encrypted ^ KEY),
                _ => unreachable!(),
            },
        }
    }

    fn resolve(&self, base: u64) -> Result<TArray, ActorListError> {
        let mut stage = StateActorList::create(base);
        loop {
            let reply = self.reply(&stage);
            assert!(stage.accepts(&reply));
            match StateActorList::step(stage, reply) {
                ActorListStep::Next(next) => stage = next,
                ActorListStep::Done(StateActorList(array)) => return Ok(array),
                ActorListStep::Failed(e) => return Err(e),
            }
        }
    }
}

const BASE: u64 = 0x1_4000_0000;
const WORLD: u64 = 0x2000_0000;
const LEVEL: u64 = 0x3000_0000;
const ACTORS: u64 = 0x4000_0000;

fn full_game() -> Game {
    let mut game = Game::new();
    game.put(BASE + ENTRY_OFFSET, &(WORLD ^ KEY).to_le_bytes());
    game.put(WORLD + 0x150, &(LEVEL ^ KEY).to_le_bytes());
    game.put(LEVEL + 0x40, &(ACTORS ^ KEY).to_le_bytes());
    game.put(ACTORS, &0x7777_0000u64.to_le_bytes());
    game.put(ACTORS + 8, &12u32.to_le_bytes());
    game.put(ACTORS + 12, &16u32.to_le_bytes());
    game
}

#[test]
fn actor_list_follows_the_pointer_chain() {
    let array = full_game().resolve(BASE).unwrap();
    assert_eq!(array.data, 0x7777_0000);
    assert_eq!(array.count, 12);
    assert_eq!(array.max, 16);
    assert_eq!(StateActorList::cache_type(), StateCacheType::Volatile);
}

#[test]
fn actor_list_unreadable_world_pointer() {
    let mut game = full_game();
    game.unreadable.push(BASE + ENTRY_OFFSET);
    assert_eq!(game.resolve(BASE).unwrap_err(), ActorListError::UWorldUnreadable);
}

#[test]
fn actor_list_unreadable_level_pointer() {
    let mut game = full_game();
    game.unreadable.push(WORLD + 0x150);
    assert_eq!(game.resolve(BASE).unwrap_err(), ActorListError::ULevelUnreadable);
}

#[test]
fn actor_list_unreadable_actor_array_pointer() {
    let mut game = full_game();
    game.unreadable.push(LEVEL + 0x40);
    assert_eq!(game.resolve(BASE).unwrap_err(), ActorListError::ActorArrayUnreadable);
}

#[test]
fn actor_list_uncopyable_array() {
    let mut game = full_game();
    game.unreadable.push(ACTORS);
    assert_eq!(game.resolve(BASE).unwrap_err(), ActorListError::ActorArrayCopy);
}

#[test]
fn actor_list_null_pointer() {
    let mut game = full_game();
    game.put(WORLD + 0x150, &0u64.to_le_bytes());
    assert_eq!(game.resolve(BASE).unwrap_err(), ActorListError::NullPointer);
}

#[test]
fn actor_list_refuses_mismatched_replies() {
    let stage = StateActorList::create(BASE);
    assert!(!stage.accepts(&Reply::Decrypted(1)));
    assert!(!stage.accepts(&Reply::Read(Some(vec![0; 4]))));
    assert!(stage.accepts(&Reply::Read(None)));
    let decrypt = ActorListStage::DecryptUWorld { encrypted: 1 };
    assert!(!decrypt.accepts(&Reply::Read(None)));
    assert!(!decrypt.accepts(&Reply::Decrypted(u64::MAX)));
    assert!(decrypt.accepts(&Reply::Decrypted(0x1000)));
}
