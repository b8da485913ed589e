use std::collections::HashMap;

use pubg::{ActorScan, PlayerSpyer, Reply, ScanError, ScanStep};

const KEY: u64 = 0x1111_0000_0000_0000;
const LOCAL: u64 = 0x9000;

struct Game {
    memory: HashMap<u64, u8>,
    unreadable: Vec<u64>,
}

impl Game {
    fn put_u64(&mut self, address: u64, value: u64) {
        for (i, b) in value.to_le_bytes().iter().enumerate() {
            self.memory.insert(address + i as u64, *b);
        }
    }

    fn reply(&self, scan: &ActorScan) -> Reply {
        match scan.read() {
            Some(address) => {
                if self.unreadable.contains(&address) {
                    Reply::Read(None)
                } else {
                    Reply::Read(Some(
                        (0..8).map(|i| *self.memory.get(&(address + i)).unwrap_or(&0)).collect(),
                    ))
                }
            }
            None => match scan {
                ActorScan::DecryptRoot { encrypted, .. } => Reply::Decrypted(encrypted ^ KEY),
                _ => unreachable!(),
            },
        }
    }

    fn check(&self, actor: u64) -> ScanStep {
        let spyer = PlayerSpyer::new();
        let mut step = spyer.scan_start(actor);
        loop {
            match step {
                ScanStep::Next(scan) => {
                    let reply = self.reply(&scan);
                    assert!(scan.accepts(LOCAL, &reply));
                    step = spyer.scan_actor(scan, LOCAL, reply);
                }
                other => return other,
            }
        }
    }
}

/// A game with one proper player at `actor`.
fn player_game(actor: u64) -> Game {
    let mut game = Game { memory: HashMap::new(), unreadable: Vec::new() };
    game.put_u64(actor + 0x220, 0x5000 ^ KEY);
    game.put_u64(actor + 0x428, 0x6000);
    game.put_u64(actor + 0x498, 0);
    game.put_u64(actor + 0x470, 0x7000);
    game.put_u64(0x7000, 0x20000);
    game
}

#[test]
fn scan_accepts_a_player() {
    let game = player_game(0x1000);
    assert_eq!(game.check(0x1000), ScanStep::Candidate { actor: 0x1000, root: 0x5000 });
}

#[test]
fn scan_skips_null_actor_and_root() {
    let game = player_game(0x1000);
    assert_eq!(game.check(0), ScanStep::Skip);
    let mut game = player_game(0x1000);
    game.put_u64(0x1000 + 0x220, 0);
    assert_eq!(game.check(0x1000), ScanStep::Skip);
}

#[test]
fn scan_skips_actors_without_player_state() {
    let mut game = player_game(0x1000);
    game.put_u64(0x1000 + 0x428, 0);
    assert_eq!(game.check(0x1000), ScanStep::Skip);
}

#[test]
fn scan_skips_actors_with_a_pawn() {
    let mut game = player_game(0x1000);
    game.put_u64(0x1000 + 0x498, 0x8000);
    assert_eq!(game.check(0x1000), ScanStep::Skip);
}

#[test]
fn scan_skips_the_local_player() {
    let game = player_game(LOCAL);
    assert_eq!(game.check(LOCAL), ScanStep::LocalPlayer);
    let mut game = player_game(LOCAL);
    game.put_u64(LOCAL + 0x498, 0x8000);
    assert_eq!(game.check(LOCAL), ScanStep::Skip);
}

#[test]
fn scan_skips_missing_or_small_meshes() {
    let mut game = player_game(0x1000);
    game.put_u64(0x7000, 0x10000);
    assert_eq!(game.check(0x1000), ScanStep::Skip);
    game.put_u64(0x7000, 0x10001);
    assert_eq!(game.check(0x1000), ScanStep::Candidate { actor: 0x1000, root: 0x5000 });
    game.unreadable.push(0x7000);
    assert_eq!(game.check(0x1000), ScanStep::Skip);
    let mut game = player_game(0x1000);
    game.put_u64(0x1000 + 0x470, 0);
    assert_eq!(game.check(0x1000), ScanStep::Skip);
}

#[test]
fn scan_fails_on_unreadable_fields() {
    for (offset, error) in [
        (0x220, ScanError::RootComponent),
        (0x428, ScanError::PlayerState),
        (0x498, ScanError::AcknowledgedPawn),
        (0x470, ScanError::Mesh),
    ] {
        let mut game = player_game(0x1000);
        game.unreadable.push(0x1000 + offset);
        assert_eq!(game.check(0x1000), ScanStep::Failed(error));
    }
}
