//! The per-actor decisions of the player report: which actors are other
//! players worth measuring, one memory read at a time.
use vstd::prelude::*;

use crate::bytes::{lemma_le_u64_of_bytes, le_u64, read_u64_le, u64_le_bytes};
use crate::player::PlayerSpyer;
use crate::schema::{AActor, APlayerController};
use crate::state::{Reply, ReplyView};

verus! {

/// The smallest mesh value, exclusive, that marks an actor with a live mesh.
pub const MIN_MESH_VALUE: u64 = 0x10000;

/// Where the check of one actor stands; each stage names what it waits for.
#[derive(Debug, Clone, Copy, PartialEq, Eq, Structural)]
pub enum ActorScan {
    /// Reads the 8-byte encrypted root component pointer at
    /// `actor + AActor::ROOT_COMPONENT`.
    RootComponent { actor: u64 },
    /// Waits for the root component pointer `encrypted` to be decrypted.
    DecryptRoot { actor: u64, encrypted: u64 },
    /// Reads the 8-byte player state pointer at
    /// `actor + APlayerController::PLAYER_STATE`.
    PlayerState { actor: u64, root: u64 },
    /// Reads the 8-byte acknowledged pawn pointer at
    /// `actor + APlayerController::ACKNOWLEDGED_PAWN`.
    Pawn { actor: u64, root: u64 },
    /// Reads the 8-byte mesh pointer at `actor + AActor::MESH`.
    MeshPointer { actor: u64, root: u64 },
    /// Reads the 8-byte mesh value at `mesh`.
    MeshValue { actor: u64, root: u64, mesh: u64 },
}

/// A field read whose failure ends the whole report.
#[derive(Debug, Clone, Copy, PartialEq, Eq, Structural)]
pub enum ScanError {
    RootComponent,
    PlayerState,
    AcknowledgedPawn,
    Mesh,
}

/// What follows a stage: the next stage, skipping the actor (`LocalPlayer`
/// where it is the local player's own controller), the end of the report
/// with an error, or an actor to measure, with the address of its root
/// component.
#[derive(Debug, Clone, Copy, PartialEq, Eq, Structural)]
pub enum ScanStep {
    Next(ActorScan),
    Skip,
    LocalPlayer,
    Failed(ScanError),
    Candidate { actor: u64, root: u64 },
}

/// The address of the 8-byte read that `scan` waits for, or `None` where it
/// waits for a decryption.
pub open spec fn spec_scan_read(scan: ActorScan) -> Option<int> {
    match scan {
        ActorScan::RootComponent { actor } => Some(actor + AActor::ROOT_COMPONENT),
        ActorScan::DecryptRoot { .. } => None,
        ActorScan::PlayerState { actor, .. } => Some(actor + APlayerController::PLAYER_STATE),
        ActorScan::Pawn { actor, .. } => Some(actor + APlayerController::ACKNOWLEDGED_PAWN),
        ActorScan::MeshPointer { actor, .. } => Some(actor + AActor::MESH),
        ActorScan::MeshValue { mesh, .. } => Some(mesh as int),
    }
}

/// Whether the address that `scan` reads at fits in 64 bits.
pub open spec fn spec_scan_fits(scan: ActorScan) -> bool {
    match spec_scan_read(scan) {
        Some(address) => address <= u64::MAX,
        None => true,
    }
}

/// The pointer in an 8-byte read.
pub open spec fn spec_pointer(bytes: Seq<u8>) -> u64 {
    le_u64(bytes, 0)
}

/// The first step for the actor pointer `actor`: a null pointer is skipped.
pub open spec fn spec_scan_start(actor: u64) -> ScanStep {
    if actor == 0 {
        ScanStep::Skip
    } else {
        ScanStep::Next(ActorScan::RootComponent { actor })
    }
}

/// The step from `scan` on `reply`, where `local_controller` is the address
/// of the local player's controller.
pub open spec fn spec_scan_step(scan: ActorScan, local_controller: u64, reply: ReplyView) -> ScanStep {
    match (scan, reply) {
        (ActorScan::RootComponent { actor }, ReplyView::Read(data)) => match data {
            None => ScanStep::Failed(ScanError::RootComponent),
            Some(bytes) => if spec_pointer(bytes) > 0 {
                ScanStep::Next(ActorScan::DecryptRoot { actor, encrypted: spec_pointer(bytes) })
            } else {
                ScanStep::Skip
            },
        },
        (ActorScan::DecryptRoot { actor, .. }, ReplyView::Decrypted(root)) => ScanStep::Next(
            ActorScan::PlayerState { actor, root },
        ),
        (ActorScan::PlayerState { actor, root }, ReplyView::Read(data)) => match data {
            None => ScanStep::Failed(ScanError::PlayerState),
            Some(bytes) => if spec_pointer(bytes) == 0 {
                ScanStep::Skip
            } else {
                ScanStep::Next(ActorScan::Pawn { actor, root })
            },
        },
        (ActorScan::Pawn { actor, root }, ReplyView::Read(data)) => match data {
            None => ScanStep::Failed(ScanError::AcknowledgedPawn),
            Some(bytes) => if spec_pointer(bytes) != 0 {
                ScanStep::Skip
            } else if actor == local_controller {
                ScanStep::LocalPlayer
            } else {
                ScanStep::Next(ActorScan::MeshPointer { actor, root })
            },
        },
        (ActorScan::MeshPointer { actor, root }, ReplyView::Read(data)) => match data {
            None => ScanStep::Failed(ScanError::Mesh),
            Some(bytes) => if spec_pointer(bytes) > 0 {
                ScanStep::Next(ActorScan::MeshValue { actor, root, mesh: spec_pointer(bytes) })
            } else {
                ScanStep::Skip
            },
        },
        (ActorScan::MeshValue { actor, root, .. }, ReplyView::Read(data)) => match data {
            None => ScanStep::Skip,
            Some(bytes) => if spec_pointer(bytes) <= MIN_MESH_VALUE {
                ScanStep::Skip
            } else {
                ScanStep::Candidate { actor, root }
            },
        },
        _ => ScanStep::Skip,
    }
}

/// Whether `reply` is what `scan` waits for (8 bytes or a failed read for a
/// read, an address for a decryption), and the next stage's read address
/// fits in 64 bits.
pub open spec fn spec_scan_accepts(scan: ActorScan, local_controller: u64, reply: ReplyView) -> bool {
    &&& match spec_scan_read(scan) {
        Some(_) => match reply {
            ReplyView::Read(Some(bytes)) => bytes.len() == 8,
            ReplyView::Read(None) => true,
            ReplyView::Decrypted(_) => false,
        },
        None => reply is Decrypted,
    }
    &&& match spec_scan_step(scan, local_controller, reply) {
        ScanStep::Next(next) => spec_scan_fits(next),
        _ => true,
    }
}

/// What a game answers for `scan`: `read(address, size)` gives the bytes of a
/// read (`None` where it fails) and `decrypt` the decryption of a pointer.
pub open spec fn spec_scan_reply(
    scan: ActorScan,
    read: spec_fn(int, nat) -> Option<Seq<u8>>,
    decrypt: spec_fn(u64) -> u64,
) -> ReplyView {
    match scan {
        ActorScan::DecryptRoot { encrypted, .. } => ReplyView::Decrypted(decrypt(encrypted)),
        _ => ReplyView::Read(read(spec_scan_read(scan)->0, 8)),
    }
}

/// Drives the check from `step` for at most `fuel` steps, answering each
/// from the game.
pub open spec fn spec_run_scan(
    step: ScanStep,
    local_controller: u64,
    read: spec_fn(int, nat) -> Option<Seq<u8>>,
    decrypt: spec_fn(u64) -> u64,
    fuel: nat,
) -> ScanStep
    decreases fuel,
{
    match step {
        ScanStep::Next(scan) => if fuel == 0 {
            step
        } else {
            spec_run_scan(
                spec_scan_step(scan, local_controller, spec_scan_reply(scan, read, decrypt)),
                local_controller,
                read,
                decrypt,
                (fuel - 1) as nat,
            )
        },
        _ => step,
    }
}

/// The verdict on the actor pointer `actor`: null pointers, actors without a
/// root component or player state, actors with an acknowledged pawn, the
/// local player's controller (told apart), and actors whose mesh is null, unreadable or at
/// most `MIN_MESH_VALUE` are skipped; a failed field read ends the report;
/// any other actor is measured.
pub open spec fn spec_check_actor(
    actor: u64,
    local_controller: u64,
    read: spec_fn(int, nat) -> Option<Seq<u8>>,
    decrypt: spec_fn(u64) -> u64,
) -> ScanStep {
    if actor == 0 {
        ScanStep::Skip
    } else {
        match read(actor + AActor::ROOT_COMPONENT, 8) {
            None => ScanStep::Failed(ScanError::RootComponent),
            Some(root_bytes) => if spec_pointer(root_bytes) == 0 {
                ScanStep::Skip
            } else {
                let root = decrypt(spec_pointer(root_bytes));
                match read(actor + APlayerController::PLAYER_STATE, 8) {
                    None => ScanStep::Failed(ScanError::PlayerState),
                    Some(state) => if spec_pointer(state) == 0 {
                        ScanStep::Skip
                    } else {
                        match read(actor + APlayerController::ACKNOWLEDGED_PAWN, 8) {
                            None => ScanStep::Failed(ScanError::AcknowledgedPawn),
                            Some(pawn) => if spec_pointer(pawn) != 0 {
                                ScanStep::Skip
                            } else if actor == local_controller {
                                ScanStep::LocalPlayer
                            } else {
                                match read(actor + AActor::MESH, 8) {
                                    None => ScanStep::Failed(ScanError::Mesh),
                                    Some(mesh) => if spec_pointer(mesh) == 0 {
                                        ScanStep::Skip
                                    } else {
                                        match read(spec_pointer(mesh) as int, 8) {
                                            None => ScanStep::Skip,
                                            Some(value) => if spec_pointer(value) <= MIN_MESH_VALUE {
                                                ScanStep::Skip
                                            } else {
                                                ScanStep::Candidate { actor, root }
                                            },
                                        }
                                    },
                                }
                            },
                        }
                    },
                }
            },
        }
    }
}

/// Answering every step from one game, the check of an actor ends within six
/// steps with the verdict that `spec_check_actor` gives.
pub proof fn lemma_scan_checks_actor(
    actor: u64,
    local_controller: u64,
    read: spec_fn(int, nat) -> Option<Seq<u8>>,
    decrypt: spec_fn(u64) -> u64,
)
    ensures
        spec_run_scan(spec_scan_start(actor), local_controller, read, decrypt, 6) == spec_check_actor(
            actor,
            local_controller,
            read,
            decrypt,
        ),
{
    reveal_with_fuel(spec_run_scan, 7);
}

/// An 8-byte read of the little-endian bytes of any `v` is taken as the whole
/// pointer `v`: a non-zero root component is decrypted as it is, a non-zero
/// mesh pointer is followed as it is, a player state or pawn is null exactly
/// when `v` is zero, and the mesh value compared is `v` itself.
pub proof fn lemma_scan_reads_whole_pointers(v: u64, actor: u64, root: u64, mesh: u64, local_controller: u64)
    ensures
        spec_pointer(u64_le_bytes(v)) == v,
        spec_scan_step(
            ActorScan::RootComponent { actor },
            local_controller,
            ReplyView::Read(Some(u64_le_bytes(v))),
        ) == if v == 0 {
            ScanStep::Skip
        } else {
            ScanStep::Next(ActorScan::DecryptRoot { actor, encrypted: v })
        },
        spec_scan_step(
            ActorScan::PlayerState { actor, root },
            local_controller,
            ReplyView::Read(Some(u64_le_bytes(v))),
        ) == if v == 0 {
            ScanStep::Skip
        } else {
            ScanStep::Next(ActorScan::Pawn { actor, root })
        },
        v != 0 ==> spec_scan_step(
            ActorScan::Pawn { actor, root },
            local_controller,
            ReplyView::Read(Some(u64_le_bytes(v))),
        ) == ScanStep::Skip,
        spec_scan_step(
            ActorScan::MeshPointer { actor, root },
            local_controller,
            ReplyView::Read(Some(u64_le_bytes(v))),
        ) == if v == 0 {
            ScanStep::Skip
        } else {
            ScanStep::Next(ActorScan::MeshValue { actor, root, mesh: v })
        },
        spec_scan_step(
            ActorScan::MeshValue { actor, root, mesh },
            local_controller,
            ReplyView::Read(Some(u64_le_bytes(v))),
        ) == if v <= MIN_MESH_VALUE {
            ScanStep::Skip
        } else {
            ScanStep::Candidate { actor, root }
        },
{
    lemma_le_u64_of_bytes(v);
}

impl ActorScan {
    /// The address of the 8-byte read that this stage waits for, or `None`
    /// where it waits for a decryption.
    pub fn read(&self) -> (r: Option<u64>)
        requires
            spec_scan_fits(*self),
        ensures
            match spec_scan_read(*self) {
                Some(address) => r == Some(address as u64),
                None => r is None,
            },
    {
        match *self {
            ActorScan::RootComponent { actor } => Some(actor + AActor::ROOT_COMPONENT as u64),
            ActorScan::DecryptRoot { .. } => None,
            ActorScan::PlayerState { actor, .. } => Some(
                actor + APlayerController::PLAYER_STATE as u64,
            ),
            ActorScan::Pawn { actor, .. } => Some(
                actor + APlayerController::ACKNOWLEDGED_PAWN as u64,
            ),
            ActorScan::MeshPointer { actor, .. } => Some(actor + AActor::MESH as u64),
            ActorScan::MeshValue { mesh, .. } => Some(mesh),
        }
    }

    /// Whether `PlayerSpyer::scan_actor` is defined on `reply`.
    pub fn accepts(&self, local_controller: u64, reply: &Reply) -> (r: bool)
        ensures
            r == spec_scan_accepts(*self, local_controller, reply@),
    {
        match (*self, reply) {
            (ActorScan::DecryptRoot { actor, .. }, Reply::Decrypted(_)) => actor <= u64::MAX
                - APlayerController::PLAYER_STATE as u64,
            (ActorScan::DecryptRoot { .. }, Reply::Read(_)) => false,
            (_, Reply::Decrypted(_)) => false,
            (ActorScan::RootComponent { .. }, Reply::Read(None))
            | (ActorScan::PlayerState { .. }, Reply::Read(None))
            | (ActorScan::Pawn { .. }, Reply::Read(None))
            | (ActorScan::MeshPointer { .. }, Reply::Read(None))
            | (ActorScan::MeshValue { .. }, Reply::Read(None)) => true,
            (ActorScan::RootComponent { .. }, Reply::Read(Some(bytes))) => bytes.len() == 8,
            (ActorScan::PlayerState { actor, .. }, Reply::Read(Some(bytes))) => {
                bytes.len() == 8 && (read_u64_le(bytes.as_slice(), 0) == 0 || actor <= u64::MAX
                    - APlayerController::ACKNOWLEDGED_PAWN as u64)
            },
            (ActorScan::Pawn { actor, .. }, Reply::Read(Some(bytes))) => {
                bytes.len() == 8 && (read_u64_le(bytes.as_slice(), 0) != 0 || actor
                    == local_controller || actor <= u64::MAX - AActor::MESH as u64)
            },
            (ActorScan::MeshPointer { .. }, Reply::Read(Some(bytes))) => bytes.len() == 8,
            (ActorScan::MeshValue { .. }, Reply::Read(Some(bytes))) => bytes.len() == 8,
        }
    }
}

impl PlayerSpyer {
    /// Starts checking the actor whose pointer is `actor`; null pointers are
    /// skipped.
    pub fn scan_start(&self, actor: u64) -> (r: ScanStep)
        requires
            actor == 0 || actor + AActor::ROOT_COMPONENT <= u64::MAX,
        ensures
            r == spec_scan_start(actor),
            r matches ScanStep::Next(next) ==> spec_scan_fits(next),
    {
        if actor == 0 {
            ScanStep::Skip
        } else {
            ScanStep::Next(ActorScan::RootComponent { actor })
        }
    }

    /// Takes what the caller did for `scan` and moves on. An actor is skipped
    /// where its root component is null, it has no player state, it has an
    /// acknowledged pawn, it is the local player's controller (told apart as
    /// `LocalPlayer`), its mesh
    /// cannot be read or is null, or the mesh value is at most
    /// `MIN_MESH_VALUE`; a failed read of one of its fields ends the report.
    pub fn scan_actor(&self, scan: ActorScan, local_controller: u64, reply: Reply) -> (r: ScanStep)
        requires
            spec_scan_accepts(scan, local_controller, reply@),
        ensures
            r == spec_scan_step(scan, local_controller, reply@),
            r matches ScanStep::Next(next) ==> spec_scan_fits(next),
    {
        match (scan, reply) {
            (ActorScan::RootComponent { actor }, Reply::Read(data)) => match data {
                None => ScanStep::Failed(ScanError::RootComponent),
                Some(bytes) => {
                    let p = read_u64_le(bytes.as_slice(), 0);
                    if p > 0 {
                        ScanStep::Next(ActorScan::DecryptRoot { actor, encrypted: p })
                    } else {
                        ScanStep::Skip
                    }
                },
            },
            (ActorScan::DecryptRoot { actor, .. }, Reply::Decrypted(root)) => ScanStep::Next(
                ActorScan::PlayerState { actor, root },
            ),
            (ActorScan::PlayerState { actor, root }, Reply::Read(data)) => match data {
                None => ScanStep::Failed(ScanError::PlayerState),
                Some(bytes) => {
                    if read_u64_le(bytes.as_slice(), 0) == 0 {
                        ScanStep::Skip
                    } else {
                        ScanStep::Next(ActorScan::Pawn { actor, root })
                    }
                },
            },
            (ActorScan::Pawn { actor, root }, Reply::Read(data)) => match data {
                None => ScanStep::Failed(ScanError::AcknowledgedPawn),
                Some(bytes) => {
                    if read_u64_le(bytes.as_slice(), 0) != 0 {
                        ScanStep::Skip
                    } else if actor == local_controller {
                        ScanStep::LocalPlayer
                    } else {
                        ScanStep::Next(ActorScan::MeshPointer { actor, root })
                    }
                },
            },
            (ActorScan::MeshPointer { actor, root }, Reply::Read(data)) => match data {
                None => ScanStep::Failed(ScanError::Mesh),
                Some(bytes) => {
                    let mesh = read_u64_le(bytes.as_slice(), 0);
                    if mesh > 0 {
                        ScanStep::Next(ActorScan::MeshValue { actor, root, mesh })
                    } else {
                        ScanStep::Skip
                    }
                },
            },
            (ActorScan::MeshValue { actor, root, .. }, Reply::Read(data)) => match data {
                None => ScanStep::Skip,
                Some(bytes) => {
                    if read_u64_le(bytes.as_slice(), 0) <= MIN_MESH_VALUE {
                        ScanStep::Skip
                    } else {
                        ScanStep::Candidate { actor, root }
                    }
                },
            },
            _ => ScanStep::Skip,
        }
    }
}

} // verus!
