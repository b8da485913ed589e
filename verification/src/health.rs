use vstd::prelude::*;

use crate::bytes::{le_u32, read_u32_le};
use crate::player::{decrypt_health_bytes, PlayerSpyer};

verus! {

/// Offset of the byte that tells whether the health is kept in the guarded
/// slot (any value but 3).
pub const HEALTH_FLAG: u64 = 0x380;

/// Offset of the word that must be non-zero for the guarded slot to be used.
pub const HEALTH1: u64 = 0xA28;

/// Offset of the plain health value.
pub const HEALTH2: u64 = 0x970;

/// Offset of the byte added to `HEALTH4` to find the guarded health value.
pub const HEALTH3: u64 = 0xA44;

/// Base offset of the guarded health value.
pub const HEALTH4: u64 = 0xA30;

/// Offset of the byte that tells whether the guarded value is encrypted.
pub const HEALTH5: u64 = 0xA45;

/// Offset of the key offset for decrypting the guarded value.
pub const HEALTH6: u64 = 0xA40;

/// Where reading an actor's health stands: each state names the next read.
#[derive(Debug, Clone, Copy)]
pub enum HealthProbe {
    /// Reads the flag byte at `actor + HEALTH_FLAG`.
    Flag { actor: u64 },
    /// Reads the guard word at `actor + HEALTH1`.
    Guard { actor: u64, flag: u8 },
    /// Reads the encryption byte at `actor + HEALTH5`.
    Encrypted { actor: u64 },
    /// Reads the index byte at `actor + HEALTH3`.
    Index { actor: u64, encrypted: bool },
    /// Reads the 4 bytes of the guarded value at `index + actor + HEALTH4`.
    Guarded { actor: u64, encrypted: bool, index: u8 },
    /// Reads the key offset at `actor + HEALTH6`.
    KeyOffset { actor: u64, value: [u8; 4] },
    /// Reads the 4 bytes of the plain value at `actor + HEALTH2`.
    Plain { actor: u64 },
}

/// A read of `size` bytes at `address`.
#[derive(Debug, Clone, Copy, PartialEq, Eq, Structural)]
pub struct MemoryRead {
    pub address: u64,
    pub size: u64,
}

/// What follows a read: another read, or the 4 bytes of the health value
/// (a little-endian `f32`).
#[derive(Debug, Clone, Copy)]
pub enum HealthStep {
    Next(HealthProbe),
    Done([u8; 4]),
}

/// The address of the read that `probe` asks for, as an unbounded integer.
pub open spec fn spec_read_address(probe: HealthProbe) -> int {
    match probe {
        HealthProbe::Flag { actor } => actor + HEALTH_FLAG,
        HealthProbe::Guard { actor, .. } => actor + HEALTH1,
        HealthProbe::Encrypted { actor } => actor + HEALTH5,
        HealthProbe::Index { actor, .. } => actor + HEALTH3,
        HealthProbe::Guarded { actor, index, .. } => index + actor + HEALTH4,
        HealthProbe::KeyOffset { actor, .. } => actor + HEALTH6,
        HealthProbe::Plain { actor } => actor + HEALTH2,
    }
}

/// How many bytes the read that `probe` asks for takes.
pub open spec fn spec_read_size(probe: HealthProbe) -> u64 {
    match probe {
        HealthProbe::Flag { .. } => 1,
        HealthProbe::Guard { .. } => 4,
        HealthProbe::Encrypted { .. } => 1,
        HealthProbe::Index { .. } => 1,
        HealthProbe::Guarded { .. } => 4,
        HealthProbe::KeyOffset { .. } => 4,
        HealthProbe::Plain { .. } => 4,
    }
}

/// Whether the address that `probe` reads at fits in 64 bits.
pub open spec fn spec_address_fits(probe: HealthProbe) -> bool {
    spec_read_address(probe) <= u64::MAX
}

/// The state that follows `probe` once `data` has been read for it.
pub open spec fn spec_health_step(probe: HealthProbe, data: Seq<u8>) -> HealthStep {
    match probe {
        HealthProbe::Flag { actor } => HealthStep::Next(HealthProbe::Guard { actor, flag: data[0] }),
        HealthProbe::Guard { actor, flag } => if flag != 3 && le_u32(data, 0) != 0 {
            HealthStep::Next(HealthProbe::Encrypted { actor })
        } else {
            HealthStep::Next(HealthProbe::Plain { actor })
        },
        HealthProbe::Encrypted { actor } => HealthStep::Next(
            HealthProbe::Index { actor, encrypted: data[0] != 0 },
        ),
        HealthProbe::Index { actor, encrypted } => HealthStep::Next(
            HealthProbe::Guarded { actor, encrypted, index: data[0] },
        ),
        HealthProbe::Guarded { actor, encrypted, .. } => {
            let value = [data[0], data[1], data[2], data[3]];
            if encrypted {
                HealthStep::Next(HealthProbe::KeyOffset { actor, value })
            } else {
                HealthStep::Done(value)
            }
        },
        HealthProbe::KeyOffset { value, .. } => {
            let d = decrypt_health_bytes(value@, le_u32(data, 0) as int);
            HealthStep::Done([d[0], d[1], d[2], d[3]])
        },
        HealthProbe::Plain { .. } => HealthStep::Done([data[0], data[1], data[2], data[3]]),
    }
}

/// Whether the step from `probe` on `data` runs without overflow: the next
/// read's address fits, and a key offset leaves room for the 4 key bytes.
pub open spec fn spec_step_fits(probe: HealthProbe, data: Seq<u8>) -> bool {
    match spec_health_step(probe, data) {
        HealthStep::Next(next) => spec_address_fits(next),
        HealthStep::Done(_) => match probe {
            HealthProbe::KeyOffset { .. } => le_u32(data, 0) + 4 <= u32::MAX + 1,
            _ => true,
        },
    }
}

impl HealthProbe {
    /// Starts reading the health of the actor at `actor`.
    pub fn start(actor: u64) -> (r: HealthProbe)
        requires
            actor + HEALTH_FLAG <= u64::MAX,
        ensures
            r == (HealthProbe::Flag { actor }),
            spec_address_fits(r),
    {
        HealthProbe::Flag { actor }
    }

    /// The read that this state asks for.
    pub fn read(&self) -> (r: MemoryRead)
        requires
            spec_address_fits(*self),
        ensures
            r.address == spec_read_address(*self),
            r.size == spec_read_size(*self),
    {
        match *self {
            HealthProbe::Flag { actor } => MemoryRead { address: actor + HEALTH_FLAG, size: 1 },
            HealthProbe::Guard { actor, .. } => MemoryRead { address: actor + HEALTH1, size: 4 },
            HealthProbe::Encrypted { actor } => MemoryRead { address: actor + HEALTH5, size: 1 },
            HealthProbe::Index { actor, .. } => MemoryRead { address: actor + HEALTH3, size: 1 },
            HealthProbe::Guarded { actor, index, .. } => MemoryRead {
                address: index as u64 + actor + HEALTH4,
                size: 4,
            },
            HealthProbe::KeyOffset { actor, .. } => MemoryRead { address: actor + HEALTH6, size: 4 },
            HealthProbe::Plain { actor } => MemoryRead { address: actor + HEALTH2, size: 4 },
        }
    }

    /// Whether `step` can take `data`: it holds as many bytes as the read
    /// asked for, and the step does not overflow.
    pub fn accepts(&self, data: &[u8]) -> (r: bool)
        ensures
            r == (data@.len() == spec_read_size(*self) && spec_step_fits(*self, data@)),
    {
        let len = data.len();
        let size: usize = match *self {
            HealthProbe::Flag { .. } => 1,
            HealthProbe::Guard { .. } => 4,
            HealthProbe::Encrypted { .. } => 1,
            HealthProbe::Index { .. } => 1,
            HealthProbe::Guarded { .. } => 4,
            HealthProbe::KeyOffset { .. } => 4,
            HealthProbe::Plain { .. } => 4,
        };
        if len != size {
            return false;
        }
        match *self {
            HealthProbe::Flag { actor } => actor <= u64::MAX - HEALTH1,
            HealthProbe::Guard { actor, flag } => {
                if flag != 3 && read_u32_le(data, 0) != 0 {
                    actor <= u64::MAX - HEALTH5
                } else {
                    actor <= u64::MAX - HEALTH2
                }
            },
            HealthProbe::Encrypted { actor } => actor <= u64::MAX - HEALTH3,
            HealthProbe::Index { actor, .. } => actor <= u64::MAX - HEALTH4 - data[0] as u64,
            HealthProbe::Guarded { actor, encrypted, .. } => !encrypted || actor <= u64::MAX
                - HEALTH6,
            HealthProbe::KeyOffset { .. } => read_u32_le(data, 0) <= u32::MAX - 3,
            HealthProbe::Plain { .. } => true,
        }
    }
}

/// The `n` bytes of `memory` from `address` on.
pub open spec fn memory_bytes(memory: spec_fn(int) -> u8, address: int, n: nat) -> Seq<u8> {
    Seq::new(n, |i: int| memory(address + i))
}

/// The 4 bytes of health that an actor at `actor` has in `memory`: the
/// guarded value, decrypted where it is encrypted, when the flag byte is not 3
/// and the guard word is non-zero; the plain value otherwise.
pub open spec fn spec_actor_health(actor: u64, memory: spec_fn(int) -> u8) -> Seq<u8> {
    let flag = memory(actor + HEALTH_FLAG);
    let guard = le_u32(memory_bytes(memory, actor + HEALTH1, 4), 0);
    if flag != 3 && guard != 0 {
        let encrypted = memory(actor + HEALTH5) != 0;
        let index = memory(actor + HEALTH3);
        let value = memory_bytes(memory, index + actor + HEALTH4, 4);
        if encrypted {
            decrypt_health_bytes(
                value,
                le_u32(memory_bytes(memory, actor + HEALTH6, 4), 0) as int,
            )
        } else {
            value
        }
    } else {
        memory_bytes(memory, actor + HEALTH2, 4)
    }
}

/// Drives `probe` for at most `fuel` reads, answering each from `memory`.
pub open spec fn spec_run_probe(probe: HealthProbe, memory: spec_fn(int) -> u8, fuel: nat) -> Option<
    Seq<u8>,
>
    decreases fuel,
{
    if fuel == 0 {
        None
    } else {
        let data = memory_bytes(memory, spec_read_address(probe), spec_read_size(probe) as nat);
        match spec_health_step(probe, data) {
            HealthStep::Done(value) => Some(value@),
            HealthStep::Next(next) => spec_run_probe(next, memory, (fuel - 1) as nat),
        }
    }
}

/// Answering every read of a probe from one memory, starting at an actor,
/// ends within six reads with the health value that the actor has there.
pub proof fn lemma_probe_reads_actor_health(actor: u64, memory: spec_fn(int) -> u8)
    ensures
        spec_run_probe(HealthProbe::Flag { actor }, memory, 6) == Some(
            spec_actor_health(actor, memory),
        ),
{
    reveal_with_fuel(spec_run_probe, 7);
    let guard_bytes = memory_bytes(memory, actor + HEALTH1, 4);
    let flag = memory(actor + HEALTH_FLAG);
    let guard = le_u32(guard_bytes, 0);
    if flag != 3 && guard != 0 {
        let index = memory(actor + HEALTH3);
        let value = memory_bytes(memory, index + actor + HEALTH4, 4);
        let arr = [value[0], value[1], value[2], value[3]];
        assert(arr@ =~= value);
        if memory(actor + HEALTH5) != 0 {
            let d = decrypt_health_bytes(
                arr@,
                le_u32(memory_bytes(memory, actor + HEALTH6, 4), 0) as int,
            );
            assert([d[0], d[1], d[2], d[3]]@ =~= d);
        }
    } else {
        let value = memory_bytes(memory, actor + HEALTH2, 4);
        assert([value[0], value[1], value[2], value[3]]@ =~= value);
    }
}

/// Whether reading the health of the actor at `actor` may look at the byte
/// at `address`: the flag byte, the guard word, the index, encryption and
/// key-offset bytes, every byte a guarded value can lie at, and the plain
/// value.
pub open spec fn health_reads_byte(actor: u64, address: int) -> bool {
    ||| address == actor + HEALTH_FLAG
    ||| actor + HEALTH1 <= address < actor + HEALTH1 + 4
    ||| actor + HEALTH6 <= address < actor + HEALTH5 + 1
    ||| actor + HEALTH4 <= address < actor + HEALTH4 + 0xFF + 4
    ||| actor + HEALTH2 <= address < actor + HEALTH2 + 4
}

/// A 4-byte read at `start` gives the same bytes from two memories that agree
/// on the bytes of the actor's health, where those 4 bytes are among them.
proof fn lemma_read_agrees(actor: u64, m1: spec_fn(int) -> u8, m2: spec_fn(int) -> u8, start: int)
    requires
        forall|address: int| health_reads_byte(actor, address) ==> #[trigger] m1(address) == m2(address),
        forall|i: int| 0 <= i < 4 ==> health_reads_byte(actor, #[trigger] (start + i)),
    ensures
        memory_bytes(m1, start, 4) == memory_bytes(m2, start, 4),
{
    assert forall|i: int| 0 <= i < 4 implies #[trigger] memory_bytes(m1, start, 4)[i] == memory_bytes(
        m2,
        start,
        4,
    )[i] by {
        assert(health_reads_byte(actor, start + i));
    }
    assert(memory_bytes(m1, start, 4) =~= memory_bytes(m2, start, 4));
}

/// An actor's health depends on those bytes alone: two memories that agree on
/// them give the same health, and the probe reads the same value from both.
pub proof fn lemma_health_depends_on_read_bytes(
    actor: u64,
    m1: spec_fn(int) -> u8,
    m2: spec_fn(int) -> u8,
)
    requires
        forall|address: int| health_reads_byte(actor, address) ==> #[trigger] m1(address) == m2(address),
    ensures
        spec_actor_health(actor, m1) == spec_actor_health(actor, m2),
        spec_run_probe(HealthProbe::Flag { actor }, m1, 6) == spec_run_probe(
            HealthProbe::Flag { actor },
            m2,
            6,
        ),
{
    assert(health_reads_byte(actor, actor + HEALTH_FLAG));
    assert(health_reads_byte(actor, actor + HEALTH5));
    assert(health_reads_byte(actor, actor + HEALTH3));
    let index = m1(actor + HEALTH3);
    lemma_read_agrees(actor, m1, m2, actor + HEALTH1);
    lemma_read_agrees(actor, m1, m2, index + actor + HEALTH4);
    lemma_read_agrees(actor, m1, m2, actor + HEALTH6);
    lemma_read_agrees(actor, m1, m2, actor + HEALTH2);
    lemma_probe_reads_actor_health(actor, m1);
    lemma_probe_reads_actor_health(actor, m2);
}

impl PlayerSpyer {
    /// Reads an actor's health one memory read at a time: takes the bytes
    /// read for `probe` and gives the next state, or the health value.
    pub fn get_health(&self, probe: HealthProbe, data: &[u8]) -> (r: HealthStep)
        requires
            data@.len() == spec_read_size(probe),
            spec_step_fits(probe, data@),
        ensures
            r == spec_health_step(probe, data@),
            r matches HealthStep::Next(next) ==> spec_address_fits(next),
    {
        match probe {
            HealthProbe::Flag { actor } => HealthStep::Next(HealthProbe::Guard { actor, flag: data[0] }),
            HealthProbe::Guard { actor, flag } => {
                let guard = read_u32_le(data, 0);
                if flag != 3 && guard != 0 {
                    HealthStep::Next(HealthProbe::Encrypted { actor })
                } else {
                    HealthStep::Next(HealthProbe::Plain { actor })
                }
            },
            HealthProbe::Encrypted { actor } => HealthStep::Next(
                HealthProbe::Index { actor, encrypted: data[0] != 0 },
            ),
            HealthProbe::Index { actor, encrypted } => HealthStep::Next(
                HealthProbe::Guarded { actor, encrypted, index: data[0] },
            ),
            HealthProbe::Guarded { actor, encrypted, .. } => {
                let value = [data[0], data[1], data[2], data[3]];
                if encrypted {
                    HealthStep::Next(HealthProbe::KeyOffset { actor, value })
                } else {
                    HealthStep::Done(value)
                }
            },
            HealthProbe::KeyOffset { value, .. } => {
                let key_offset = read_u32_le(data, 0);
                let mut bytes: Vec<u8> = vec![value[0], value[1], value[2], value[3]];
                self.decrypt_player_health(bytes.as_mut_slice(), key_offset);
                let d = [bytes[0], bytes[1], bytes[2], bytes[3]];
                proof {
                    assert(value@ =~= seq![value[0], value[1], value[2], value[3]]);
                }
                HealthStep::Done(d)
            },
            HealthProbe::Plain { .. } => HealthStep::Done([data[0], data[1], data[2], data[3]]),
        }
    }
}

} // verus!
