use vstd::prelude::*;

use crate::signature::{
    is_wildcard_token, next_token, pattern_well_formed, pattern_well_formed_from,
    token_start, Module, Signature, SignatureType, SignatureView,
};
use crate::state::StateCacheType;

verus! {

/// The well-known global objects of the CS2 client that the enhancer looks up.
#[derive(Debug, Clone, Copy, PartialEq, Eq, Structural, PartialOrd, Ord, Hash)]
pub enum CS2Offset {
    Globals,
    BuildInfo,
    LocalController,
    GlobalEntityList,
    ViewMatrix,
    NetworkGameClientInstance,
    CCVars,
    SchemaSystem,
}

/// Every offset, in declaration order.
pub open spec fn spec_available_offsets() -> Seq<CS2Offset> {
    seq![
        CS2Offset::Globals,
        CS2Offset::BuildInfo,
        CS2Offset::LocalController,
        CS2Offset::GlobalEntityList,
        CS2Offset::ViewMatrix,
        CS2Offset::NetworkGameClientInstance,
        CS2Offset::CCVars,
        CS2Offset::SchemaSystem,
    ]
}

impl CS2Offset {
    /// Lists every offset once, in declaration order.
    pub fn available_offsets() -> (r: &'static [CS2Offset])
        ensures
            r@ == spec_available_offsets(),
    {
        let r: &'static [CS2Offset] = &[
            CS2Offset::Globals,
            CS2Offset::BuildInfo,
            CS2Offset::LocalController,
            CS2Offset::GlobalEntityList,
            CS2Offset::ViewMatrix,
            CS2Offset::NetworkGameClientInstance,
            CS2Offset::CCVars,
            CS2Offset::SchemaSystem,
        ];
        r
    }
}

/// The name under which an offset is cached.
pub open spec fn spec_cache_name(offset: CS2Offset) -> Seq<char> {
    match offset {
        CS2Offset::Globals => "globals"@,
        CS2Offset::BuildInfo => "build-info"@,
        CS2Offset::LocalController => "local-controller"@,
        CS2Offset::GlobalEntityList => "global-entity-list"@,
        CS2Offset::ViewMatrix => "view-matrix"@,
        CS2Offset::NetworkGameClientInstance => "network-game-client-instance"@,
        CS2Offset::CCVars => "ccvars"@,
        CS2Offset::SchemaSystem => "schema-system"@,
    }
}

impl CS2Offset {
    /// The name under which the resolved value of this offset is cached.
    pub fn cache_name(&self) -> (r: &'static str)
        ensures
            r@ == spec_cache_name(*self),
    {
        match self {
            CS2Offset::Globals => "globals",
            CS2Offset::BuildInfo => "build-info",
            CS2Offset::LocalController => "local-controller",
            CS2Offset::GlobalEntityList => "global-entity-list",
            CS2Offset::ViewMatrix => "view-matrix",
            CS2Offset::NetworkGameClientInstance => "network-game-client-instance",
            CS2Offset::CCVars => "ccvars",
            CS2Offset::SchemaSystem => "schema-system",
        }
    }
}

/// The module, debug name, byte pattern, displacement offset and instruction
/// length of the signature that locates an offset.
pub open spec fn spec_signature(offset: CS2Offset) -> (Module, Seq<char>, Seq<char>, u64, u64) {
    match offset {
        CS2Offset::Globals => (
            Module::Client,
            "client globals"@,
            "48 8B 05 ? ? ? ? 8B 48 04 FF C1"@,
            0x03,
            0x07,
        ),
        CS2Offset::BuildInfo => (
            Module::Engine,
            "client build info"@,
            "48 8B 1D ? ? ? ? 48 8D 3D"@,
            0x03,
            0x07,
        ),
        CS2Offset::LocalController => (
            Module::Client,
            "local player controller ptr"@,
            "48 83 3D ? ? ? ? ? 0F 95"@,
            0x03,
            0x08,
        ),
        CS2Offset::GlobalEntityList => (
            Module::Client,
            "global entity list"@,
            "4C 8B 0D ? ? ? ? 48 89 5C 24 ? 8B"@,
            0x03,
            0x07,
        ),
        CS2Offset::ViewMatrix => (
            Module::Client,
            "world view matrix"@,
            "48 8D 0D ? ? ? ? 48 C1 E0 06"@,
            0x03,
            0x07,
        ),
        CS2Offset::NetworkGameClientInstance => (
            Module::Engine,
            "network game client instance"@,
            "48 83 3D ? ? ? ? ? 48 8B D9 8B 0D"@,
            0x03,
            0x08,
        ),
        CS2Offset::CCVars => (
            Module::Tier0,
            "CCVars"@,
            "4C 8D 2D ? ? ? ? 0F 28 45"@,
            0x03,
            0x07,
        ),
        CS2Offset::SchemaSystem => (
            Module::Schemasystem,
            "schema system instance"@,
            "48 8B 0D ? ? ? ? 48 8B 55 A0"@,
            0x03,
            0x07,
        ),
    }
}

/// The module in which an offset lives.
pub open spec fn spec_module(offset: CS2Offset) -> Module {
    spec_signature(offset).0
}

/// Whether `sig` is the signature that `spec_signature` gives for `offset`.
pub open spec fn is_signature_of(offset: CS2Offset, sig: SignatureView) -> bool {
    let (_, name, pattern, disp, len) = spec_signature(offset);
    sig == SignatureView {
        debug_name: name,
        pattern,
        offset: disp,
        value_type: SignatureType::RelativeAddress { inst_length: len },
    }
}

impl CS2Offset {
    /// The module of this offset and the signature that finds it there.
    pub fn signature(&self) -> (r: (Module, Signature))
        ensures
            r.0 == spec_module(*self),
            is_signature_of(*self, r.1@),
    {
        match *self {
            CS2Offset::Globals => (
                Module::Client,
                Signature::relative_address(
                    "client globals",
                    "48 8B 05 ? ? ? ? 8B 48 04 FF C1",
                    0x03,
                    0x07,
                ),
            ),
            CS2Offset::BuildInfo => (
                Module::Engine,
                Signature::relative_address(
                    "client build info",
                    "48 8B 1D ? ? ? ? 48 8D 3D",
                    0x03,
                    0x07,
                ),
            ),
            CS2Offset::LocalController => (
                Module::Client,
                Signature::relative_address(
                    "local player controller ptr",
                    "48 83 3D ? ? ? ? ? 0F 95",
                    0x03,
                    0x08,
                ),
            ),
            CS2Offset::GlobalEntityList => (
                Module::Client,
                Signature::relative_address(
                    "global entity list",
                    "4C 8B 0D ? ? ? ? 48 89 5C 24 ? 8B",
                    0x03,
                    0x07,
                ),
            ),
            CS2Offset::ViewMatrix => (
                Module::Client,
                Signature::relative_address(
                    "world view matrix",
                    "48 8D 0D ? ? ? ? 48 C1 E0 06",
                    0x03,
                    0x07,
                ),
            ),
            CS2Offset::NetworkGameClientInstance => (
                Module::Engine,
                Signature::relative_address(
                    "network game client instance",
                    "48 83 3D ? ? ? ? ? 48 8B D9 8B 0D",
                    0x03,
                    0x08,
                ),
            ),
            CS2Offset::CCVars => (
                Module::Tier0,
                Signature::relative_address(
                    "CCVars",
                    "4C 8D 2D ? ? ? ? 0F 28 45",
                    0x03,
                    0x07,
                ),
            ),
            CS2Offset::SchemaSystem => (
                Module::Schemasystem,
                Signature::relative_address(
                    "schema system instance",
                    "48 8B 0D ? ? ? ? 48 8B 55 A0",
                    0x03,
                    0x07,
                ),
            ),
        }
    }
}

/// An offset whose value was supplied up front rather than found by its
/// signature: `offset` is relative to the module, `resolved` is the absolute
/// address that the module's base gives it.
pub struct StatePredefinedOffset {
    pub module: Module,
    pub offset: u64,
    pub resolved: u64,
}

impl StatePredefinedOffset {
    /// Records a predefined `value` for `offset`; `resolved` is the address
    /// that the game handle gives `value` within the offset's module.
    pub fn new(offset: CS2Offset, value: u64, resolved: u64) -> (r: StatePredefinedOffset)
        ensures
            r.module == spec_module(offset),
            r.offset == value,
            r.resolved == resolved,
    {
        let (module, _) = offset.signature();
        StatePredefinedOffset { module, offset: value, resolved }
    }

    /// A predefined offset stays valid for the whole session.
    pub fn cache_type() -> (r: StateCacheType)
        ensures
            r == StateCacheType::Persistent,
    {
        StateCacheType::Persistent
    }
}

/// An offset with its absolute address: `offset` is relative to the module.
pub struct StateResolvedOffset {
    pub offset: u64,
    pub address: u64,
}

/// Why an offset could not be resolved.
#[derive(Debug, Clone, Copy, PartialEq, Eq, Structural)]
pub enum OffsetError {
    /// The address that the signature gave lies outside of its module.
    NotInModule,
}

/// What resolving an offset takes: either the predefined value settles it,
/// or the signature must be searched for in the module.
pub enum OffsetResolution {
    Predefined(StateResolvedOffset),
    Scan { module: Module, signature: Signature },
}

impl StateResolvedOffset {
    /// Starts resolving `offset`: a predefined value is used as it stands;
    /// without one, the offset's signature has to be found in its module.
    pub fn create(offset: CS2Offset, predefined: Option<&StatePredefinedOffset>) -> (r:
        OffsetResolution)
        ensures
            match predefined {
                Some(p) => r matches OffsetResolution::Predefined(s) && s.offset == p.offset
                    && s.address == p.resolved,
                None => r matches OffsetResolution::Scan { module, signature } && module
                    == spec_module(offset) && is_signature_of(offset, signature@),
            },
    {
        match predefined {
            Some(p) => OffsetResolution::Predefined(
                StateResolvedOffset { offset: p.offset, address: p.resolved },
            ),
            None => {
                let (module, signature) = offset.signature();
                OffsetResolution::Scan { module, signature }
            },
        }
    }

    /// Finishes resolving from the `address` that the signature gave and its
    /// offset within the module, which is `None` where the address lies
    /// outside of the module.
    pub fn from_signature_match(address: u64, module_offset: Option<u64>) -> (r: Result<
        StateResolvedOffset,
        OffsetError,
    >)
        ensures
            match module_offset {
                Some(o) => r matches Ok(s) && s.offset == o && s.address == address,
                None => r == Err::<StateResolvedOffset, OffsetError>(OffsetError::NotInModule),
            },
    {
        match module_offset {
            Some(offset) => Ok(StateResolvedOffset { offset, address }),
            None => Err(OffsetError::NotInModule),
        }
    }

    /// A resolved offset stays valid for the whole session.
    pub fn cache_type() -> (r: StateCacheType)
        ensures
            r == StateCacheType::Persistent,
    {
        StateCacheType::Persistent
    }
}

/// The signature of each offset: its module, its name, the byte pattern of
/// the instruction that loads it, the displacement offset 3 and the
/// instruction's length.
pub proof fn lemma_signature_of_each_offset()
    ensures
        spec_signature(CS2Offset::Globals) == (
            Module::Client,
            "client globals"@,
            "48 8B 05 ? ? ? ? 8B 48 04 FF C1"@,
            3u64,
            7u64,
        ),
        spec_signature(CS2Offset::BuildInfo) == (
            Module::Engine,
            "client build info"@,
            "48 8B 1D ? ? ? ? 48 8D 3D"@,
            3u64,
            7u64,
        ),
        spec_signature(CS2Offset::LocalController) == (
            Module::Client,
            "local player controller ptr"@,
            "48 83 3D ? ? ? ? ? 0F 95"@,
            3u64,
            8u64,
        ),
        spec_signature(CS2Offset::GlobalEntityList) == (
            Module::Client,
            "global entity list"@,
            "4C 8B 0D ? ? ? ? 48 89 5C 24 ? 8B"@,
            3u64,
            7u64,
        ),
        spec_signature(CS2Offset::ViewMatrix) == (
            Module::Client,
            "world view matrix"@,
            "48 8D 0D ? ? ? ? 48 C1 E0 06"@,
            3u64,
            7u64,
        ),
        spec_signature(CS2Offset::NetworkGameClientInstance) == (
            Module::Engine,
            "network game client instance"@,
            "48 83 3D ? ? ? ? ? 48 8B D9 8B 0D"@,
            3u64,
            8u64,
        ),
        spec_signature(CS2Offset::CCVars) == (
            Module::Tier0,
            "CCVars"@,
            "4C 8D 2D ? ? ? ? 0F 28 45"@,
            3u64,
            7u64,
        ),
        spec_signature(CS2Offset::SchemaSystem) == (
            Module::Schemasystem,
            "schema system instance"@,
            "48 8B 0D ? ? ? ? 48 8B 55 A0"@,
            3u64,
            7u64,
        ),
{
}

/// The 4-byte displacement of every signature lies within its instruction,
/// and the pattern leaves those 4 bytes open: each is a wildcard.
pub proof fn lemma_displacement_is_wildcarded(offset: CS2Offset)
    ensures
        spec_signature(offset).3 + 4 <= spec_signature(offset).4,
        forall|k: nat|
            spec_signature(offset).3 <= k < spec_signature(offset).3 + 4 ==> is_wildcard_token(
                spec_signature(offset).2,
                k,
            ),
{
    reveal_strlit("48 8B 05 ? ? ? ? 8B 48 04 FF C1");
    reveal_strlit("48 8B 1D ? ? ? ? 48 8D 3D");
    reveal_strlit("48 83 3D ? ? ? ? ? 0F 95");
    reveal_strlit("4C 8B 0D ? ? ? ? 48 89 5C 24 ? 8B");
    reveal_strlit("48 8D 0D ? ? ? ? 48 C1 E0 06");
    reveal_strlit("48 83 3D ? ? ? ? ? 48 8B D9 8B 0D");
    reveal_strlit("4C 8D 2D ? ? ? ? 0F 28 45");
    reveal_strlit("48 8B 0D ? ? ? ? 48 8B 55 A0");
    reveal_with_fuel(token_start, 8);
    reveal_with_fuel(next_token, 4);
    let p = spec_signature(offset).2;
    assert(spec_signature(offset).3 == 3);
    assert(is_wildcard_token(p, 3));
    assert(is_wildcard_token(p, 4));
    assert(is_wildcard_token(p, 5));
    assert(is_wildcard_token(p, 6));
}

/// Every pattern is tokens separated by single spaces, each `?` or two
/// uppercase hex digits.
pub proof fn lemma_patterns_well_formed(offset: CS2Offset)
    ensures
        pattern_well_formed(spec_signature(offset).2),
{
    reveal_strlit("48 8B 05 ? ? ? ? 8B 48 04 FF C1");
    reveal_strlit("48 8B 1D ? ? ? ? 48 8D 3D");
    reveal_strlit("48 83 3D ? ? ? ? ? 0F 95");
    reveal_strlit("4C 8B 0D ? ? ? ? 48 89 5C 24 ? 8B");
    reveal_strlit("48 8D 0D ? ? ? ? 48 C1 E0 06");
    reveal_strlit("48 83 3D ? ? ? ? ? 48 8B D9 8B 0D");
    reveal_strlit("4C 8D 2D ? ? ? ? 0F 28 45");
    reveal_strlit("48 8B 0D ? ? ? ? 48 8B 55 A0");
    reveal_with_fuel(pattern_well_formed_from, 14);
}

/// Different offsets have signatures with different names and different
/// patterns.
pub proof fn lemma_signatures_distinct(a: CS2Offset, b: CS2Offset)
    requires
        a != b,
    ensures
        spec_signature(a).1 != spec_signature(b).1,
        spec_signature(a).2 != spec_signature(b).2,
{
    reveal_strlit("client globals");
    reveal_strlit("client build info");
    reveal_strlit("local player controller ptr");
    reveal_strlit("global entity list");
    reveal_strlit("world view matrix");
    reveal_strlit("network game client instance");
    reveal_strlit("CCVars");
    reveal_strlit("schema system instance");
    reveal_strlit("48 8B 05 ? ? ? ? 8B 48 04 FF C1");
    reveal_strlit("48 8B 1D ? ? ? ? 48 8D 3D");
    reveal_strlit("48 83 3D ? ? ? ? ? 0F 95");
    reveal_strlit("4C 8B 0D ? ? ? ? 48 89 5C 24 ? 8B");
    reveal_strlit("48 8D 0D ? ? ? ? 48 C1 E0 06");
    reveal_strlit("48 83 3D ? ? ? ? ? 48 8B D9 8B 0D");
    reveal_strlit("4C 8D 2D ? ? ? ? 0F 28 45");
    reveal_strlit("48 8B 0D ? ? ? ? 48 8B 55 A0");
    let x = spec_signature(a).1;
    let y = spec_signature(b).1;
    if x.len() == y.len() {
        assert(x[0] != y[0] || x[7] != y[7]);
    }
    let p = spec_signature(a).2;
    let q = spec_signature(b).2;
    if p.len() == q.len() {
        assert(p[1] != q[1] || p[4] != q[4] || p[6] != q[6] || p[24] != q[24]);
    }
}

/// Every offset occurs in `available_offsets`, and none occurs twice.
pub proof fn lemma_available_offsets_complete(offset: CS2Offset)
    ensures
        spec_available_offsets().contains(offset),
        spec_available_offsets().no_duplicates(),
{
    let s = spec_available_offsets();
    let i: int = match offset {
        CS2Offset::Globals => 0,
        CS2Offset::BuildInfo => 1,
        CS2Offset::LocalController => 2,
        CS2Offset::GlobalEntityList => 3,
        CS2Offset::ViewMatrix => 4,
        CS2Offset::NetworkGameClientInstance => 5,
        CS2Offset::CCVars => 6,
        CS2Offset::SchemaSystem => 7,
    };
    assert(s[i] == offset);
}

/// Two different offsets are cached under different names.
pub proof fn lemma_cache_names_distinct(a: CS2Offset, b: CS2Offset)
    requires
        a != b,
    ensures
        spec_cache_name(a) != spec_cache_name(b),
{
    reveal_strlit("globals");
    reveal_strlit("build-info");
    reveal_strlit("local-controller");
    reveal_strlit("global-entity-list");
    reveal_strlit("view-matrix");
    reveal_strlit("network-game-client-instance");
    reveal_strlit("ccvars");
    reveal_strlit("schema-system");
    let x = spec_cache_name(a);
    let y = spec_cache_name(b);
    if x.len() == y.len() {
        assert(x[0] != y[0] || x[1] != y[1] || x[2] != y[2]);
    }
}

} // verus!
