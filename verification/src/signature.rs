use vstd::prelude::*;

verus! {

/// The game modules in which the CS2 offsets live.
#[derive(Debug, Clone, Copy, PartialEq, Eq, Structural, PartialOrd, Ord, Hash)]
pub enum Module {
    Client,
    Engine,
    Schemasystem,
    Tier0,
}

/// How the value at a signature match is turned into an address.
#[derive(Debug, Clone, Copy, PartialEq, Eq, Structural)]
pub enum SignatureType {
    /// A 32-bit displacement at `offset` within an instruction of
    /// `inst_length` bytes, relative to the end of that instruction.
    RelativeAddress { inst_length: u64 },
}

/// A byte pattern that locates a value in a module, with a name for reports.
#[derive(Debug, Clone)]
pub struct Signature {
    pub debug_name: String,
    pub pattern: String,
    pub offset: u64,
    pub value_type: SignatureType,
}

/// The contents of a signature, as plain values.
pub struct SignatureView {
    pub debug_name: Seq<char>,
    pub pattern: Seq<char>,
    pub offset: u64,
    pub value_type: SignatureType,
}

impl View for Signature {
    type V = SignatureView;

    open spec fn view(&self) -> SignatureView {
        SignatureView {
            debug_name: self.debug_name@,
            pattern: self.pattern@,
            offset: self.offset,
            value_type: self.value_type,
        }
    }
}

/// Where token `k` of a space-separated byte pattern starts.
pub open spec fn token_start(pattern: Seq<char>, k: nat) -> int
    decreases k,
{
    if k == 0 {
        0
    } else {
        next_token(pattern, token_start(pattern, (k - 1) as nat))
    }
}

/// Where the token after the one that holds position `i` starts.
pub open spec fn next_token(pattern: Seq<char>, i: int) -> int
    decreases pattern.len() - i,
{
    if i < 0 || i >= pattern.len() {
        pattern.len() as int
    } else if pattern[i] == ' ' {
        i + 1
    } else {
        next_token(pattern, i + 1)
    }
}

/// Whether token `k` of the pattern is the wildcard `?`, which matches any
/// byte.
pub open spec fn is_wildcard_token(pattern: Seq<char>, k: nat) -> bool {
    let s = token_start(pattern, k);
    &&& 0 <= s < pattern.len()
    &&& pattern[s] == '?'
    &&& (s + 1 == pattern.len() || pattern[s + 1] == ' ')
}

/// Whether `c` is an uppercase hexadecimal digit.
pub open spec fn is_upper_hex(c: char) -> bool {
    ('0' <= c && c <= '9') || ('A' <= c && c <= 'F')
}

/// Whether the pattern, from position `i` on, is a run of tokens separated
/// by single spaces, each token either `?` or two uppercase hex digits.
pub open spec fn pattern_well_formed_from(pattern: Seq<char>, i: int) -> bool
    decreases pattern.len() - i,
{
    if i < 0 || i >= pattern.len() {
        false
    } else if pattern[i] == '?' {
        i + 1 == pattern.len() || (i + 2 < pattern.len() && pattern[i + 1] == ' '
            && pattern_well_formed_from(pattern, i + 2))
    } else if i + 1 < pattern.len() && is_upper_hex(pattern[i]) && is_upper_hex(pattern[i + 1]) {
        i + 2 == pattern.len() || (i + 3 < pattern.len() && pattern[i + 2] == ' '
            && pattern_well_formed_from(pattern, i + 3))
    } else {
        false
    }
}

/// Whether the whole pattern is tokens separated by single spaces, each `?`
/// or two uppercase hex digits.
pub open spec fn pattern_well_formed(pattern: Seq<char>) -> bool {
    pattern_well_formed_from(pattern, 0)
}

impl Signature {
    /// A signature whose value is a displacement relative to the end of the
    /// matched instruction.
    pub fn relative_address(debug_name: &str, pattern: &str, offset: u64, inst_length: u64) -> (r:
        Signature)
        ensures
            r@ == (SignatureView {
                debug_name: debug_name@,
                pattern: pattern@,
                offset,
                value_type: SignatureType::RelativeAddress { inst_length },
            }),
    {
        Signature {
            debug_name: debug_name.to_owned(),
            pattern: pattern.to_owned(),
            offset,
            value_type: SignatureType::RelativeAddress { inst_length },
        }
    }
}

} // verus!
