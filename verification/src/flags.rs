//! The state flags that the host reports about the current process.

use vstd::prelude::*;

verus! {

/// Bit of the flag word: the process was granted root access.
pub const PROCESS_GRANTED_ROOT: u32 = 1;

/// Bit of the flag word: the process is on the denylist.
pub const PROCESS_ON_DENYLIST: u32 = 2;

/// Every bit of the flag word that this version of the interface defines: the
/// two flags together.
pub const KNOWN_BITS: u32 = 3;

/// Whether a flag word holds defined bits only.
pub open spec fn recognized(bits: u32) -> bool {
    bits & !KNOWN_BITS == 0
}

/// A set of state flags. A value never holds a bit that the interface does
/// not define: a word with such a bit is refused when it is decoded, and no
/// operation adds one.
#[derive(Clone, Copy, Debug, PartialEq, Eq, Structural)]
pub struct StateFlags {
    bits: u32,
}

/// A flag word from the host with at least one bit that this version of the
/// interface does not define. The word is kept as it came.
#[derive(Clone, Copy, Debug, PartialEq, Eq, Structural)]
pub struct UnsupportedFlags {
    pub bits: u32,
}

impl StateFlags {
    #[verifier::type_invariant]
    spec fn only_known_bits(self) -> bool {
        recognized(self.bits)
    }

    /// The flag word of this set.
    pub closed spec fn word(&self) -> u32 {
        self.bits
    }

    /// The set with a given flag word.
    pub closed spec fn with_word(word: u32) -> StateFlags {
        StateFlags { bits: word }
    }

    /// Well-formedness of a value in ghost code: only defined bits are
    /// set. Every value that executable code holds is well formed.
    pub open spec fn wf(self) -> bool {
        recognized(self.word())
    }

    /// The set that a flag word decodes to: the set with that word where all
    /// of its bits are defined, nothing otherwise.
    pub open spec fn decode(bits: u32) -> Option<StateFlags> {
        if recognized(bits) {
            Some(Self::with_word(bits))
        } else {
            None
        }
    }

    /// The empty set.
    pub fn empty() -> (flags: StateFlags)
        ensures
            flags.word() == 0,
            flags.wf(),
    {
        proof {
            lemma_known_bits();
        }
        StateFlags { bits: 0 }
    }

    /// The set of all defined flags.
    pub fn all() -> (flags: StateFlags)
        ensures
            flags.word() == KNOWN_BITS,
            flags.wf(),
    {
        proof {
            lemma_known_bits();
        }
        StateFlags { bits: KNOWN_BITS }
    }

    /// The set of one flag: the process was granted root access.
    pub fn process_granted_root() -> (flags: StateFlags)
        ensures
            flags.word() == PROCESS_GRANTED_ROOT,
            flags.wf(),
    {
        proof {
            lemma_known_bits();
        }
        StateFlags { bits: PROCESS_GRANTED_ROOT }
    }

    /// The set of one flag: the process is on the denylist.
    pub fn process_on_denylist() -> (flags: StateFlags)
        ensures
            flags.word() == PROCESS_ON_DENYLIST,
            flags.wf(),
    {
        proof {
            lemma_known_bits();
        }
        StateFlags { bits: PROCESS_ON_DENYLIST }
    }

    /// Decodes a flag word. A word with a bit outside the defined ones is
    /// refused, whatever its other bits are.
    pub fn from_bits(bits: u32) -> (flags: Option<StateFlags>)
        ensures
            flags == Self::decode(bits),
            flags is Some <==> recognized(bits),
            flags matches Some(set) ==> set.word() == bits,
    {
        if bits & !KNOWN_BITS == 0 {
            Some(StateFlags { bits })
        } else {
            None
        }
    }

    /// The flag word of this set.
    #[verifier::when_used_as_spec(word)]
    pub fn bits(&self) -> (bits: u32)
        ensures
            bits == self.word(),
            recognized(bits),
    {
        proof {
            use_type_invariant(self);
        }
        self.bits
    }

    /// Whether no flag is set.
    pub fn is_empty(&self) -> (empty: bool)
        ensures
            empty == (self.word() == 0),
    {
        self.bits == 0
    }

    /// Whether every flag of `other` is set in `self`.
    pub fn contains(&self, other: StateFlags) -> (all: bool)
        ensures
            all == (self.word() & other.word() == other.word()),
    {
        self.bits & other.bits == other.bits
    }

    /// The flags that are set in `self` or in `other`.
    pub fn union(self, other: StateFlags) -> (both: StateFlags)
        ensures
            both.word() == self.word() | other.word(),
            both.wf(),
    {
        proof {
            use_type_invariant(self);
            use_type_invariant(other);
            lemma_union_recognized(self.bits, other.bits);
        }
        StateFlags { bits: self.bits | other.bits }
    }
}

/// The defined bits are the two flags together, and the empty word, each flag
/// and both flags hold defined bits only.
pub proof fn lemma_known_bits()
    ensures
        KNOWN_BITS == PROCESS_GRANTED_ROOT | PROCESS_ON_DENYLIST,
        recognized(0),
        recognized(PROCESS_GRANTED_ROOT),
        recognized(PROCESS_ON_DENYLIST),
        recognized(KNOWN_BITS),
{
    assert(1u32 | 2u32 == 3u32) by (bit_vector);
    assert(0u32 & !3u32 == 0) by (bit_vector);
    assert(1u32 & !3u32 == 0) by (bit_vector);
    assert(2u32 & !3u32 == 0) by (bit_vector);
    assert(3u32 & !3u32 == 0) by (bit_vector);
}

/// The union of two words of defined bits holds defined bits only.
pub proof fn lemma_union_recognized(a: u32, b: u32)
    requires
        recognized(a),
        recognized(b),
    ensures
        recognized(a | b),
{
    assert((a | b) & !3u32 == 0) by (bit_vector)
        requires
            a & !3u32 == 0,
            b & !3u32 == 0,
    ;
}

/// A set is known by its flag word: two sets with the same word are the same
/// set.
pub proof fn lemma_word_determines_flags(a: StateFlags, b: StateFlags)
    ensures
        a.word() == b.word() ==> a == b,
        StateFlags::with_word(a.word()) == a,
{
}

/// The set with a given word has that word.
pub proof fn lemma_with_word(word: u32)
    ensures
        StateFlags::with_word(word).word() == word,
{
}

/// Decoding is total on the defined bits and refuses everything else: a word
/// is decoded if and only if it holds no undefined bit, and the set it gives
/// has exactly that word.
pub proof fn lemma_decode_total(bits: u32)
    ensures
        StateFlags::decode(bits) is Some <==> recognized(bits),
        StateFlags::decode(bits) matches Some(flags) ==> flags.word() == bits && flags.wf(),
{
}

/// Decoding is idempotent: the word of a decoded set decodes to the same set
/// again.
pub proof fn lemma_decode_idempotent(bits: u32)
    ensures
        StateFlags::decode(bits) matches Some(flags) ==> StateFlags::decode(flags.word()) == Some(
            flags,
        ),
{
}

/// A word with any bit outside the defined ones is refused, whatever its other
/// bits are.
pub proof fn lemma_decode_refuses_unknown(bits: u32, unknown: u32)
    requires
        unknown & KNOWN_BITS == 0,
        bits & unknown != 0,
    ensures
        StateFlags::decode(bits) is None,
{
    assert(bits & !3u32 != 0) by (bit_vector)
        requires
            unknown & 3u32 == 0,
            bits & unknown != 0,
    ;
}

} // verus!
