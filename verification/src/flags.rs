//! The scan capability bitset.
//!
//! A scan request carries a set of independent boolean capabilities, each with
//! a fixed bit position in the 32-bit flag word the engine expects.  The set
//! is modelled as exactly that: the view of [`ScanFlags`] is the
//! `Set<Capability>` of the capabilities whose bits are on, and combination is
//! set union.

use vstd::prelude::*;

verus! {

/// The bits an engine flag word may carry.
pub const KNOWN_FLAG_BITS: u32 = 0x000F001F;

/// One named scan capability.
///
/// The five low bits select scanning behaviour; the four high bits select the
/// serialization of the engine's result.
#[derive(Clone, Copy, Debug, PartialEq, Eq, Structural)]
pub enum Capability {
    /// Examine the target exhaustively.
    DeepScan,
    /// Use behavioural heuristics beside the signature database.
    HeuristicScan,
    /// Scan every file type, whatever its extension or format.
    AllTypesScan,
    /// Descend into subdirectories of the target.
    RecursiveScan,
    /// Report details of the scan while it runs.
    Verbose,
    /// Serialize the result as XML.
    ResultAsXml,
    /// Serialize the result as JSON.
    ResultAsJson,
    /// Serialize the result as tab-separated values.
    ResultAsTsv,
    /// Serialize the result as comma-separated values.
    ResultAsCsv,
}

impl Capability {
    /// The bit position assigned to this capability.
    pub open spec fn spec_shift(self) -> u32 {
        match self {
            Capability::DeepScan => 0,
            Capability::HeuristicScan => 1,
            Capability::AllTypesScan => 2,
            Capability::RecursiveScan => 3,
            Capability::Verbose => 4,
            Capability::ResultAsXml => 16,
            Capability::ResultAsJson => 17,
            Capability::ResultAsTsv => 18,
            Capability::ResultAsCsv => 19,
        }
    }

    /// The single-bit flag word of this capability.
    pub open spec fn spec_bit(self) -> u32 {
        1u32 << self.spec_shift()
    }

    /// Every capability sits on one of the nine assigned bit positions.
    pub open spec fn shift_in_range(shift: u32) -> bool {
        shift <= 4 || (16 <= shift && shift <= 19)
    }

    fn shift(self) -> (r: u32)
        ensures
            r == self.spec_shift(),
    {
        match self {
            Capability::DeepScan => 0,
            Capability::HeuristicScan => 1,
            Capability::AllTypesScan => 2,
            Capability::RecursiveScan => 3,
            Capability::Verbose => 4,
            Capability::ResultAsXml => 16,
            Capability::ResultAsJson => 17,
            Capability::ResultAsTsv => 18,
            Capability::ResultAsCsv => 19,
        }
    }

    /// The flag word with exactly this capability's bit on.
    pub fn bit(self) -> (r: u32)
        ensures
            r == self.spec_bit(),
    {
        1u32 << self.shift()
    }
}

/// An assigned single bit stays inside the known flag mask.
proof fn lemma_known_bit_in_mask()
    by (bit_vector)
    ensures
        forall|s: u32|
            Capability::shift_in_range(s) ==> #[trigger] ((1u32 << s) & KNOWN_FLAG_BITS) == (1u32
                << s),
{
}

/// Two single bits overlap exactly when they sit on the same position.
proof fn lemma_single_bits_disjoint()
    by (bit_vector)
    ensures
        forall|s1: u32, s2: u32|
            s1 < 32 && s2 < 32 ==> (#[trigger] ((1u32 << s1) & (1u32 << s2)) != 0 <==> s1 == s2),
{
}

/// Bitwise facts about combining and testing flag words.
proof fn lemma_flag_word_algebra()
    by (bit_vector)
    ensures
        forall|b: u32| #[trigger] (0u32 & b) == 0,
        forall|a: u32, b: u32, m: u32|
            a & m == a && b & m == b ==> #[trigger] ((a | b) & m) == (a | b),
        forall|a: u32, b: u32, m: u32|
            #[trigger] ((a | b) & m) != 0 <==> (a & m != 0 || b & m != 0),
{
}

/// A combinable set of scan capabilities, stored as the engine's flag word.
#[derive(Clone, Copy, Debug, PartialEq, Eq, Structural)]
pub struct ScanFlags {
    bits: u32,
}

impl View for ScanFlags {
    type V = Set<Capability>;

    /// The set of capabilities whose bits are on.
    open spec fn view(&self) -> Set<Capability> {
        Set::new(|c: Capability| self.spec_bits() & c.spec_bit() != 0)
    }
}

impl ScanFlags {
    /// The raw flag word.
    pub closed spec fn spec_bits(self) -> u32 {
        self.bits
    }

    /// A well-formed flag word only carries assigned bits.
    pub open spec fn wf(self) -> bool {
        self.spec_bits() & KNOWN_FLAG_BITS == self.spec_bits()
    }

    /// The empty capability set.
    pub fn empty() -> (r: ScanFlags)
        ensures
            r.wf(),
            r.spec_bits() == 0,
            r@ == Set::<Capability>::empty(),
    {
        proof {
            lemma_flag_word_algebra();
            assert(Set::new(|c: Capability| 0u32 & c.spec_bit() != 0) =~= Set::<
                Capability,
            >::empty());
        }
        ScanFlags { bits: 0 }
    }

    /// The set holding exactly one capability.
    pub fn capability(c: Capability) -> (r: ScanFlags)
        ensures
            r.wf(),
            r.spec_bits() == c.spec_bit(),
            r@ == set![c],
    {
        let bits = c.bit();
        proof {
            lemma_known_bit_in_mask();
            lemma_single_bits_disjoint();
            assert(Set::new(|d: Capability| c.spec_bit() & d.spec_bit() != 0) =~= set![c]) by {
                assert forall|d: Capability| c.spec_bit() & d.spec_bit() != 0 <==> d == c by {
                    assert(c.spec_shift() < 32 && d.spec_shift() < 32);
                    assert(c.spec_shift() == d.spec_shift() ==> c == d);
                }
            }
        }
        ScanFlags { bits }
    }

    /// The union of two capability sets.
    pub fn union(self, other: ScanFlags) -> (r: ScanFlags)
        requires
            self.wf(),
            other.wf(),
        ensures
            r.wf(),
            r.spec_bits() == self.spec_bits() | other.spec_bits(),
            r@ == self@.union(other@),
    {
        proof {
            lemma_flag_word_algebra();
            assert(Set::new(
                |c: Capability| (self.spec_bits() | other.spec_bits()) & c.spec_bit() != 0,
            ) =~= self@.union(other@));
        }
        ScanFlags { bits: self.bits | other.bits }
    }

    /// Whether the set holds the given capability.
    pub fn contains(self, c: Capability) -> (r: bool)
        ensures
            r == self@.contains(c),
    {
        self.bits & c.bit() != 0
    }

    /// The flag word handed to the engine.
    pub fn bits(self) -> (r: u32)
        ensures
            r == self.spec_bits(),
    {
        self.bits
    }
}

} // verus!
