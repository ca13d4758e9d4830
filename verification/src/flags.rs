//! The optional decoders that the mixer can be asked to load.

use vstd::prelude::*;

verus! {

/// Bit of the FLAC decoder in a native flag word.
pub const INIT_FLAC: u32 = 0x1;

/// Bit of the MOD decoder (MikMod) in a native flag word.
pub const INIT_MOD: u32 = 0x2;

/// Bit of the MOD decoder (ModPlug) in a native flag word.
pub const INIT_MODPLUG: u32 = 0x4;

/// Bit of the MP3 decoder in a native flag word.
pub const INIT_MP3: u32 = 0x8;

/// Bit of the Ogg Vorbis decoder in a native flag word.
pub const INIT_OGG: u32 = 0x10;

/// Bit of the FluidSynth MIDI decoder in a native flag word.
pub const INIT_FLUIDSYNTH: u32 = 0x20;

/// One optional decoder.
#[derive(Debug, Clone, Copy, PartialEq, Eq, Hash, Structural)]
pub enum Decoder {
    Flac,
    Mod,
    ModPlug,
    Mp3,
    Ogg,
    FluidSynth,
}

impl Decoder {
    /// The decoder's bit in a native flag word.
    pub open spec fn spec_mask(self) -> u32 {
        match self {
            Decoder::Flac => 0x1,
            Decoder::Mod => 0x2,
            Decoder::ModPlug => 0x4,
            Decoder::Mp3 => 0x8,
            Decoder::Ogg => 0x10,
            Decoder::FluidSynth => 0x20,
        }
    }

    /// The decoder's bit in a native flag word.
    #[verifier::when_used_as_spec(spec_mask)]
    pub fn mask(self) -> (r: u32)
        ensures
            r == self.spec_mask(),
    {
        match self {
            Decoder::Flac => INIT_FLAC,
            Decoder::Mod => INIT_MOD,
            Decoder::ModPlug => INIT_MODPLUG,
            Decoder::Mp3 => INIT_MP3,
            Decoder::Ogg => INIT_OGG,
            Decoder::FluidSynth => INIT_FLUIDSYNTH,
        }
    }

    /// The decoder's name as it is printed, with the blank that follows it.
    pub open spec fn label(self) -> Seq<char> {
        match self {
            Decoder::Flac => "INIT_FLAC "@,
            Decoder::Mod => "INIT_MOD "@,
            Decoder::ModPlug => "INIT_MODPLUG "@,
            Decoder::Mp3 => "INIT_MP3 "@,
            Decoder::Ogg => "INIT_OGG "@,
            Decoder::FluidSynth => "INIT_FLUIDSYNTH "@,
        }
    }
}

/// Whether the flag word `bits` has the bit of `d`.
pub open spec fn has_bit(bits: u32, d: Decoder) -> bool {
    bits & d.spec_mask() == d.spec_mask()
}

/// The decoders whose bits are set in the flag word `bits`. Bits that stand
/// for no decoder count for nothing.
pub open spec fn decoders_in(bits: u32) -> Set<Decoder> {
    Set::new(|d: Decoder| has_bit(bits, d))
}

/// What `d` adds to the printed form of `s`: its label if it is a member,
/// nothing otherwise.
pub open spec fn label_in(s: Set<Decoder>, d: Decoder) -> Seq<char> {
    if s.contains(d) {
        d.label()
    } else {
        Seq::empty()
    }
}

/// The printed form of a set of decoders: the labels of its members, in the
/// order of their bits.
pub open spec fn names(s: Set<Decoder>) -> Seq<char> {
    label_in(s, Decoder::Flac) + label_in(s, Decoder::Mod) + label_in(s, Decoder::ModPlug)
        + label_in(s, Decoder::Mp3) + label_in(s, Decoder::Ogg) + label_in(
        s,
        Decoder::FluidSynth,
    )
}

/// What `d` adds to the flag word of `s`: its bit if it is a member.
pub open spec fn bit_in(s: Set<Decoder>, d: Decoder) -> int {
    if s.contains(d) {
        d.spec_mask() as int
    } else {
        0
    }
}

/// The flag word of a set of decoders: the bits of its members and no other.
pub open spec fn word_of(s: Set<Decoder>) -> int {
    bit_in(s, Decoder::Flac) + bit_in(s, Decoder::Mod) + bit_in(s, Decoder::ModPlug) + bit_in(
        s,
        Decoder::Mp3,
    ) + bit_in(s, Decoder::Ogg) + bit_in(s, Decoder::FluidSynth)
}

/// How the bit of one decoder fares under the bitwise operations.
proof fn lemma_bit_algebra(a: u32, b: u32, d: Decoder)
    ensures
        has_bit(a & b, d) == (has_bit(a, d) && has_bit(b, d)),
        has_bit(a | b, d) == (has_bit(a, d) || has_bit(b, d)),
        has_bit(a & !b, d) == (has_bit(a, d) && !has_bit(b, d)),
        has_bit(a ^ b, d) == (has_bit(a, d) != has_bit(b, d)),
        has_bit(a & 0x3f, d) == has_bit(a, d),
        has_bit(d.spec_mask(), d),
        forall|e: Decoder| e != d ==> !has_bit(d.spec_mask(), e),
{
    let m = d.spec_mask();
    assert(m == 0x1 || m == 0x2 || m == 0x4 || m == 0x8 || m == 0x10 || m == 0x20);
    assert({
        &&& ((a & b) & m == m) == ((a & m == m) && (b & m == m))
        &&& ((a | b) & m == m) == ((a & m == m) || (b & m == m))
        &&& ((a & !b) & m == m) == ((a & m == m) && !(b & m == m))
        &&& ((a ^ b) & m == m) == ((a & m == m) != (b & m == m))
        &&& ((a & 0x3f) & m == m) == (a & m == m)
        &&& m & m == m
    }) by (bit_vector)
        requires
            m == 0x1 || m == 0x2 || m == 0x4 || m == 0x8 || m == 0x10 || m == 0x20,
    ;
    assert forall|e: Decoder| e != d implies !has_bit(d.spec_mask(), e) by {
        let n = e.spec_mask();
        assert(n != m);
        assert(m & n != n) by (bit_vector)
            requires
                m == 0x1 || m == 0x2 || m == 0x4 || m == 0x8 || m == 0x10 || m == 0x20,
                n == 0x1 || n == 0x2 || n == 0x4 || n == 0x8 || n == 0x10 || n == 0x20,
                n != m,
        ;
    }
}

/// A flag word without unknown bits is told by its six decoder bits.
proof fn lemma_word(a: u32)
    requires
        a & !0x3fu32 == 0,
    ensures
        a == word_of(decoders_in(a)),
        a <= 0x3f,
        (a == 0) == (decoders_in(a) =~= Set::<Decoder>::empty()),
        (a == 0x3f) == (decoders_in(a) =~= Set::<Decoder>::full()),
{
    let s = decoders_in(a);
    assert(s.contains(Decoder::Flac) == (a & 0x1 == 0x1));
    assert(s.contains(Decoder::Mod) == (a & 0x2 == 0x2));
    assert(s.contains(Decoder::ModPlug) == (a & 0x4 == 0x4));
    assert(s.contains(Decoder::Mp3) == (a & 0x8 == 0x8));
    assert(s.contains(Decoder::Ogg) == (a & 0x10 == 0x10));
    assert(s.contains(Decoder::FluidSynth) == (a & 0x20 == 0x20));
    assert({
        &&& a == (if a & 0x1 == 0x1 { 0x1int } else { 0 }) + (if a & 0x2 == 0x2 { 0x2int } else { 0 })
            + (if a & 0x4 == 0x4 { 0x4int } else { 0 }) + (if a & 0x8 == 0x8 { 0x8int } else { 0 })
            + (if a & 0x10 == 0x10 { 0x10int } else { 0 }) + (if a & 0x20 == 0x20 { 0x20int } else { 0 })
        &&& a <= 0x3f
    }) by (bit_vector)
        requires
            a & !0x3fu32 == 0,
    ;
    if a == 0 {
        assert(s =~= Set::<Decoder>::empty());
    }
    if a == 0x3f {
        assert forall|d: Decoder| s.contains(d) by {
            lemma_bit_algebra(a, a, d);
            assert(has_bit(0x3fu32 & 0x3f, d) == has_bit(0x3fu32, d));
        }
        assert(s =~= Set::<Decoder>::full());
    }
    if s =~= Set::<Decoder>::full() {
        assert(Set::<Decoder>::full().contains(Decoder::Flac));
        assert(Set::<Decoder>::full().contains(Decoder::Mod));
        assert(Set::<Decoder>::full().contains(Decoder::ModPlug));
        assert(Set::<Decoder>::full().contains(Decoder::Mp3));
        assert(Set::<Decoder>::full().contains(Decoder::Ogg));
        assert(Set::<Decoder>::full().contains(Decoder::FluidSynth));
    }
}

/// The flag word of a set of decoders holds the bits of its members and no
/// other: it is below 64, and the decoders in it are the set again.
pub proof fn lemma_word_of_set(s: Set<Decoder>)
    ensures
        0 <= word_of(s) <= 0x3f,
        decoders_in(word_of(s) as u32) == s,
{
    let b0 = s.contains(Decoder::Flac);
    let b1 = s.contains(Decoder::Mod);
    let b2 = s.contains(Decoder::ModPlug);
    let b3 = s.contains(Decoder::Mp3);
    let b4 = s.contains(Decoder::Ogg);
    let b5 = s.contains(Decoder::FluidSynth);
    let w = word_of(s) as u32;
    assert(w == (if b0 { 0x1int } else { 0 }) + (if b1 { 0x2int } else { 0 }) + (if b2 { 0x4int } else { 0 })
        + (if b3 { 0x8int } else { 0 }) + (if b4 { 0x10int } else { 0 }) + (if b5 { 0x20int } else { 0 }));
    assert({
        &&& (w & 0x1 == 0x1) == b0
        &&& (w & 0x2 == 0x2) == b1
        &&& (w & 0x4 == 0x4) == b2
        &&& (w & 0x8 == 0x8) == b3
        &&& (w & 0x10 == 0x10) == b4
        &&& (w & 0x20 == 0x20) == b5
    }) by (bit_vector)
        requires
            w == (if b0 { 0x1int } else { 0 }) + (if b1 { 0x2int } else { 0 }) + (if b2 { 0x4int } else { 0 })
                + (if b3 { 0x8int } else { 0 }) + (if b4 { 0x10int } else { 0 }) + (if b5 { 0x20int } else { 0 }),
    ;
    assert forall|d: Decoder| decoders_in(w).contains(d) == s.contains(d) by {
        match d {
            Decoder::Flac => {},
            Decoder::Mod => {},
            Decoder::ModPlug => {},
            Decoder::Mp3 => {},
            Decoder::Ogg => {},
            Decoder::FluidSynth => {},
        }
    }
    assert(decoders_in(w) =~= s);
}

/// A set of optional decoders, kept as a native flag word.
#[derive(Debug, Clone, Copy, PartialEq, Eq, Hash)]
pub struct InitFlag {
    bits: u32,
}

impl View for InitFlag {
    type V = Set<Decoder>;

    closed spec fn view(&self) -> Set<Decoder> {
        decoders_in(self.bits)
    }
}

impl InitFlag {
    /// No bit is set that stands for no decoder.
    #[verifier::type_invariant]
    spec fn known_bits_only(self) -> bool {
        self.bits & !0x3fu32 == 0
    }

    /// The set whose members are the decoders with a bit in `bits`; bits that
    /// stand for no decoder are dropped.
    pub fn from_bits_truncate(bits: u32) -> (r: InitFlag)
        ensures
            r@ == decoders_in(bits),
    {
        assert((bits & 0x3f) & !0x3fu32 == 0) by (bit_vector);
        let r = InitFlag { bits: bits & 0x3f };
        assert forall|d: Decoder| has_bit(bits & 0x3f, d) == has_bit(bits, d) by {
            lemma_bit_algebra(bits, bits, d);
        }
        assert(r@ =~= decoders_in(bits));
        r
    }

    /// The set whose members are the decoders with a bit in `bits`, unless a
    /// bit is set that stands for no decoder.
    pub fn from_bits(bits: u32) -> (r: Option<InitFlag>)
        ensures
            bits <= 0x3f ==> r is Some && r->0@ == decoders_in(bits),
            bits > 0x3f ==> r is None,
    {
        if bits <= 0x3f {
            assert(bits & !0x3fu32 == 0) by (bit_vector)
                requires
                    bits <= 0x3f,
            ;
            Some(InitFlag { bits })
        } else {
            None
        }
    }

    /// The set without members.
    pub fn empty() -> (r: InitFlag)
        ensures
            r@ == Set::<Decoder>::empty(),
    {
        assert(0u32 & !0x3fu32 == 0) by (bit_vector);
        let r = InitFlag { bits: 0 };
        proof {
            lemma_word(0);
        }
        r
    }

    /// The set of all six decoders.
    pub fn all() -> (r: InitFlag)
        ensures
            r@ == Set::<Decoder>::full(),
    {
        assert(0x3fu32 & !0x3fu32 == 0) by (bit_vector);
        let r = InitFlag { bits: 0x3f };
        proof {
            lemma_word(0x3f);
        }
        r
    }

    /// The set that holds `d` alone.
    pub fn of(d: Decoder) -> (r: InitFlag)
        ensures
            r@ == set![d],
    {
        let r = InitFlag::from_bits_truncate(d.mask());
        proof {
            lemma_bit_algebra(0, 0, d);
            assert(r@ =~= set![d]);
        }
        r
    }

    /// The native flag word: the bits of the members and no other.
    pub fn bits(&self) -> (r: u32)
        ensures
            r == word_of(self@),
            r <= 0x3f,
            decoders_in(r) == self@,
    {
        proof {
            use_type_invariant(self);
            lemma_word(self.bits);
        }
        self.bits
    }

    /// Whether the set has no member.
    pub fn is_empty(&self) -> (r: bool)
        ensures
            r == (self@ == Set::<Decoder>::empty()),
    {
        proof {
            use_type_invariant(self);
            lemma_word(self.bits);
        }
        self.bits == 0
    }

    /// Whether the set has all six decoders.
    pub fn is_all(&self) -> (r: bool)
        ensures
            r == (self@ == Set::<Decoder>::full()),
    {
        proof {
            use_type_invariant(self);
            lemma_word(self.bits);
        }
        self.bits == 0x3f
    }

    /// Whether `d` is a member.
    pub fn has(&self, d: Decoder) -> (r: bool)
        ensures
            r == self@.contains(d),
    {
        self.bits & d.mask() == d.mask()
    }

    /// Whether every member of `other` is a member of this set.
    pub fn contains(&self, other: InitFlag) -> (r: bool)
        ensures
            r == other@.subset_of(self@),
    {
        let a = self.bits;
        let b = other.bits;
        proof {
            use_type_invariant(self);
            use_type_invariant(&other);
            assert forall|d: Decoder| has_bit(a & b, d) == (has_bit(a, d) && has_bit(b, d)) by {
                lemma_bit_algebra(a, b, d);
            }
            assert((a & b) & !0x3fu32 == 0) by (bit_vector)
                requires
                    b & !0x3fu32 == 0,
            ;
            lemma_word(a & b);
            lemma_word(b);
            if other@.subset_of(self@) {
                assert(decoders_in(a & b) =~= decoders_in(b));
            }
            if a & b == b {
                assert forall|d: Decoder| other@.contains(d) implies self@.contains(d) by {
                    assert(has_bit(a & b, d));
                }
            }
        }
        a & b == b
    }

    /// Whether the two sets share a member.
    pub fn intersects(&self, other: InitFlag) -> (r: bool)
        ensures
            r == !self@.disjoint(other@),
    {
        let a = self.bits;
        let b = other.bits;
        proof {
            use_type_invariant(self);
            use_type_invariant(&other);
            assert forall|d: Decoder| has_bit(a & b, d) == (has_bit(a, d) && has_bit(b, d)) by {
                lemma_bit_algebra(a, b, d);
            }
            assert((a & b) & !0x3fu32 == 0) by (bit_vector)
                requires
                    b & !0x3fu32 == 0,
            ;
            lemma_word(a & b);
            if self@.disjoint(other@) {
                assert forall|d: Decoder| !decoders_in(a & b).contains(d) by {
                    assert(!(self@.contains(d) && other@.contains(d)));
                }
                assert(decoders_in(a & b) =~= Set::<Decoder>::empty());
            }
            if a & b == 0 {
                assert forall|d: Decoder| !(self@.contains(d) && other@.contains(d)) by {
                    assert(!decoders_in(a & b).contains(d));
                }
            }
        }
        a & b != 0
    }

    /// The set of the members of either set.
    pub closed spec fn spec_union(self, other: InitFlag) -> InitFlag {
        InitFlag { bits: self.bits | other.bits }
    }

    /// The set of the members of both sets.
    pub closed spec fn spec_intersection(self, other: InitFlag) -> InitFlag {
        InitFlag { bits: self.bits & other.bits }
    }

    /// The set of the members of this set that `other` lacks.
    pub closed spec fn spec_difference(self, other: InitFlag) -> InitFlag {
        InitFlag { bits: self.bits & !other.bits }
    }

    /// The set of the members of exactly one of the two sets.
    pub closed spec fn spec_symmetric_difference(self, other: InitFlag) -> InitFlag {
        InitFlag { bits: self.bits ^ other.bits }
    }

    /// The members of either set.
    pub fn union(self, other: InitFlag) -> (r: InitFlag)
        ensures
            r == self.spec_union(other),
            r@ == self@.union(other@),
    {
        let a = self.bits;
        let b = other.bits;
        proof {
            use_type_invariant(&self);
            use_type_invariant(&other);
            assert((a | b) & !0x3fu32 == 0) by (bit_vector)
                requires
                    a & !0x3fu32 == 0,
                    b & !0x3fu32 == 0,
            ;
            assert forall|d: Decoder| has_bit(a | b, d) == (has_bit(a, d) || has_bit(b, d)) by {
                lemma_bit_algebra(a, b, d);
            }
            assert(decoders_in(a | b) =~= self@.union(other@));
        }
        InitFlag { bits: a | b }
    }

    /// The members of both sets.
    pub fn intersection(self, other: InitFlag) -> (r: InitFlag)
        ensures
            r == self.spec_intersection(other),
            r@ == self@.intersect(other@),
    {
        let a = self.bits;
        let b = other.bits;
        proof {
            use_type_invariant(&self);
            assert((a & b) & !0x3fu32 == 0) by (bit_vector)
                requires
                    a & !0x3fu32 == 0,
            ;
            assert forall|d: Decoder| has_bit(a & b, d) == (has_bit(a, d) && has_bit(b, d)) by {
                lemma_bit_algebra(a, b, d);
            }
            assert(decoders_in(a & b) =~= self@.intersect(other@));
        }
        InitFlag { bits: a & b }
    }

    /// The members of this set that `other` lacks.
    pub fn difference(self, other: InitFlag) -> (r: InitFlag)
        ensures
            r == self.spec_difference(other),
            r@ == self@.difference(other@),
    {
        let a = self.bits;
        let b = other.bits;
        proof {
            use_type_invariant(&self);
            assert((a & !b) & !0x3fu32 == 0) by (bit_vector)
                requires
                    a & !0x3fu32 == 0,
            ;
            assert forall|d: Decoder| has_bit(a & !b, d) == (has_bit(a, d) && !has_bit(b, d)) by {
                lemma_bit_algebra(a, b, d);
            }
            assert(decoders_in(a & !b) =~= self@.difference(other@));
        }
        InitFlag { bits: a & !b }
    }

    /// The members of exactly one of the two sets.
    pub fn symmetric_difference(self, other: InitFlag) -> (r: InitFlag)
        ensures
            r == self.spec_symmetric_difference(other),
            r@ == self@.difference(other@).union(other@.difference(self@)),
    {
        let a = self.bits;
        let b = other.bits;
        proof {
            use_type_invariant(&self);
            use_type_invariant(&other);
            assert((a ^ b) & !0x3fu32 == 0) by (bit_vector)
                requires
                    a & !0x3fu32 == 0,
                    b & !0x3fu32 == 0,
            ;
            assert forall|d: Decoder| has_bit(a ^ b, d) == (has_bit(a, d) != has_bit(b, d)) by {
                lemma_bit_algebra(a, b, d);
            }
            assert(decoders_in(a ^ b) =~= self@.difference(other@).union(
                other@.difference(self@),
            ));
        }
        InitFlag { bits: a ^ b }
    }

    /// The printed form: the labels of the members in the order of their
    /// bits, each followed by a blank.
    pub fn to_string(&self) -> (r: String)
        ensures
            r@ == names(self@),
    {
        let mut string = String::new();
        if self.has(Decoder::Flac) {
            string.append("INIT_FLAC ");
        }
        assert(string@ =~= label_in(self@, Decoder::Flac));
        if self.has(Decoder::Mod) {
            string.append("INIT_MOD ");
        }
        assert(string@ =~= label_in(self@, Decoder::Flac) + label_in(self@, Decoder::Mod));
        if self.has(Decoder::ModPlug) {
            string.append("INIT_MODPLUG ");
        }
        assert(string@ =~= label_in(self@, Decoder::Flac) + label_in(self@, Decoder::Mod)
            + label_in(self@, Decoder::ModPlug));
        if self.has(Decoder::Mp3) {
            string.append("INIT_MP3 ");
        }
        assert(string@ =~= label_in(self@, Decoder::Flac) + label_in(self@, Decoder::Mod)
            + label_in(self@, Decoder::ModPlug) + label_in(self@, Decoder::Mp3));
        if self.has(Decoder::Ogg) {
            string.append("INIT_OGG ");
        }
        assert(string@ =~= label_in(self@, Decoder::Flac) + label_in(self@, Decoder::Mod)
            + label_in(self@, Decoder::ModPlug) + label_in(self@, Decoder::Mp3) + label_in(
            self@,
            Decoder::Ogg,
        ));
        if self.has(Decoder::FluidSynth) {
            string.append("INIT_FLUIDSYNTH ");
        }
        assert(string@ =~= names(self@));
        string
    }
}

impl core::ops::BitOr for InitFlag {
    type Output = InitFlag;

    /// The members of either set.
    fn bitor(self, other: InitFlag) -> (r: InitFlag)
        ensures
            r@ == self@.union(other@),
    {
        self.union(other)
    }
}

impl vstd::std_specs::ops::BitOrSpecImpl for InitFlag {
    open spec fn obeys_bitor_spec() -> bool {
        true
    }

    open spec fn bitor_req(self, other: InitFlag) -> bool {
        true
    }

    open spec fn bitor_spec(self, other: InitFlag) -> InitFlag {
        self.spec_union(other)
    }
}

impl core::ops::BitAnd for InitFlag {
    type Output = InitFlag;

    /// The members of both sets.
    fn bitand(self, other: InitFlag) -> (r: InitFlag)
        ensures
            r@ == self@.intersect(other@),
    {
        self.intersection(other)
    }
}

impl vstd::std_specs::ops::BitAndSpecImpl for InitFlag {
    open spec fn obeys_bitand_spec() -> bool {
        true
    }

    open spec fn bitand_req(self, other: InitFlag) -> bool {
        true
    }

    open spec fn bitand_spec(self, other: InitFlag) -> InitFlag {
        self.spec_intersection(other)
    }
}

impl core::ops::BitXor for InitFlag {
    type Output = InitFlag;

    /// The members of exactly one of the two sets.
    fn bitxor(self, other: InitFlag) -> (r: InitFlag)
        ensures
            r@ == self@.difference(other@).union(other@.difference(self@)),
    {
        self.symmetric_difference(other)
    }
}

impl vstd::std_specs::ops::BitXorSpecImpl for InitFlag {
    open spec fn obeys_bitxor_spec() -> bool {
        true
    }

    open spec fn bitxor_req(self, other: InitFlag) -> bool {
        true
    }

    open spec fn bitxor_spec(self, other: InitFlag) -> InitFlag {
        self.spec_symmetric_difference(other)
    }
}

impl core::ops::Sub for InitFlag {
    type Output = InitFlag;

    /// The members of this set that `other` lacks.
    fn sub(self, other: InitFlag) -> (r: InitFlag)
        ensures
            r@ == self@.difference(other@),
    {
        self.difference(other)
    }
}

impl vstd::std_specs::ops::SubSpecImpl for InitFlag {
    open spec fn obeys_sub_spec() -> bool {
        true
    }

    open spec fn sub_req(self, other: InitFlag) -> bool {
        true
    }

    open spec fn sub_spec(self, other: InitFlag) -> InitFlag {
        self.spec_difference(other)
    }
}

} // verus!
