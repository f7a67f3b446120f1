use vstd::prelude::*;

verus! {

/// One of the named bits of the error code that the processor pushes on a
/// page fault.
#[derive(Clone, Copy, Debug, PartialEq, Eq, Structural)]
pub enum PageFaultFlag {
    ProtectionViolation,
    CausedByWrite,
    UserMode,
    MalformedTable,
    InstructionFetch,
}

/// Bit position of a named flag in the raw error code.
pub open spec fn flag_index(f: PageFaultFlag) -> u64 {
    match f {
        PageFaultFlag::ProtectionViolation => 0,
        PageFaultFlag::CausedByWrite => 1,
        PageFaultFlag::UserMode => 2,
        PageFaultFlag::MalformedTable => 3,
        PageFaultFlag::InstructionFetch => 4,
    }
}

/// Whether bit `i` of `raw` is set.
pub open spec fn bit_set(raw: u64, i: u64) -> bool {
    (raw >> i) & 1u64 == 1u64
}

/// Whether the raw error code `raw` carries the named flag `f`.
pub open spec fn has_flag(raw: u64, f: PageFaultFlag) -> bool {
    bit_set(raw, flag_index(f))
}

/// The named flags in bit order, lowest bit first.
pub open spec fn all_flags() -> Seq<PageFaultFlag> {
    seq![
        PageFaultFlag::ProtectionViolation,
        PageFaultFlag::CausedByWrite,
        PageFaultFlag::UserMode,
        PageFaultFlag::MalformedTable,
        PageFaultFlag::InstructionFetch,
    ]
}

/// The named flags that `raw` carries, lowest bit first.
pub open spec fn flags_of(raw: u64) -> Seq<PageFaultFlag> {
    all_flags().filter(|f: PageFaultFlag| has_flag(raw, f))
}

pub const PROTECTION_VIOLATION: u64 = 1;
pub const CAUSED_BY_WRITE: u64 = 2;
pub const USER_MODE: u64 = 4;
pub const MALFORMED_TABLE: u64 = 8;
pub const INSTRUCTION_FETCH: u64 = 16;

impl PageFaultFlag {
    /// The flag's mask in the raw error code.
    pub fn bit(self) -> (r: u64)
        ensures
            r == 1u64 << flag_index(self),
    {
        match self {
            PageFaultFlag::ProtectionViolation => {
                assert(1u64 << 0u64 == 1u64) by (bit_vector);
                PROTECTION_VIOLATION
            },
            PageFaultFlag::CausedByWrite => {
                assert(1u64 << 1u64 == 2u64) by (bit_vector);
                CAUSED_BY_WRITE
            },
            PageFaultFlag::UserMode => {
                assert(1u64 << 2u64 == 4u64) by (bit_vector);
                USER_MODE
            },
            PageFaultFlag::MalformedTable => {
                assert(1u64 << 3u64 == 8u64) by (bit_vector);
                MALFORMED_TABLE
            },
            PageFaultFlag::InstructionFetch => {
                assert(1u64 << 4u64 == 16u64) by (bit_vector);
                INSTRUCTION_FETCH
            },
        }
    }
}

/// The error code of a page fault, as a set of independent single-bit flags
/// over the raw 64-bit value. Bits without a name are kept but mean nothing.
#[derive(Clone, Copy, Debug, PartialEq, Eq, Structural)]
pub struct PageFaultErrorCode {
    pub bits: u64,
}

impl PageFaultErrorCode {
    /// Decodes a raw error code. Every 64-bit value decodes.
    pub fn decode(raw: u64) -> (r: PageFaultErrorCode)
        ensures
            r.bits == raw,
    {
        PageFaultErrorCode { bits: raw }
    }

    /// The raw value the code was decoded from.
    pub fn bits(&self) -> (r: u64)
        ensures
            r == self.bits,
    {
        self.bits
    }

    /// Whether the code carries the named flag `f`.
    pub fn contains(&self, f: PageFaultFlag) -> (r: bool)
        ensures
            r == has_flag(self.bits, f),
    {
        let m = f.bit();
        let raw = self.bits;
        let ghost i = flag_index(f);
        assert((raw & (1u64 << i) != 0u64) == ((raw >> i) & 1u64 == 1u64)) by (bit_vector)
            requires
                i < 64u64,
        ;
        raw & m != 0
    }

    pub fn protection_violation(&self) -> (r: bool)
        ensures
            r == has_flag(self.bits, PageFaultFlag::ProtectionViolation),
    {
        self.contains(PageFaultFlag::ProtectionViolation)
    }

    pub fn caused_by_write(&self) -> (r: bool)
        ensures
            r == has_flag(self.bits, PageFaultFlag::CausedByWrite),
    {
        self.contains(PageFaultFlag::CausedByWrite)
    }

    pub fn user_mode(&self) -> (r: bool)
        ensures
            r == has_flag(self.bits, PageFaultFlag::UserMode),
    {
        self.contains(PageFaultFlag::UserMode)
    }

    pub fn malformed_table(&self) -> (r: bool)
        ensures
            r == has_flag(self.bits, PageFaultFlag::MalformedTable),
    {
        self.contains(PageFaultFlag::MalformedTable)
    }

    pub fn instruction_fetch(&self) -> (r: bool)
        ensures
            r == has_flag(self.bits, PageFaultFlag::InstructionFetch),
    {
        self.contains(PageFaultFlag::InstructionFetch)
    }

    /// The named flags the code carries, lowest bit first.
    pub fn flags(&self) -> (r: Vec<PageFaultFlag>)
        ensures
            r@ == flags_of(self.bits),
    {
        let all = vec![
            PageFaultFlag::ProtectionViolation,
            PageFaultFlag::CausedByWrite,
            PageFaultFlag::UserMode,
            PageFaultFlag::MalformedTable,
            PageFaultFlag::InstructionFetch,
        ];
        assert(all@ =~= all_flags());
        let mut r: Vec<PageFaultFlag> = Vec::new();
        let mut i: usize = 0;
        while i < all.len()
            invariant
                all@ == all_flags(),
                i <= all@.len(),
                r@ == all_flags().subrange(0, i as int).filter(|f: PageFaultFlag| has_flag(self.bits, f)),
            decreases all@.len() - i,
        {
            let f = all[i];
            proof {
                reveal(Seq::filter);
                assert(all_flags().subrange(0, i + 1).drop_last() =~= all_flags().subrange(0, i as int));
            }
            if self.contains(f) {
                r.push(f);
            }
            i = i + 1;
        }
        assert(all_flags().subrange(0, 5) =~= all_flags());
        r
    }
}

/// The mask of all named bits.
pub const NAMED_BITS: u64 = 31;

proof fn lemma_bits_of_index(raw: u64, i: u64)
    requires
        i < 5,
    ensures
        raw & NAMED_BITS == 0 ==> !bit_set(raw, i),
        bit_set(1u64 << i, i),
        forall|j: u64| j < 64 && j != i ==> !bit_set(1u64 << i, j),
{
    assert(raw & 31u64 == 0u64 && i < 5u64 ==> (raw >> i) & 1u64 != 1u64) by (bit_vector);
    assert(i < 5u64 ==> ((1u64 << i) >> i) & 1u64 == 1u64) by (bit_vector);
    assert forall|j: u64| j < 64 && j != i implies !bit_set(1u64 << i, j) by {
        assert(i < 5u64 && j < 64u64 && j != i ==> ((1u64 << i) >> j) & 1u64 != 1u64)
            by (bit_vector);
    }
}

/// `f` alone where `raw` carries it, else nothing.
pub open spec fn pick(raw: u64, f: PageFaultFlag) -> Seq<PageFaultFlag> {
    if has_flag(raw, f) {
        seq![f]
    } else {
        Seq::empty()
    }
}

proof fn lemma_flags_of_unfold(raw: u64)
    ensures
        flags_of(raw) == pick(raw, PageFaultFlag::ProtectionViolation) + pick(
            raw,
            PageFaultFlag::CausedByWrite,
        ) + pick(raw, PageFaultFlag::UserMode) + pick(raw, PageFaultFlag::MalformedTable) + pick(
            raw,
            PageFaultFlag::InstructionFetch,
        ),
{
    reveal(Seq::filter);
    let a = all_flags();
    let pred = |f: PageFaultFlag| has_flag(raw, f);
    let p0 = a.subrange(0, 0).filter(pred);
    let p1 = a.subrange(0, 1).filter(pred);
    let p2 = a.subrange(0, 2).filter(pred);
    let p3 = a.subrange(0, 3).filter(pred);
    let p4 = a.subrange(0, 4).filter(pred);
    let p5 = a.subrange(0, 5).filter(pred);
    assert(p0 =~= Seq::empty());
    assert(a.subrange(0, 1).drop_last() =~= a.subrange(0, 0));
    assert(p1 =~= p0 + pick(raw, a[0]));
    assert(a.subrange(0, 2).drop_last() =~= a.subrange(0, 1));
    assert(p2 =~= p1 + pick(raw, a[1]));
    assert(a.subrange(0, 3).drop_last() =~= a.subrange(0, 2));
    assert(p3 =~= p2 + pick(raw, a[2]));
    assert(a.subrange(0, 4).drop_last() =~= a.subrange(0, 3));
    assert(p4 =~= p3 + pick(raw, a[3]));
    assert(a.subrange(0, 5).drop_last() =~= a.subrange(0, 4));
    assert(p5 =~= p4 + pick(raw, a[4]));
    assert(a.subrange(0, 5) =~= a);
    assert(flags_of(raw) =~= p0 + pick(raw, a[0]) + pick(raw, a[1]) + pick(raw, a[2]) + pick(
        raw,
        a[3],
    ) + pick(raw, a[4]));
}

/// Decoding is total and exact per flag: a code with a single named bit set
/// carries exactly that flag, and a code with no named bit set (whatever its
/// other bits) carries no named flag.
pub proof fn lemma_decode_flag_accurate(raw: u64, f: PageFaultFlag)
    ensures
        forall|g: PageFaultFlag| has_flag(1u64 << flag_index(f), g) <==> g == f,
        flags_of(1u64 << flag_index(f)) == seq![f],
        raw & NAMED_BITS == 0 ==> flags_of(raw) == Seq::<PageFaultFlag>::empty(),
{
    let single = 1u64 << flag_index(f);
    lemma_bits_of_index(raw, flag_index(f));
    assert forall|g: PageFaultFlag| has_flag(single, g) <==> g == f by {
        lemma_bits_of_index(raw, flag_index(g));
    }
    lemma_flags_of_unfold(single);
    lemma_flags_of_unfold(raw);
    assert(has_flag(single, f));
    assert(flags_of(single) =~= seq![f]);
    if raw & NAMED_BITS == 0 {
        lemma_bits_of_index(raw, 0);
        lemma_bits_of_index(raw, 1);
        lemma_bits_of_index(raw, 2);
        lemma_bits_of_index(raw, 3);
        lemma_bits_of_index(raw, 4);
        assert(flags_of(raw) =~= Seq::<PageFaultFlag>::empty());
    }
}

} // verus!
