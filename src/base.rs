//! The POSIX sets (Effective, Inheritable, Permitted), which the kernel reads
//! and writes together, as words of `struct __user_cap_data_struct`.
use vstd::prelude::*;

use crate::capability::{Capability, CAP_COUNT};
use crate::capset::CapSet;

verus! {

/// The first header version: one 32-bit word per set.
pub const LINUX_CAPABILITY_VERSION_1: u32 = 0x19980330;
/// The deprecated second header version: two words per set.
pub const LINUX_CAPABILITY_VERSION_2: u32 = 0x20071026;
/// The current header version: two words per set.
pub const LINUX_CAPABILITY_VERSION_3: u32 = 0x20080522;

/// One 32-bit word of each POSIX set.
#[derive(PartialEq, Eq, Structural, Debug, Clone, Copy)]
pub struct CapUserData {
    pub effective: u32,
    pub permitted: u32,
    pub inheritable: u32,
}

/// What capget hands back and capset takes: the header version that the
/// kernel reported, the low words (bits 0..32) and the high words (bits
/// 32..64, unused by the first version).
#[derive(PartialEq, Eq, Structural, Debug, Clone, Copy)]
pub struct KernelCaps {
    pub version: u32,
    pub low: CapUserData,
    pub high: CapUserData,
}

/// How many words per set a header version carries.
pub open spec fn spec_words(version: u32) -> usize {
    if version == LINUX_CAPABILITY_VERSION_1 {
        1
    } else {
        2
    }
}

/// The word of `set` in `d`.
pub open spec fn word(d: CapUserData, set: CapSet) -> u32 {
    match set {
        CapSet::Effective => d.effective,
        CapSet::Permitted => d.permitted,
        _ => d.inheritable,
    }
}

/// `d` with the word of `set` replaced by `w`.
pub open spec fn with_word(d: CapUserData, set: CapSet, w: u32) -> CapUserData {
    match set {
        CapSet::Effective => CapUserData { effective: w, ..d },
        CapSet::Permitted => CapUserData { permitted: w, ..d },
        _ => CapUserData { inheritable: w, ..d },
    }
}

/// The bits that a header version can carry.
pub open spec fn limit(version: u32) -> u64 {
    if spec_words(version) == 1 {
        0xffff_ffffu64
    } else {
        0xffff_ffff_ffff_ffffu64
    }
}

/// The 64-bit mask of a POSIX set as the kernel reported it.
pub open spec fn spec_mask(k: KernelCaps, set: CapSet) -> u64 {
    if spec_words(k.version) == 1 {
        word(k.low, set) as u64
    } else {
        (word(k.low, set) as u64) | ((word(k.high, set) as u64) << 32u64)
    }
}

/// `k` with the mask of `set` replaced by `m`, the other sets untouched.
pub open spec fn spec_with_mask(k: KernelCaps, set: CapSet, m: u64) -> KernelCaps {
    KernelCaps {
        version: k.version,
        low: with_word(k.low, set, m as u32),
        high: if spec_words(k.version) == 1 {
            k.high
        } else {
            with_word(k.high, set, (m >> 32u64) as u32)
        },
    }
}

/// Whether bit `i` of `m` is set.
pub open spec fn has_bit(m: u64, i: u8) -> bool {
    m & (1u64 << (i as u64)) != 0
}

proof fn lemma_split_join(m: u64)
    ensures
        ((m as u32) as u64) | ((((m >> 32u64) as u32) as u64) << 32u64) == m,
        ((m as u32) as u64) == m & 0xffff_ffffu64,
{
    assert(((m as u32) as u64) | ((((m >> 32u64) as u32) as u64) << 32u64) == m) by (bit_vector);
    assert(((m as u32) as u64) == m & 0xffff_ffffu64) by (bit_vector);
}

/// Writing a mask into a POSIX set and reading it back gives the mask, cut to
/// the bits the header version carries; the other sets keep their masks.
pub proof fn lemma_mask_with_mask(k: KernelCaps, set: CapSet, other: CapSet, m: u64)
    requires
        set.is_posix(),
        other.is_posix(),
    ensures
        spec_mask(spec_with_mask(k, set, m), set) == m & limit(k.version),
        other != set ==> spec_mask(spec_with_mask(k, set, m), other) == spec_mask(k, other),
{
    lemma_split_join(m);
    assert(m & 0xffff_ffff_ffff_ffffu64 == m) by (bit_vector);
}

/// How many words per set the header version `version` carries.
pub fn words(version: u32) -> (r: usize)
    ensures
        r == spec_words(version),
{
    if version == LINUX_CAPABILITY_VERSION_1 {
        1
    } else {
        2
    }
}


/// The mask with one bit for each capability in `s`.
pub open spec fn caps_mask(s: Seq<Capability>) -> u64
    decreases s.len(),
{
    if s.len() == 0 {
        0
    } else {
        caps_mask(s.drop_last()) | s.last().spec_bitmask()
    }
}

/// `k` after the mask of `set` is assigned the capabilities of `value`.
pub open spec fn assigned(k: KernelCaps, set: CapSet, value: Seq<Capability>) -> KernelCaps {
    spec_with_mask(k, set, caps_mask(value))
}

/// `k` after `set` is emptied.
pub open spec fn cleared(k: KernelCaps, set: CapSet) -> KernelCaps {
    spec_with_mask(k, set, 0)
}

/// `k` after `cap` is added to `set`, all other bits kept.
pub open spec fn raised(k: KernelCaps, set: CapSet, cap: Capability) -> KernelCaps {
    spec_with_mask(k, set, spec_mask(k, set) | cap.spec_bitmask())
}

/// `k` after `cap` is taken out of `set`, all other bits kept.
pub open spec fn dropped(k: KernelCaps, set: CapSet, cap: Capability) -> KernelCaps {
    spec_with_mask(k, set, spec_mask(k, set) & !cap.spec_bitmask())
}

pub(crate) proof fn lemma_or_bit(r: u64, j: u64, i: u64)
    requires
        j < 64,
        i < 64,
    ensures
        ((r | (1u64 << j)) & (1u64 << i) != 0) == ((r & (1u64 << i) != 0) || j == i),
{
    assert(((r | (1u64 << j)) & (1u64 << i) != 0) == ((r & (1u64 << i) != 0) || j == i))
        by (bit_vector)
        requires
            j < 64,
            i < 64,
    ;
}

pub(crate) proof fn lemma_and_not_bit(r: u64, j: u64, i: u64)
    requires
        j < 64,
        i < 64,
    ensures
        ((r & !(1u64 << j)) & (1u64 << i) != 0) == ((r & (1u64 << i) != 0) && j != i),
{
    assert(((r & !(1u64 << j)) & (1u64 << i) != 0) == ((r & (1u64 << i) != 0) && j != i))
        by (bit_vector)
        requires
            j < 64,
            i < 64,
    ;
}

pub(crate) proof fn lemma_bit_facts(r: u64, i: u64)
    requires
        i < 64,
    ensures
        0u64 & (1u64 << i) == 0,
        i < 32 ==> ((r & 0xffff_ffffu64) & (1u64 << i) != 0) == (r & (1u64 << i) != 0),
        r & 0xffff_ffff_ffff_ffffu64 == r,
{
    assert(0u64 & (1u64 << i) == 0) by (bit_vector);
    assert(i < 32 ==> ((r & 0xffff_ffffu64) & (1u64 << i) != 0) == (r & (1u64 << i) != 0))
        by (bit_vector);
    assert(r & 0xffff_ffff_ffff_ffffu64 == r) by (bit_vector);
}

/// A bit below 64 is set in `caps_mask(s)` exactly when a capability of `s`
/// has that index.
pub proof fn lemma_caps_mask_bits(s: Seq<Capability>, i: u8)
    requires
        i < 64,
    ensures
        has_bit(caps_mask(s), i) <==> exists|j: int| 0 <= j < s.len() && s[j].spec_index() == i,
    decreases s.len(),
{
    if s.len() == 0 {
        lemma_bit_facts(0, i as u64);
    } else {
        let t = s.drop_last();
        lemma_caps_mask_bits(t, i);
        crate::capability::lemma_index_injective(s.last(), s.last());
        lemma_or_bit(caps_mask(t), s.last().spec_index() as u64, i as u64);
        if has_bit(caps_mask(s), i) && s.last().spec_index() != i {
            let j = choose|j: int| 0 <= j < t.len() && t[j].spec_index() == i;
            assert(s[j] == t[j]);
        }
        if exists|j: int| 0 <= j < s.len() && s[j].spec_index() == i {
            let j = choose|j: int| 0 <= j < s.len() && s[j].spec_index() == i;
            if j < t.len() {
                assert(t[j] == s[j]);
            }
        }
    }
}

fn word_of(d: &CapUserData, set: CapSet) -> (r: u32)
    ensures
        r == word(*d, set),
{
    match set {
        CapSet::Effective => d.effective,
        CapSet::Permitted => d.permitted,
        _ => d.inheritable,
    }
}

fn replace_word(d: &CapUserData, set: CapSet, w: u32) -> (r: CapUserData)
    ensures
        r == with_word(*d, set, w),
{
    let mut r = *d;
    match set {
        CapSet::Effective => r.effective = w,
        CapSet::Permitted => r.permitted = w,
        _ => r.inheritable = w,
    }
    r
}

/// The 64-bit mask of the POSIX set `set` in what the kernel reported.
pub fn mask(k: &KernelCaps, set: CapSet) -> (r: u64)
    requires
        set.is_posix(),
    ensures
        r == spec_mask(*k, set),
{
    let low = word_of(&k.low, set) as u64;
    if words(k.version) == 1 {
        low
    } else {
        low | ((word_of(&k.high, set) as u64) << 32u64)
    }
}

/// `k` with the mask of `set` replaced by `m`; the other two sets keep their
/// words, so writing the result back leaves them as they were.
pub fn with_mask(k: &KernelCaps, set: CapSet, m: u64) -> (r: KernelCaps)
    requires
        set.is_posix(),
    ensures
        r == spec_with_mask(*k, set, m),
{
    let low = replace_word(&k.low, set, m as u32);
    let high = if words(k.version) == 1 {
        k.high
    } else {
        replace_word(&k.high, set, (m >> 32u64) as u32)
    };
    KernelCaps { version: k.version, low, high }
}

/// The known capabilities whose bits are set in `m`; unknown bits are ignored.
pub fn caps_of_mask(m: u64) -> (r: Vec<Capability>)
    ensures
        forall|c: Capability| r@.contains(c) <==> has_bit(m, c.spec_index()),
        r@.no_duplicates(),
{
    let mut r: Vec<Capability> = Vec::new();
    let mut i: u8 = 0;
    while i < CAP_COUNT
        invariant
            i <= CAP_COUNT,
            forall|c: Capability| r@.contains(c) <==> (c.spec_index() < i && has_bit(m, c.spec_index())),
            forall|j: int| 0 <= j < r@.len() ==> r@[j].spec_index() < i,
            r@.no_duplicates(),
        decreases CAP_COUNT - i,
    {
        let c = Capability::from_index(i).unwrap();
        if m & c.bitmask() != 0 {
            proof {
                assert(!r@.contains(c));
                assert forall|d: Capability| r@.push(c).contains(d)
                    <==> (d.spec_index() < i + 1 && has_bit(m, d.spec_index())) by {
                    crate::capability::lemma_index_injective(c, d);
                    if r@.push(c).contains(d) && d != c {
                        let j = choose|j: int| 0 <= j < r@.push(c).len() && r@.push(c)[j] == d;
                        assert(r@[j] == d);
                    }
                    if d == c {
                        assert(r@.push(c)[r@.len() as int] == c);
                    }
                    if r@.contains(d) {
                        let j = choose|j: int| 0 <= j < r@.len() && r@[j] == d;
                        assert(r@.push(c)[j] == d);
                    }
                }
            }
            r.push(c);
        } else {
            proof {
                assert forall|d: Capability| r@.contains(d)
                    <==> (d.spec_index() < i + 1 && has_bit(m, d.spec_index())) by {
                    crate::capability::lemma_index_injective(c, d);
                }
            }
        }
        i = i + 1;
    }
    proof {
        assert forall|c: Capability| r@.contains(c) <==> has_bit(m, c.spec_index()) by {
            crate::capability::lemma_index_injective(c, c);
        }
    }
    r
}

/// The mask with one bit for each capability in `caps`.
pub fn mask_of_caps(caps: &Vec<Capability>) -> (r: u64)
    ensures
        r == caps_mask(caps@),
{
    let mut r: u64 = 0;
    let mut i: usize = 0;
    while i < caps.len()
        invariant
            i <= caps@.len(),
            r == caps_mask(caps@.subrange(0, i as int)),
        decreases caps@.len() - i,
    {
        proof {
            let s = caps@.subrange(0, i as int + 1);
            assert(s.drop_last() =~= caps@.subrange(0, i as int));
            assert(s.last() == caps@[i as int]);
        }
        r = r | caps[i].bitmask();
        i = i + 1;
    }
    assert(caps@.subrange(0, i as int) =~= caps@);
    r
}

/// Whether `cap` is in the POSIX set `cset` of what the kernel reported.
pub fn has_cap(k: &KernelCaps, cset: CapSet, cap: Capability) -> (r: bool)
    requires
        cset.is_posix(),
    ensures
        r == has_bit(spec_mask(*k, cset), cap.spec_index()),
{
    mask(k, cset) & cap.bitmask() != 0
}

/// The capabilities in the POSIX set `cset` of what the kernel reported.
pub fn read(k: &KernelCaps, cset: CapSet) -> (r: Vec<Capability>)
    requires
        cset.is_posix(),
    ensures
        forall|c: Capability| r@.contains(c) <==> has_bit(spec_mask(*k, cset), c.spec_index()),
        r@.no_duplicates(),
{
    caps_of_mask(mask(k, cset))
}

/// What to write back so that `cset` holds all and only the capabilities of
/// `value`.
pub fn set(k: &KernelCaps, cset: CapSet, value: &Vec<Capability>) -> (r: KernelCaps)
    requires
        cset.is_posix(),
    ensures
        r == assigned(*k, cset, value@),
{
    with_mask(k, cset, mask_of_caps(value))
}

/// What to write back so that `cset` is empty.
pub fn clear(k: &KernelCaps, cset: CapSet) -> (r: KernelCaps)
    requires
        cset.is_posix(),
    ensures
        r == cleared(*k, cset),
{
    with_mask(k, cset, 0)
}

/// What to write back so that `cap` is added to `cset`.
pub fn raise(k: &KernelCaps, cset: CapSet, cap: Capability) -> (r: KernelCaps)
    requires
        cset.is_posix(),
    ensures
        r == raised(*k, cset, cap),
{
    with_mask(k, cset, mask(k, cset) | cap.bitmask())
}

/// What to write back so that `cap` is taken out of `cset`.
pub fn drop(k: &KernelCaps, cset: CapSet, cap: Capability) -> (r: KernelCaps)
    requires
        cset.is_posix(),
    ensures
        r == dropped(*k, cset, cap),
{
    with_mask(k, cset, mask(k, cset) & !cap.bitmask())
}


/// Once raised, a capability is in the set when it is read back, and the other
/// POSIX sets are untouched (where the header version carries its bit).
pub proof fn lemma_raise_then_has(k: KernelCaps, set: CapSet, other: CapSet, cap: Capability)
    requires
        set.is_posix(),
        other.is_posix(),
        spec_words(k.version) == 2 || cap.spec_index() < 32,
    ensures
        has_bit(spec_mask(raised(k, set, cap), set), cap.spec_index()),
        other != set ==> spec_mask(raised(k, set, cap), other) == spec_mask(k, other),
{
    let m = spec_mask(k, set) | cap.spec_bitmask();
    let i = cap.spec_index() as u64;
    crate::capability::lemma_index_injective(cap, cap);
    lemma_mask_with_mask(k, set, other, m);
    lemma_or_bit(spec_mask(k, set), i, i);
    lemma_bit_facts(m, i);
}

/// Once dropped, a capability is not in the set when it is read back, and the
/// other POSIX sets are untouched.
pub proof fn lemma_drop_then_lacks(k: KernelCaps, set: CapSet, other: CapSet, cap: Capability)
    requires
        set.is_posix(),
        other.is_posix(),
    ensures
        !has_bit(spec_mask(dropped(k, set, cap), set), cap.spec_index()),
        other != set ==> spec_mask(dropped(k, set, cap), other) == spec_mask(k, other),
{
    let m = spec_mask(k, set) & !cap.spec_bitmask();
    let i = cap.spec_index() as u64;
    crate::capability::lemma_index_injective(cap, cap);
    lemma_mask_with_mask(k, set, other, m);
    lemma_and_not_bit(spec_mask(k, set), i, i);
    lemma_bit_facts(m, i);
    assert((m & 0xffff_ffffu64) & (1u64 << i) != 0 ==> m & (1u64 << i) != 0) by (bit_vector);
}

/// Once cleared, a set reads back empty, and the other POSIX sets are untouched.
pub proof fn lemma_clear_then_empty(k: KernelCaps, set: CapSet, other: CapSet, cap: Capability)
    requires
        set.is_posix(),
        other.is_posix(),
    ensures
        spec_mask(cleared(k, set), set) == 0,
        !has_bit(spec_mask(cleared(k, set), set), cap.spec_index()),
        other != set ==> spec_mask(cleared(k, set), other) == spec_mask(k, other),
{
    crate::capability::lemma_index_injective(cap, cap);
    lemma_mask_with_mask(k, set, other, 0);
    assert(0u64 & 0xffff_ffffu64 == 0) by (bit_vector);
    lemma_bit_facts(0, cap.spec_index() as u64);
}

/// Clearing a set a second time writes the same as the first time, and the set
/// is empty after each.
pub proof fn lemma_clear_twice(k: KernelCaps, set: CapSet)
    requires
        set.is_posix(),
    ensures
        cleared(cleared(k, set), set) == cleared(k, set),
        spec_mask(cleared(k, set), set) == 0,
        spec_mask(cleared(cleared(k, set), set), set) == 0,
{
    lemma_mask_with_mask(k, set, set, 0);
    lemma_mask_with_mask(cleared(k, set), set, set, 0);
    assert(0u64 & 0xffff_ffffu64 == 0) by (bit_vector);
    assert((0u64 as u32) == 0u32 && ((0u64 >> 32u64) as u32) == 0u32) by (bit_vector);
    lemma_bit_facts(0, 0);
}

/// After a set is assigned a collection, it reads back as exactly that
/// collection (where the header version carries every bit).
pub proof fn lemma_set_then_read(k: KernelCaps, set: CapSet, value: Seq<Capability>, cap: Capability)
    requires
        set.is_posix(),
        spec_words(k.version) == 2,
    ensures
        has_bit(spec_mask(assigned(k, set, value), set), cap.spec_index()) <==> value.contains(cap),
{
    let m = caps_mask(value);
    crate::capability::lemma_index_injective(cap, cap);
    lemma_mask_with_mask(k, set, set, m);
    lemma_bit_facts(m, cap.spec_index() as u64);
    lemma_caps_mask_bits(value, cap.spec_index());
    if value.contains(cap) {
        let j = choose|j: int| 0 <= j < value.len() && value[j] == cap;
        assert(value[j].spec_index() == cap.spec_index());
    }
    if exists|j: int| 0 <= j < value.len() && value[j].spec_index() == cap.spec_index() {
        let j = choose|j: int| 0 <= j < value.len() && value[j].spec_index() == cap.spec_index();
        crate::capability::lemma_index_injective(value[j], cap);
    }
}

} // verus!
