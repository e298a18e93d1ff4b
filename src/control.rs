//! Requests on the current thread's Ambient and Bounding sets, which the
//! kernel handles one capability at a time through prctl.
use vstd::prelude::*;

use crate::base::{caps_mask, has_bit, lemma_and_not_bit, lemma_caps_mask_bits};
use crate::capability::{all_caps, Capability, CAP_COUNT};
use crate::errors::Error;

verus! {

/// One prctl request on the current thread.
#[derive(PartialEq, Eq, Structural, Debug, Clone, Copy)]
pub enum Control {
    /// `PR_CAP_AMBIENT_IS_SET`: answers whether the capability is in the Ambient set.
    AmbientIsSet(Capability),
    /// `PR_CAP_AMBIENT_RAISE`: adds the capability to the Ambient set.
    AmbientRaise(Capability),
    /// `PR_CAP_AMBIENT_LOWER`: takes the capability out of the Ambient set.
    AmbientLower(Capability),
    /// `PR_CAP_AMBIENT_CLEAR_ALL`: empties the Ambient set.
    AmbientClearAll,
    /// `PR_CAPBSET_READ`: answers whether the capability is in the Bounding set.
    BoundingRead(Capability),
    /// `PR_CAPBSET_DROP`: takes the capability out of the Bounding set for good.
    BoundingDrop(Capability),
}

/// What prctl's return value `ret` (and `errno`, read right after it) mean for
/// a request that answers yes or no: a negative value is a failure.
pub fn reply_flag(ret: i32, errno: i32) -> (r: Result<bool, Error>)
    ensures
        ret < 0 ==> r == Err::<bool, Error>(Error::Syscall(errno)),
        ret >= 0 ==> r == Ok::<bool, Error>(ret != 0),
{
    if ret < 0 {
        Err(Error::Syscall(errno))
    } else {
        Ok(ret != 0)
    }
}

/// What a system call's return value `ret` (and `errno`, read right after it)
/// mean for a request that changes something: a negative value is a failure.
pub fn reply_done(ret: i32, errno: i32) -> (r: Result<(), Error>)
    ensures
        ret < 0 ==> r == Err::<(), Error>(Error::Syscall(errno)),
        ret >= 0 ==> r == Ok::<(), Error>(()),
{
    if ret < 0 {
        Err(Error::Syscall(errno))
    } else {
        Ok(())
    }
}

/// One request for each known capability, in index order.
pub open spec fn for_each_cap(make: spec_fn(Capability) -> Control) -> Seq<Control> {
    all_caps().map_values(make)
}

/// Builds one request for each known capability, in index order: `ambient`
/// picks `AmbientIsSet`, `!ambient` picks `BoundingRead`, unless `drop` is set,
/// which picks `BoundingDrop`.
fn each_cap(ambient: bool, drop: bool) -> (r: Vec<Control>)
    ensures
        r@ == for_each_cap(
            |c: Capability|
                if ambient {
                    Control::AmbientIsSet(c)
                } else if drop {
                    Control::BoundingDrop(c)
                } else {
                    Control::BoundingRead(c)
                },
        ),
{
    let caps = crate::capability::all();
    let mut r: Vec<Control> = Vec::new();
    let mut i: usize = 0;
    while i < caps.len()
        invariant
            caps@ == all_caps(),
            i <= caps@.len(),
            r@.len() == i,
            forall|j: int|
                0 <= j < i ==> r@[j] == (if ambient {
                    Control::AmbientIsSet(caps@[j])
                } else if drop {
                    Control::BoundingDrop(caps@[j])
                } else {
                    Control::BoundingRead(caps@[j])
                }),
        decreases caps@.len() - i,
    {
        let c = caps[i];
        let q = if ambient {
            Control::AmbientIsSet(c)
        } else if drop {
            Control::BoundingDrop(c)
        } else {
            Control::BoundingRead(c)
        };
        r.push(q);
        i = i + 1;
    }
    assert(r@ =~= for_each_cap(
        |c: Capability|
            if ambient {
                Control::AmbientIsSet(c)
            } else if drop {
                Control::BoundingDrop(c)
            } else {
                Control::BoundingRead(c)
            },
    ));
    r
}

/// The requests that read the whole Ambient set: one probe per known capability.
pub fn ambient_probes() -> (r: Vec<Control>)
    ensures
        r@ == for_each_cap(|c: Capability| Control::AmbientIsSet(c)),
{
    let r = each_cap(true, false);
    assert(r@ =~= for_each_cap(|c: Capability| Control::AmbientIsSet(c)));
    r
}

/// The requests that read the whole Bounding set: one probe per known capability.
pub fn bounding_probes() -> (r: Vec<Control>)
    ensures
        r@ == for_each_cap(|c: Capability| Control::BoundingRead(c)),
{
    let r = each_cap(false, false);
    assert(r@ =~= for_each_cap(|c: Capability| Control::BoundingRead(c)));
    r
}

/// The requests that empty the Bounding set: one drop per known capability.
pub fn bounding_drops() -> (r: Vec<Control>)
    ensures
        r@ == for_each_cap(|c: Capability| Control::BoundingDrop(c)),
{
    let r = each_cap(false, true);
    assert(r@ =~= for_each_cap(|c: Capability| Control::BoundingDrop(c)));
    r
}

/// The requests that make the Ambient set hold exactly `value`: empty it, then
/// raise each capability of `value` in turn.
pub fn ambient_assign(value: &Vec<Capability>) -> (r: Vec<Control>)
    ensures
        r@ == seq![Control::AmbientClearAll] + value@.map_values(|c: Capability| Control::AmbientRaise(c)),
{
    let mut r: Vec<Control> = Vec::new();
    r.push(Control::AmbientClearAll);
    let mut i: usize = 0;
    while i < value.len()
        invariant
            i <= value@.len(),
            r@ == seq![Control::AmbientClearAll] + value@.subrange(0, i as int).map_values(
                |c: Capability| Control::AmbientRaise(c),
            ),
        decreases value@.len() - i,
    {
        r.push(Control::AmbientRaise(value[i]));
        i = i + 1;
        assert(r@ =~= seq![Control::AmbientClearAll] + value@.subrange(0, i as int).map_values(
            |c: Capability| Control::AmbientRaise(c),
        ));
    }
    assert(value@.subrange(0, i as int) =~= value@);
    r
}

/// The capabilities whose probe answered yes, given the answers to the probes
/// of `for_each_cap`, in the same order.
pub fn caps_of_answers(answers: &Vec<bool>) -> (r: Vec<Capability>)
    requires
        answers@.len() == CAP_COUNT,
    ensures
        forall|c: Capability| r@.contains(c) <==> answers@[c.spec_index() as int],
        r@.no_duplicates(),
{
    let caps = crate::capability::all();
    let mut r: Vec<Capability> = Vec::new();
    let mut i: usize = 0;
    while i < caps.len()
        invariant
            caps@ == all_caps(),
            caps@.len() == CAP_COUNT,
            forall|j: int| 0 <= j < caps@.len() ==> caps@[j].spec_index() == j,
            answers@.len() == CAP_COUNT,
            i <= caps@.len(),
            forall|c: Capability| r@.contains(c) <==> (c.spec_index() < i && answers@[c.spec_index() as int]),
            forall|j: int| 0 <= j < r@.len() ==> r@[j].spec_index() < i,
            r@.no_duplicates(),
        decreases caps@.len() - i,
    {
        let c = caps[i];
        assert(c.spec_index() == i);
        if answers[i] {
            proof {
                assert(!r@.contains(c));
                assert forall|d: Capability| r@.push(c).contains(d)
                    <==> (d.spec_index() < i + 1 && answers@[d.spec_index() as int]) by {
                    crate::capability::lemma_index_injective(c, d);
                    if r@.push(c).contains(d) && d != c {
                        let j = choose|j: int| 0 <= j < r@.push(c).len() && r@.push(c)[j] == d;
                        assert(r@[j] == d);
                    }
                    if d == c {
                        assert(r@.push(c)[r@.len() as int] == c);
                    }
                    if r@.contains(d) {
                        let j = choose|j: int| 0 <= j < r@.len() && r@[j] == d;
                        assert(r@.push(c)[j] == d);
                    }
                }
            }
            r.push(c);
        } else {
            proof {
                assert forall|d: Capability| r@.contains(d)
                    <==> (d.spec_index() < i + 1 && answers@[d.spec_index() as int]) by {
                    crate::capability::lemma_index_injective(c, d);
                }
            }
        }
        i = i + 1;
    }
    proof {
        assert forall|c: Capability| r@.contains(c) <==> answers@[c.spec_index() as int] by {
            crate::capability::lemma_index_injective(c, c);
        }
    }
    r
}


/// The Ambient and Bounding sets of the current thread, as bitmasks.
#[derive(PartialEq, Eq, Structural, Debug, Clone, Copy)]
pub struct ThreadMasks {
    pub ambient: u64,
    pub bounding: u64,
}

/// The sets after the kernel carries out request `q` successfully, as prctl(2)
/// documents it; probes change nothing.
pub open spec fn after(s: ThreadMasks, q: Control) -> ThreadMasks {
    match q {
        Control::AmbientRaise(c) => ThreadMasks { ambient: s.ambient | c.spec_bitmask(), ..s },
        Control::AmbientLower(c) => ThreadMasks { ambient: s.ambient & !c.spec_bitmask(), ..s },
        Control::AmbientClearAll => ThreadMasks { ambient: 0, ..s },
        Control::BoundingDrop(c) => ThreadMasks { bounding: s.bounding & !c.spec_bitmask(), ..s },
        _ => s,
    }
}

/// The sets after the kernel carries out all of `reqs` successfully, in order.
pub open spec fn after_all(s: ThreadMasks, reqs: Seq<Control>) -> ThreadMasks
    decreases reqs.len(),
{
    if reqs.len() == 0 {
        s
    } else {
        after(after_all(s, reqs.drop_last()), reqs.last())
    }
}

/// The kernel's answer to probe `q` on the sets `s`.
pub open spec fn answer(s: ThreadMasks, q: Control) -> bool {
    match q {
        Control::AmbientIsSet(c) => has_bit(s.ambient, c.spec_index()),
        Control::BoundingRead(c) => has_bit(s.bounding, c.spec_index()),
        _ => false,
    }
}

/// Dropping a capability from the Bounding set takes exactly its bit away:
/// the probe that follows answers no.
pub proof fn lemma_bounding_drop_then_lacks(s: ThreadMasks, cap: Capability)
    ensures
        !answer(after_all(s, seq![Control::BoundingDrop(cap)]), Control::BoundingRead(cap)),
        after_all(s, seq![Control::BoundingDrop(cap)]).ambient == s.ambient,
{
    let p = seq![Control::BoundingDrop(cap)];
    assert(p.drop_last() =~= Seq::<Control>::empty());
    assert(after_all(s, p.drop_last()) == s);
    assert(after_all(s, p) == after(s, Control::BoundingDrop(cap)));
    crate::capability::lemma_index_injective(cap, cap);
    let i = cap.spec_index() as u64;
    lemma_and_not_bit(s.bounding, i, i);
}

/// Clearing the Ambient set a second time leaves it as the first time did:
/// empty.
pub proof fn lemma_ambient_clear_twice(s: ThreadMasks)
    ensures
        after_all(s, seq![Control::AmbientClearAll]).ambient == 0,
        after_all(after_all(s, seq![Control::AmbientClearAll]), seq![Control::AmbientClearAll])
            == after_all(s, seq![Control::AmbientClearAll]),
{
    let p = seq![Control::AmbientClearAll];
    assert(p.drop_last() =~= Seq::<Control>::empty());
    let once = after_all(s, p);
    assert(after_all(s, p.drop_last()) == s);
    assert(after_all(once, p.drop_last()) == once);
    assert(once == after(s, Control::AmbientClearAll));
    assert(after_all(once, p) == after(once, Control::AmbientClearAll));
}

/// Raising each capability of `value` after emptying the Ambient set leaves
/// it holding exactly the mask of `value`.
pub proof fn lemma_ambient_assign(s: ThreadMasks, value: Seq<Capability>)
    ensures
        after_all(
            s,
            seq![Control::AmbientClearAll] + value.map_values(|c: Capability| Control::AmbientRaise(c)),
        ).ambient == caps_mask(value),
    decreases value.len(),
{
    let reqs = seq![Control::AmbientClearAll] + value.map_values(|c: Capability| Control::AmbientRaise(c));
    if value.len() == 0 {
        assert(reqs =~= seq![Control::AmbientClearAll]);
        assert(reqs.drop_last() =~= Seq::<Control>::empty());
    } else {
        let t = value.drop_last();
        lemma_ambient_assign(s, t);
        assert(reqs.drop_last() =~= seq![Control::AmbientClearAll] + t.map_values(
            |c: Capability| Control::AmbientRaise(c),
        ));
        assert(reqs.last() == Control::AmbientRaise(value.last()));
    }
}

/// Dropping each capability of `caps` from the Bounding set takes away exactly
/// their bits.
pub proof fn lemma_bounding_drops(s: ThreadMasks, caps: Seq<Capability>)
    ensures
        after_all(s, caps.map_values(|c: Capability| Control::BoundingDrop(c))).bounding
            == s.bounding & !caps_mask(caps),
        after_all(s, caps.map_values(|c: Capability| Control::BoundingDrop(c))).ambient
            == s.ambient,
    decreases caps.len(),
{
    let reqs = caps.map_values(|c: Capability| Control::BoundingDrop(c));
    if caps.len() == 0 {
        assert(reqs =~= Seq::<Control>::empty());
        let b = s.bounding;
        assert(b & !0u64 == b) by (bit_vector);
    } else {
        let t = caps.drop_last();
        lemma_bounding_drops(s, t);
        assert(reqs.drop_last() =~= t.map_values(|c: Capability| Control::BoundingDrop(c)));
        assert(reqs.last() == Control::BoundingDrop(caps.last()));
        let b = s.bounding;
        let m = caps_mask(t);
        let x = caps.last().spec_bitmask();
        assert((b & !m) & !x == b & !(m | x)) by (bit_vector);
    }
}

/// Emptying the Bounding set, once or twice, leaves no known capability in
/// it; the second time changes nothing more.
pub proof fn lemma_bounding_clear_twice(s: ThreadMasks, cap: Capability)
    ensures
        !answer(after_all(s, for_each_cap(|c: Capability| Control::BoundingDrop(c))), Control::BoundingRead(cap)),
        after_all(
            after_all(s, for_each_cap(|c: Capability| Control::BoundingDrop(c))),
            for_each_cap(|c: Capability| Control::BoundingDrop(c)),
        ) == after_all(s, for_each_cap(|c: Capability| Control::BoundingDrop(c))),
{
    let caps = all_caps();
    let once = after_all(s, for_each_cap(|c: Capability| Control::BoundingDrop(c)));
    lemma_bounding_drops(s, caps);
    lemma_bounding_drops(once, caps);
    let i = cap.spec_index();
    crate::capability::lemma_index_injective(cap, cap);
    crate::capability::lemma_cap_at(cap);
    assert(caps[i as int] == cap);
    lemma_caps_mask_bits(caps, i);
    let b = s.bounding;
    let m = caps_mask(caps);
    let k = i as u64;
    assert(k < 64 && m & (1u64 << k) != 0 ==> (b & !m) & (1u64 << k) == 0) by (bit_vector);
    assert((b & !m) & !m == b & !m) by (bit_vector);
}

} // verus!
