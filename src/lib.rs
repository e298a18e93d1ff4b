//! Linux capabilities: the traditional POSIX sets (Effective, Inheritable,
//! Permitted) and the Linux-specific Ambient and Bounding sets.
//!
//! The library decides and computes; the caller talks to the kernel. Each
//! operation checks that it is legal on the set for the thread and answers
//! with a `Plan`: the kernel requests to issue. The kernel's answers are then
//! decoded, and POSIX sets edited, by the functions of `base` and `control`.
use vstd::prelude::*;

pub mod base;
pub mod capability;
pub mod capset;
pub mod control;
pub mod errors;

pub use capability::{all, Capability, CAP_COUNT};
pub use capset::CapSet;
pub use control::Control;
pub use errors::Error;

use control::{
    ambient_assign, ambient_probes, bounding_drops, bounding_probes, for_each_cap,
};

verus! {

/// The operations on a capability set.
#[derive(PartialEq, Eq, Structural, Debug, Clone, Copy)]
pub enum Op {
    Has,
    Read,
    Assign,
    Clear,
    Raise,
    Drop,
}

/// How an operation is carried out.
#[derive(Debug, Clone, PartialEq, Eq)]
pub enum Plan {
    /// Through capget/capset on thread `tid` (0 is the current thread): read the
    /// three POSIX sets (after probing the kernel's header version), answer or
    /// edit them with the function of the same name in `base`, and for a change
    /// write the result back.
    Posix(i32),
    /// Through prctl on the current thread: issue these requests in order,
    /// stopping at the first that fails.
    Control(Vec<Control>),
}

/// The thread an operation targets: 0, the current thread, where none is given.
pub open spec fn target(tid: Option<i32>) -> i32 {
    match tid {
        Some(t) => t,
        None => 0,
    }
}

/// Which operations are legal on which set for which thread. The POSIX sets
/// take every operation on any thread; Ambient and Bounding only on the
/// current thread, and Bounding can never be raised or assigned.
pub open spec fn supported(op: Op, cset: CapSet, t: i32) -> bool {
    match cset {
        CapSet::Ambient => t == 0,
        CapSet::Bounding => t == 0 && !(op is Assign || op is Raise),
        _ => true,
    }
}

/// Whether `r` is the unsupported-operation error.
pub open spec fn is_unsupported<T>(r: Result<T, Error>) -> bool {
    r matches Err(e) && e == Error::Unsupported
}

/// Whether `r` is a plan of control requests that are exactly `reqs`.
pub open spec fn controls(r: Result<Plan, Error>, reqs: Seq<Control>) -> bool {
    r matches Ok(Plan::Control(v)) && v@ == reqs
}

/// Whether `r` is the plan that goes through capget/capset on thread `t`.
pub open spec fn posix(r: Result<Plan, Error>, t: i32) -> bool {
    r matches Ok(Plan::Posix(u)) && u == t
}

fn thread(tid: Option<i32>) -> (t: i32)
    ensures
        t == target(tid),
{
    match tid {
        Some(t) => t,
        None => 0,
    }
}

fn one(q: Control) -> (r: Vec<Control>)
    ensures
        r@ == seq![q],
{
    let mut r: Vec<Control> = Vec::new();
    r.push(q);
    assert(r@ =~= seq![q]);
    r
}

/// Checks whether thread `tid` holds capability `cap` in set `cset`.
pub fn has_cap(tid: Option<i32>, cset: CapSet, cap: Capability) -> (r: Result<Plan, Error>)
    ensures
        !supported(Op::Has, cset, target(tid)) <==> is_unsupported(r),
        cset.is_posix() ==> posix(r, target(tid)),
        cset is Ambient && target(tid) == 0 ==> controls(r, seq![Control::AmbientIsSet(cap)]),
        cset is Bounding && target(tid) == 0 ==> controls(r, seq![Control::BoundingRead(cap)]),
{
    let t = thread(tid);
    match cset {
        CapSet::Ambient if t == 0 => Ok(Plan::Control(one(Control::AmbientIsSet(cap)))),
        CapSet::Bounding if t == 0 => Ok(Plan::Control(one(Control::BoundingRead(cap)))),
        CapSet::Effective | CapSet::Inheritable | CapSet::Permitted => Ok(Plan::Posix(t)),
        _ => Err(Error::Unsupported),
    }
}

/// Reads the whole set `cset` of thread `tid`. Ambient and Bounding have no
/// bulk query: each known capability is probed in turn.
pub fn read(tid: Option<i32>, cset: CapSet) -> (r: Result<Plan, Error>)
    ensures
        !supported(Op::Read, cset, target(tid)) <==> is_unsupported(r),
        cset.is_posix() ==> posix(r, target(tid)),
        cset is Ambient && target(tid) == 0 ==> controls(
            r,
            for_each_cap(|c: Capability| Control::AmbientIsSet(c)),
        ),
        cset is Bounding && target(tid) == 0 ==> controls(
            r,
            for_each_cap(|c: Capability| Control::BoundingRead(c)),
        ),
{
    let t = thread(tid);
    match cset {
        CapSet::Ambient if t == 0 => Ok(Plan::Control(ambient_probes())),
        CapSet::Bounding if t == 0 => Ok(Plan::Control(bounding_probes())),
        CapSet::Effective | CapSet::Inheritable | CapSet::Permitted => Ok(Plan::Posix(t)),
        _ => Err(Error::Unsupported),
    }
}

/// Makes set `cset` of thread `tid` hold all and only the capabilities of
/// `value`. The Ambient set is emptied and then raised one capability at a
/// time, which is not atomic; the Bounding set cannot be assigned.
pub fn set(tid: Option<i32>, cset: CapSet, value: &Vec<Capability>) -> (r: Result<Plan, Error>)
    ensures
        !supported(Op::Assign, cset, target(tid)) <==> is_unsupported(r),
        cset.is_posix() ==> posix(r, target(tid)),
        cset is Ambient && target(tid) == 0 ==> controls(
            r,
            seq![Control::AmbientClearAll] + value@.map_values(|c: Capability| Control::AmbientRaise(c)),
        ),
{
    let t = thread(tid);
    match cset {
        CapSet::Ambient if t == 0 => Ok(Plan::Control(ambient_assign(value))),
        CapSet::Effective | CapSet::Inheritable | CapSet::Permitted => Ok(Plan::Posix(t)),
        _ => Err(Error::Unsupported),
    }
}

/// Empties set `cset` of thread `tid`. The Bounding set is emptied by dropping
/// each known capability in turn, which is not atomic.
pub fn clear(tid: Option<i32>, cset: CapSet) -> (r: Result<Plan, Error>)
    ensures
        !supported(Op::Clear, cset, target(tid)) <==> is_unsupported(r),
        cset.is_posix() ==> posix(r, target(tid)),
        cset is Ambient && target(tid) == 0 ==> controls(r, seq![Control::AmbientClearAll]),
        cset is Bounding && target(tid) == 0 ==> controls(
            r,
            for_each_cap(|c: Capability| Control::BoundingDrop(c)),
        ),
{
    let t = thread(tid);
    match cset {
        CapSet::Ambient if t == 0 => Ok(Plan::Control(one(Control::AmbientClearAll))),
        CapSet::Bounding if t == 0 => Ok(Plan::Control(bounding_drops())),
        CapSet::Effective | CapSet::Permitted | CapSet::Inheritable => Ok(Plan::Posix(t)),
        _ => Err(Error::Unsupported),
    }
}

/// Adds capability `cap` to set `cset` of thread `tid`. The Bounding set
/// cannot be raised.
pub fn raise(tid: Option<i32>, cset: CapSet, cap: Capability) -> (r: Result<Plan, Error>)
    ensures
        !supported(Op::Raise, cset, target(tid)) <==> is_unsupported(r),
        cset.is_posix() ==> posix(r, target(tid)),
        cset is Ambient && target(tid) == 0 ==> controls(r, seq![Control::AmbientRaise(cap)]),
{
    let t = thread(tid);
    match cset {
        CapSet::Ambient if t == 0 => Ok(Plan::Control(one(Control::AmbientRaise(cap)))),
        CapSet::Effective | CapSet::Permitted | CapSet::Inheritable => Ok(Plan::Posix(t)),
        _ => Err(Error::Unsupported),
    }
}

/// Takes capability `cap` out of set `cset` of thread `tid`.
pub fn drop(tid: Option<i32>, cset: CapSet, cap: Capability) -> (r: Result<Plan, Error>)
    ensures
        !supported(Op::Drop, cset, target(tid)) <==> is_unsupported(r),
        cset.is_posix() ==> posix(r, target(tid)),
        cset is Ambient && target(tid) == 0 ==> controls(r, seq![Control::AmbientLower(cap)]),
        cset is Bounding && target(tid) == 0 ==> controls(r, seq![Control::BoundingDrop(cap)]),
{
    let t = thread(tid);
    match cset {
        CapSet::Ambient if t == 0 => Ok(Plan::Control(one(Control::AmbientLower(cap)))),
        CapSet::Bounding if t == 0 => Ok(Plan::Control(one(Control::BoundingDrop(cap)))),
        CapSet::Effective | CapSet::Permitted | CapSet::Inheritable => Ok(Plan::Posix(t)),
        _ => Err(Error::Unsupported),
    }
}

/// The Bounding set can never be raised nor assigned, on any thread.
pub proof fn lemma_bounding_never_grows(t: i32)
    ensures
        !supported(Op::Raise, CapSet::Bounding, t),
        !supported(Op::Assign, CapSet::Bounding, t),
{
}

/// No operation on the Ambient or Bounding set can target a thread other than
/// the current one.
pub proof fn lemma_other_thread_unsupported(op: Op, cset: CapSet, t: i32)
    requires
        cset is Ambient || cset is Bounding,
        t != 0,
    ensures
        !supported(op, cset, t),
{
}

/// A capability dropped from the Bounding set is dropped by exactly one
/// request, and no operation can bring it back afterwards.
pub proof fn lemma_bounding_drop_is_final(cap: Capability, t: i32)
    ensures
        supported(Op::Drop, CapSet::Bounding, 0),
        !supported(Op::Raise, CapSet::Bounding, t),
        !supported(Op::Assign, CapSet::Bounding, t),
{
}

} // verus!
