//! The reference-count calls that handles owe to GObject.
//!
//! GObject keeps the count inside the instance. A handle never reads it: it
//! only says which call its owner has to make, and the laws below say what a
//! run of such calls adds up to for one instance.

use vstd::prelude::*;

verus! {

/// A call on the reference count of the instance at an address.
#[derive(Clone, Copy, Debug, PartialEq, Eq, Structural)]
pub enum RefCountCall {
    /// Take one more reference to the instance.
    Ref(usize),
    /// Give one reference to the instance back.
    Unref(usize),
}

/// What `call` adds to the reference count of the instance at `object`.
pub open spec fn effect(call: RefCountCall, object: usize) -> int {
    match call {
        RefCountCall::Ref(target) => if target == object {
            1
        } else {
            0
        },
        RefCountCall::Unref(target) => if target == object {
            -1
        } else {
            0
        },
    }
}

/// What `calls`, made in order, add to the reference count of the instance
/// at `object`.
pub open spec fn net_effect(calls: Seq<RefCountCall>, object: usize) -> int
    decreases calls.len(),
{
    if calls.len() == 0 {
        0
    } else {
        net_effect(calls.drop_last(), object) + effect(calls.last(), object)
    }
}

/// `clones` references taken on `object`, then `drops` given back.
pub open spec fn clones_then_drops(object: usize, clones: nat, drops: nat) -> Seq<RefCountCall> {
    Seq::new(clones, |i: int| RefCountCall::Ref(object)) + Seq::new(
        drops,
        |i: int| RefCountCall::Unref(object),
    )
}

/// The effect of two runs of calls is the sum of their effects.
pub proof fn lemma_net_effect_concat(
    first: Seq<RefCountCall>,
    second: Seq<RefCountCall>,
    object: usize,
)
    ensures
        net_effect(first + second, object) == net_effect(first, object) + net_effect(
            second,
            object,
        ),
    decreases second.len(),
{
    if second.len() == 0 {
        assert(first + second =~= first);
    } else {
        assert((first + second).drop_last() =~= first + second.drop_last());
        assert((first + second).last() == second.last());
        lemma_net_effect_concat(first, second.drop_last(), object);
    }
}

/// A run of `n` equal calls has `n` times the effect of one.
pub proof fn lemma_net_effect_repeat(call: RefCountCall, n: nat, object: usize)
    ensures
        net_effect(Seq::new(n, |i: int| call), object) == n * effect(call, object),
    decreases n,
{
    let calls = Seq::new(n, |i: int| call);
    if n > 0 {
        assert(calls.drop_last() =~= Seq::new((n - 1) as nat, |i: int| call));
        lemma_net_effect_repeat(call, (n - 1) as nat, object);
        assert(n * effect(call, object) == (n - 1) * effect(call, object) + effect(call, object))
            by (nonlinear_arith);
    }
}

/// Cloning a handle any number of times and then dropping the clones and the
/// handle itself gives back exactly the one reference that the handle was
/// made with: the count ends one below where it stood, and after fewer drops
/// it is still at or above where it stood.
pub proof fn lemma_clones_then_drops(object: usize, clones: nat, drops: nat)
    ensures
        net_effect(clones_then_drops(object, clones, drops), object) == clones - drops,
        drops == clones + 1 ==> net_effect(clones_then_drops(object, clones, drops), object)
            == -1,
        drops <= clones ==> net_effect(clones_then_drops(object, clones, drops), object) >= 0,
{
    let refs = Seq::new(clones, |i: int| RefCountCall::Ref(object));
    let unrefs = Seq::new(drops, |i: int| RefCountCall::Unref(object));
    lemma_net_effect_repeat(RefCountCall::Ref(object), clones, object);
    lemma_net_effect_repeat(RefCountCall::Unref(object), drops, object);
    lemma_net_effect_concat(refs, unrefs, object);
    assert(clones * 1 == clones) by (nonlinear_arith);
    assert(drops * (-1) == -drops) by (nonlinear_arith);
}

/// Calls on one instance leave the count of every other instance alone.
pub proof fn lemma_other_object_untouched(object: usize, clones: nat, drops: nat, other: usize)
    requires
        other != object,
    ensures
        net_effect(clones_then_drops(object, clones, drops), other) == 0,
{
    let refs = Seq::new(clones, |i: int| RefCountCall::Ref(object));
    let unrefs = Seq::new(drops, |i: int| RefCountCall::Unref(object));
    lemma_net_effect_repeat(RefCountCall::Ref(object), clones, other);
    lemma_net_effect_repeat(RefCountCall::Unref(object), drops, other);
    lemma_net_effect_concat(refs, unrefs, other);
    assert(clones * 0 == 0) by (nonlinear_arith);
    assert(drops * 0 == 0) by (nonlinear_arith);
}

} // verus!
