//! What this crate assumes of `heapless::Vec`, the array-backed vector that
//! holds the companions and the random bits of a tick. Nothing here is proved:
//! each contract restates what the vector's source does.

use crate::game::Friend;
use vstd::prelude::*;

verus! {

#[verifier::external_type_specification]
#[verifier::external_body]
#[verifier::reject_recursive_types(T)]
pub struct ExFixedVec<T, const N: usize>(heapless::Vec<T, N>);

/// The companions that a vector holds, first pushed first.
pub uninterp spec fn friends_of(v: heapless::Vec<Friend, 3>) -> Seq<Friend>;

/// The bits that a vector holds, first pushed first.
pub uninterp spec fn bits_of(v: heapless::Vec<bool, 3>) -> Seq<bool>;

/// `heapless::Vec::new`: the vector starts out empty.
#[verifier::external_body]
pub(crate) fn friends_new() -> (v: heapless::Vec<Friend, 3>)
    ensures
        friends_of(v) == Seq::<Friend>::empty(),
{
    heapless::Vec::new()
}

/// `heapless::Vec::push`: while fewer than three items are held the item is
/// appended and `Ok` returned; a full vector stays as it is and hands the item
/// back in `Err`.
#[verifier::external_body]
pub(crate) fn friends_push(
    v: &mut heapless::Vec<Friend, 3>,
    friend: Friend,
) -> (pushed: Result<(), Friend>)
    ensures
        pushed is Ok <==> friends_of(*old(v)).len() < 3,
        pushed is Ok ==> friends_of(*final(v)) == friends_of(*old(v)).push(friend),
        pushed is Err ==> pushed->Err_0 == friend,
        pushed is Err ==> friends_of(*final(v)) == friends_of(*old(v)),
{
    v.push(friend)
}

/// `heapless::Vec::as_slice`: the slice holds exactly the vector's items, in
/// order.
#[verifier::external_body]
pub(crate) fn friends_slice(v: &heapless::Vec<Friend, 3>) -> (items: &[Friend])
    ensures
        items@ == friends_of(*v),
{
    v.as_slice()
}

/// `heapless::Vec::as_mut_slice`, written through at `index`: that item is
/// replaced and every other item, and the length, stay. With the index in
/// range the write cannot panic.
#[verifier::external_body]
pub(crate) fn friends_set(v: &mut heapless::Vec<Friend, 3>, index: usize, friend: Friend)
    requires
        index < friends_of(*old(v)).len(),
    ensures
        friends_of(*final(v)) == friends_of(*old(v)).update(index as int, friend),
    no_unwind
{
    v.as_mut_slice()[index] = friend;
}

/// `heapless::Vec::new`: the vector starts out empty.
#[verifier::external_body]
pub(crate) fn bits_new() -> (v: heapless::Vec<bool, 3>)
    ensures
        bits_of(v) == Seq::<bool>::empty(),
{
    heapless::Vec::new()
}

/// `heapless::Vec::push`: while fewer than three bits are held the bit is
/// appended and `Ok` returned; a full vector stays as it is and hands the bit
/// back in `Err`.
#[verifier::external_body]
pub(crate) fn bits_push(v: &mut heapless::Vec<bool, 3>, bit: bool) -> (pushed: Result<(), bool>)
    ensures
        pushed is Ok <==> bits_of(*old(v)).len() < 3,
        pushed is Ok ==> bits_of(*final(v)) == bits_of(*old(v)).push(bit),
        pushed is Err ==> pushed->Err_0 == bit,
        pushed is Err ==> bits_of(*final(v)) == bits_of(*old(v)),
{
    v.push(bit)
}

/// `heapless::Vec::as_slice`: the slice holds exactly the vector's bits, in
/// order.
#[verifier::external_body]
pub(crate) fn bits_slice(v: &heapless::Vec<bool, 3>) -> (items: &[bool])
    ensures
        items@ == bits_of(*v),
{
    v.as_slice()
}

} // verus!
