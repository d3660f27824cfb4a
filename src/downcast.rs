//! Moving a value through an exact type check, so that generic code can take
//! a special path when it was handed one particular failure type.
use vstd::prelude::*;

use crate::error::ErrorValue;

verus! {

/// Moves `val` into type `B` when its type is exactly `B`; otherwise hands
/// it back untouched.
pub fn downcast_into<A: ErrorValue, B: ErrorValue>(val: A) -> (r: Result<B, A>)
    ensures
        r is Ok <==> A::type_tag() == B::type_tag(),
        r matches Ok(b) ==> B::narrow(val.into_kind_spec()) == Some(b),
        r matches Ok(b) ==> b.into_kind_spec() == val.into_kind_spec(),
        r matches Err(a) ==> a == val,
{
    proof {
        A::lemma_round_trip(val);
        B::lemma_narrow(val.into_kind_spec());
    }
    let k = val.into_kind();
    match B::from_kind(k) {
        Ok(b) => Ok(b),
        Err(k) => match A::from_kind(k) {
            Ok(a) => Err(a),
            Err(_) => vstd::pervasive::unreached(),
        },
    }
}

/// Runs `body` on `val`, moved into type `B`, when the type of `val` is
/// exactly `B`, and gives back what `body` returned; otherwise `body` does
/// not run and `val` comes back untouched.
pub fn if_downcast_into<A: ErrorValue, B: ErrorValue, R, F: FnOnce(B) -> R>(
    val: A,
    body: F,
) -> (r: Result<R, A>)
    requires
        B::narrow(val.into_kind_spec()) matches Some(b) ==> call_requires(body, (b,)),
    ensures
        r is Ok <==> A::type_tag() == B::type_tag(),
        r matches Ok(out) ==> (B::narrow(val.into_kind_spec()) matches Some(b) && call_ensures(
            body,
            (b,),
            out,
        )),
        r matches Err(a) ==> a == val,
{
    match downcast_into::<A, B>(val) {
        Ok(b) => Ok(body(b)),
        Err(a) => Err(a),
    }
}

} // verus!
