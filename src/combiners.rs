use vstd::prelude::*;

use crate::combiner::joined;
use crate::parser::{PErr, POut, PRes};

verus! {

/// Keeps the first value.
pub fn take_left<'a, A, B>(a: POut<'a, A>, b: POut<'a, B>) -> (r: POut<'a, A>)
    ensures
        joined(a, b, r, |x: A, y: B, z: A| z == x),
{
    match a {
        Ok(pa) => match b {
            Ok(pb) => Ok(PRes { val: pa.val, pos: pb.pos, remainder: pb.remainder }),
            Err(eb) => Err(eb),
        },
        Err(ea) => Err(ea),
    }
}

/// Keeps the second value.
pub fn take_right<'a, A, B>(a: POut<'a, A>, b: POut<'a, B>) -> (r: POut<'a, B>)
    ensures
        joined(a, b, r, |x: A, y: B, z: B| z == y),
{
    match a {
        Ok(_pa) => b,
        Err(ea) => Err(ea),
    }
}

/// Keeps both values, first one first.
pub fn left_right<'a, A, B>(a: POut<'a, A>, b: POut<'a, B>) -> (r: POut<'a, (A, B)>)
    ensures
        joined(a, b, r, |x: A, y: B, z: (A, B)| z == (x, y)),
{
    match a {
        Ok(pa) => match b {
            Ok(pb) => Ok(PRes { val: (pa.val, pb.val), pos: pb.pos, remainder: pb.remainder }),
            Err(eb) => Err(eb),
        },
        Err(ea) => Err(ea),
    }
}

/// Keeps both values, second one first.
pub fn right_left<'a, A, B>(a: POut<'a, A>, b: POut<'a, B>) -> (r: POut<'a, (B, A)>)
    ensures
        joined(a, b, r, |x: A, y: B, z: (B, A)| z == (y, x)),
{
    match a {
        Ok(pa) => match b {
            Ok(pb) => Ok(PRes { val: (pb.val, pa.val), pos: pb.pos, remainder: pb.remainder }),
            Err(eb) => Err(eb),
        },
        Err(ea) => Err(ea),
    }
}

} // verus!
