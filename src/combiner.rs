use vstd::prelude::*;

use crate::parser::{Combiner, PErr, POut, PRes};

verus! {

/// `out` is how `a` and then `b` combine: the first failure unchanged, or,
/// when both succeeded, a success at `b`'s position and remainder whose value
/// `ok` relates to the two values.
pub open spec fn joined<'a, A, B, C>(
    a: POut<'a, A>,
    b: POut<'a, B>,
    out: POut<'a, C>,
    ok: spec_fn(A, B, C) -> bool,
) -> bool {
    match a {
        Err(ea) => out == Err::<PRes<'a, C>, PErr>(ea),
        Ok(pa) => match b {
            Err(eb) => out == Err::<PRes<'a, C>, PErr>(eb),
            Ok(pb) => match out {
                Ok(po) => ok(pa.val, pb.val, po.val) && po.pos == pb.pos && po.remainder
                    == pb.remainder,
                Err(_) => false,
            },
        },
    }
}

/// Combines two outcomes with a function of their values.
pub fn gen_comb<'a, A, B, C, F: Fn(A, B) -> C>(a: POut<'a, A>, b: POut<'a, B>, comb: F) -> (r:
    POut<'a, C>)
    requires
        forall|x: A, y: B| call_requires(comb, (x, y)),
    ensures
        joined(a, b, r, |x: A, y: B, z: C| call_ensures(comb, (x, y), z)),
{
    match a {
        Ok(pa) => match b {
            Ok(pb) => Ok(PRes { val: comb(pa.val, pb.val), pos: pb.pos, remainder: pb.remainder }),
            Err(eb) => Err(eb),
        },
        Err(ea) => Err(ea),
    }
}

/// A combiner made from a function of the two values.
#[derive(Clone)]
pub struct SmComb<F> {
    pub comb: F,
}

/// The combiner that joins two outcomes with `comb` applied to their values.
pub fn smcomb<F>(comb: F) -> (r: SmComb<F>)
    ensures
        r.comb == comb,
{
    SmComb { comb }
}

impl<'a, A, B, C, F: Fn(A, B) -> C> Combiner<'a, A, B> for SmComb<F> {
    type Out = C;

    open spec fn ready(&self) -> bool {
        forall|x: A, y: B| call_requires(self.comb, (x, y))
    }

    open spec fn combines(&self, a: POut<'a, A>, b: POut<'a, B>, out: POut<'a, C>) -> bool {
        joined(a, b, out, |x: A, y: B, z: C| call_ensures(self.comb, (x, y), z))
    }

    fn combine(&self, a: POut<'a, A>, b: POut<'a, B>) -> (out: POut<'a, C>) {
        gen_comb(a, b, &self.comb)
    }
}

} // verus!
