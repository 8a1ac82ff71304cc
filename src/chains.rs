use vstd::prelude::*;
use vstd::string::StrSliceExecFns;

use crate::parser::{fail_at, failed, Combiner, PErr, POut, PRes, Parser, ParserInput};

verus! {

/// The input that the `k`-th parser of a chain runs on: the chain's input,
/// then what each success left.
pub open spec fn chain_input<'a, T>(inp: ParserInput<'a>, outs: Seq<PRes<'a, T>>, k: int) -> ParserInput<'a> {
    if k == 0 {
        inp
    } else {
        outs[k - 1].next_input()
    }
}

/// The first `outs.len()` parsers of `ps` succeeded, in order, with `outs`,
/// each on what the one before it left.
pub open spec fn chain_prefix<'a, P: Parser<'a>>(
    ps: Seq<P>,
    inp: ParserInput<'a>,
    outs: Seq<PRes<'a, P::Val>>,
) -> bool {
    &&& outs.len() <= ps.len()
    &&& forall|k: int|
        0 <= k < outs.len() ==> #[trigger] ps[k].outcome(
            chain_input(inp, outs, k),
            Ok::<PRes<'a, P::Val>, PErr>(outs[k]),
        )
}

/// Runs every parser of `ps` in order, each on what the one before left, and
/// fails at the first failure; on success, the value is the one of the parser
/// at `index`, the position and remainder those of the last one.
#[derive(Clone)]
pub struct ChainSelect<P> {
    pub ps: Vec<P>,
    pub index: usize,
}

pub fn chain_select<'a, P: Parser<'a>>(ps: Vec<P>, index: usize) -> (r: ChainSelect<P>)
    ensures
        r.ps == ps,
        r.index == index,
{
    ChainSelect { ps, index }
}

impl<'a, P: Parser<'a>> Parser<'a> for ChainSelect<P> {
    type Val = P::Val;

    open spec fn ready(&self) -> bool {
        forall|k: int| 0 <= k < self.ps@.len() ==> #[trigger] self.ps@[k].ready()
    }

    /// With no parsers, or an `index` past the last one, the chain fails at
    /// its start once every parser has succeeded.
    open spec fn outcome(&self, inp: ParserInput<'a>, out: POut<'a, P::Val>) -> bool {
        exists|outs: Seq<PRes<'a, P::Val>>|
            #[trigger] chain_prefix(self.ps@, inp, outs) && if outs.len() < self.ps@.len() {
                exists|e: PErr|
                    #[trigger] self.ps@[outs.len() as int].outcome(
                        chain_input(inp, outs, outs.len() as int),
                        Err::<PRes<'a, P::Val>, PErr>(e),
                    ) && out == failed::<P::Val>(e)
            } else if self.index < self.ps@.len() {
                out == Ok::<PRes<'a, P::Val>, PErr>(
                    PRes {
                        val: outs[self.index as int].val,
                        pos: outs.last().pos,
                        remainder: outs.last().remainder,
                    },
                )
            } else {
                out == fail_at::<P::Val>(inp.pos)
            }
    }

    fn parse(&self, inp: &ParserInput<'a>) -> (out: POut<'a, P::Val>) {
        let n = self.ps.len();
        let mut selected: Option<P::Val> = None;
        let mut cur = *inp;
        let ghost mut outs: Seq<PRes<'a, P::Val>> = Seq::empty();
        let mut i: usize = 0;
        while i < n
            invariant
                n == self.ps@.len(),
                i <= n,
                self.ready(),
                outs.len() == i,
                chain_prefix(self.ps@, *inp, outs),
                cur == chain_input(*inp, outs, i as int),
                i > self.index ==> selected == Some(outs[self.index as int].val),
                i <= self.index ==> selected is None,
            decreases n - i,
        {
            let r = self.ps[i].parse(&cur);
            match r {
                Err(e) => {
                    assert(self.ps@[outs.len() as int].outcome(
                        chain_input(*inp, outs, outs.len() as int),
                        Err::<PRes<'a, P::Val>, PErr>(e),
                    ));
                    return Err(e);
                },
                Ok(pr) => {
                    let ghost prev = outs;
                    proof {
                        outs = outs.push(pr);
                        assert forall|k: int| 0 <= k < outs.len() implies #[trigger] self.ps@[k].outcome(
                            chain_input(*inp, outs, k),
                            Ok::<PRes<'a, P::Val>, PErr>(outs[k]),
                        ) by {
                            if k < prev.len() {
                                assert(chain_input(*inp, outs, k) == chain_input(*inp, prev, k));
                                assert(outs[k] == prev[k]);
                            }
                        }
                    }
                    let nxt = pr.to_in();
                    if i == self.index {
                        selected = Some(pr.val);
                    }
                    cur = nxt;
                },
            }
            i = i + 1;
        }
        match selected {
            Some(v) => Ok(PRes { val: v, pos: cur.pos, remainder: cur.text }),
            None => Err(PErr { pos: inp.pos }),
        }
    }
}

/// Ordered choice over a list: the first parser of `ps` that succeeds on
/// the input gives the outcome; when all fail, the failure of the last one
/// tried; with no parsers at all, a failure at the start.
#[derive(Clone)]
pub struct OrChain<P> {
    pub ps: Vec<P>,
}

pub fn or_chain<'a, P: Parser<'a>>(ps: Vec<P>) -> (r: OrChain<P>)
    ensures
        r.ps == ps,
{
    OrChain { ps }
}

impl<'a, P: Parser<'a>> Parser<'a> for OrChain<P> {
    type Val = P::Val;

    open spec fn ready(&self) -> bool {
        forall|k: int| 0 <= k < self.ps@.len() ==> #[trigger] self.ps@[k].ready()
    }

    open spec fn outcome(&self, inp: ParserInput<'a>, out: POut<'a, P::Val>) -> bool {
        exists|errs: Seq<PErr>|
            #![trigger errs.len()]
            errs.len() <= self.ps@.len() && (forall|k: int|
                0 <= k < errs.len() ==> #[trigger] self.ps@[k].outcome(
                    inp,
                    Err::<PRes<'a, P::Val>, PErr>(errs[k]),
                )) && if errs.len() == 0 && self.ps@.len() == 0 {
                out == fail_at::<P::Val>(inp.pos)
            } else if errs.len() == self.ps@.len() {
                out == failed::<P::Val>(errs.last())
            } else {
                out is Ok && self.ps@[errs.len() as int].outcome(inp, out)
            }
    }

    fn parse(&self, inp: &ParserInput<'a>) -> (out: POut<'a, P::Val>) {
        let n = self.ps.len();
        let ghost mut errs: Seq<PErr> = Seq::empty();
        let mut last = PErr { pos: inp.pos };
        let mut i: usize = 0;
        while i < n
            invariant
                n == self.ps@.len(),
                i <= n,
                self.ready(),
                errs.len() == i,
                i == 0 ==> last == (PErr { pos: inp.pos }),
                i > 0 ==> last == errs.last(),
                forall|k: int|
                    0 <= k < errs.len() ==> #[trigger] self.ps@[k].outcome(
                        *inp,
                        Err::<PRes<'a, P::Val>, PErr>(errs[k]),
                    ),
            decreases n - i,
        {
            let res = self.ps[i].parse(inp);
            match res {
                Ok(_) => {
                    return res;
                },
                Err(e) => {
                    proof {
                        errs = errs.push(e);
                    }
                    last = e;
                },
            }
            i = i + 1;
        }
        Err(last)
    }
}

/// One try of a split point: `a` on the first `j` characters of `inp`, and,
/// where it consumed all of them, `b` on the rest, from where `a` ended.
/// `hit` holds the two successes, or nothing when the try did not succeed.
pub open spec fn split_try<'a, PA: Parser<'a>, PB: Parser<'a>>(
    a: PA,
    b: PB,
    inp: ParserInput<'a>,
    j: int,
    hit: Option<(PRes<'a, PA::Val>, PRes<'a, PB::Val>)>,
) -> bool {
    exists|left: ParserInput<'a>, ra: POut<'a, PA::Val>|
        #![trigger a.outcome(left, ra)]
        left.text@ == inp.text@.take(j) && left.pos == inp.pos && a.outcome(left, ra) && match ra {
            Ok(pa) => if pa.remainder@.len() == 0 {
                exists|right: ParserInput<'a>, rb: POut<'a, PB::Val>|
                    #![trigger b.outcome(right, rb)]
                    right.text@ == inp.text@.skip(j) && right.pos == pa.pos && b.outcome(right, rb)
                        && match rb {
                        Ok(pb) => hit == Some((pa, pb)),
                        Err(_) => hit is None,
                    }
            } else {
                hit is None
            },
            Err(_) => hit is None,
        }
}

/// No split point before `k` gave a success.
pub open spec fn no_split_before<'a, PA: Parser<'a>, PB: Parser<'a>>(
    a: PA,
    b: PB,
    inp: ParserInput<'a>,
    k: int,
) -> bool {
    forall|j: int| 0 <= j < k ==> #[trigger] split_try(a, b, inp, j, None)
}

/// Right-anchored sequence: tries each split point of the input in turn,
/// from the start, and joins with `comb` the first where `a` consumes all
/// of the left part and `b` succeeds on the right part.
#[derive(Clone)]
pub struct ThenR<PA, PB, C> {
    pub a: PA,
    pub b: PB,
    pub comb: C,
}

pub fn thenr<'a, PA: Parser<'a>, PB: Parser<'a>, C: Combiner<'a, PA::Val, PB::Val>>(
    a: PA,
    b: PB,
    comb: C,
) -> (r: ThenR<PA, PB, C>)
    ensures
        r.a == a,
        r.b == b,
        r.comb == comb,
{
    ThenR { a, b, comb }
}

impl<'a, PA: Parser<'a>, PB: Parser<'a>, C: Combiner<'a, PA::Val, PB::Val>> Parser<'a> for ThenR<
    PA,
    PB,
    C,
> {
    type Val = C::Out;

    open spec fn ready(&self) -> bool {
        self.a.ready() && self.b.ready() && self.comb.ready()
    }

    /// Split points run over `0 .. len` of the input's characters; when no
    /// try succeeds, a failure at the start.
    open spec fn outcome(&self, inp: ParserInput<'a>, out: POut<'a, C::Out>) -> bool {
        exists|k: int|
            0 <= k <= inp.text@.len() && #[trigger] no_split_before(self.a, self.b, inp, k) && if k
                < inp.text@.len() {
                exists|pa: PRes<'a, PA::Val>, pb: PRes<'a, PB::Val>|
                    #[trigger] split_try(self.a, self.b, inp, k, Some((pa, pb)))
                        && self.comb.combines(
                        Ok::<PRes<'a, PA::Val>, PErr>(pa),
                        Ok::<PRes<'a, PB::Val>, PErr>(pb),
                        out,
                    )
            } else {
                out == fail_at::<C::Out>(inp.pos)
            }
    }

    fn parse(&self, inp: &ParserInput<'a>) -> (out: POut<'a, C::Out>) {
        let n = inp.text.unicode_len();
        let mut i: usize = 0;
        while i < n
            invariant
                n == inp.text@.len(),
                i <= n,
                self.ready(),
                forall|j: int| 0 <= j < i ==> #[trigger] split_try(self.a, self.b, *inp, j, None),
            decreases n - i,
        {
            let left = ParserInput { text: inp.text.substring_char(0, i), pos: inp.pos };
            let ra = self.a.parse(&left);
            match ra {
                Ok(pa) => {
                    if pa.remainder.is_empty() {
                        let right = ParserInput { text: inp.text.substring_char(i, n), pos: pa.pos };
                        let rb = self.b.parse(&right);
                        match rb {
                            Ok(pb) => {
                                assert(split_try(self.a, self.b, *inp, i as int, Some((pa, pb))));
                                assert(no_split_before(self.a, self.b, *inp, i as int));
                                return self.comb.combine(Ok(pa), Ok(pb));
                            },
                            Err(_) => {
                                assert(split_try(self.a, self.b, *inp, i as int, None));
                            },
                        }
                    } else {
                        assert(split_try(self.a, self.b, *inp, i as int, None));
                    }
                },
                Err(_) => {
                    assert(split_try(self.a, self.b, *inp, i as int, None));
                },
            }
            i = i + 1;
        }
        assert(no_split_before(self.a, self.b, *inp, n as int));
        Err(PErr { pos: inp.pos })
    }
}

} // verus!
