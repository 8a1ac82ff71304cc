use vstd::prelude::*;

use crate::defs::{Either2, Or3};
use crate::parser::{fail_at, failed, with_val, Combiner, PErr, POut, PRes, Parser, ParserInput};

verus! {

/// `out` is an outcome of running `a` and then, on what `a` left, `b`,
/// joined by `comb`; a failure of `a` is returned as it is.
pub open spec fn then_outcome<'a, PA: Parser<'a>, PB: Parser<'a>, C: Combiner<'a, PA::Val, PB::Val>>(
    a: PA,
    b: PB,
    comb: C,
    inp: ParserInput<'a>,
    out: POut<'a, C::Out>,
) -> bool {
    exists|ra: POut<'a, PA::Val>|
        #[trigger] a.outcome(inp, ra) && match ra {
            Err(e) => out == failed::<C::Out>(e),
            Ok(pa) => exists|rb: POut<'a, PB::Val>|
                #[trigger] b.outcome(pa.next_input(), rb) && comb.combines(
                    Ok::<PRes<'a, PA::Val>, PErr>(pa),
                    rb,
                    out,
                ),
        }
}

/// Sequence: `a`, then `b` on what `a` left, joined by `comb`.
#[derive(Clone)]
pub struct Then<PA, PB, C> {
    pub a: PA,
    pub b: PB,
    pub comb: C,
}

pub fn then<'a, PA: Parser<'a>, PB: Parser<'a>, C: Combiner<'a, PA::Val, PB::Val>>(
    a: PA,
    b: PB,
    comb: C,
) -> (r: Then<PA, PB, C>)
    ensures
        r.a == a,
        r.b == b,
        r.comb == comb,
{
    Then { a, b, comb }
}

impl<'a, PA: Parser<'a>, PB: Parser<'a>, C: Combiner<'a, PA::Val, PB::Val>> Parser<'a> for Then<
    PA,
    PB,
    C,
> {
    type Val = C::Out;

    open spec fn ready(&self) -> bool {
        self.a.ready() && self.b.ready() && self.comb.ready()
    }

    open spec fn outcome(&self, inp: ParserInput<'a>, out: POut<'a, C::Out>) -> bool {
        then_outcome(self.a, self.b, self.comb, inp, out)
    }

    fn parse(&self, inp: &ParserInput<'a>) -> (out: POut<'a, C::Out>) {
        let ra = self.a.parse(inp);
        match ra {
            Err(e) => Err(e),
            Ok(pa) => {
                let rb = self.b.parse(&pa.to_in());
                self.comb.combine(Ok(pa), rb)
            },
        }
    }
}

/// Hands a success to `f`, which gives the outcome; failures pass unchanged.
#[derive(Clone)]
pub struct ModOut<P, F> {
    pub p: P,
    pub f: F,
}

pub fn mod_out<'a, O, P: Parser<'a>, F: Fn(PRes<'a, P::Val>) -> POut<'a, O>>(p: P, f: F) -> (r:
    ModOut<P, F>)
    ensures
        r.p == p,
        r.f == f,
{
    ModOut { p, f }
}

impl<'a, O, P: Parser<'a>, F: Fn(PRes<'a, P::Val>) -> POut<'a, O>> Parser<'a> for ModOut<P, F> {
    type Val = O;

    open spec fn ready(&self) -> bool {
        self.p.ready() && forall|r: PRes<'a, P::Val>| call_requires(self.f, (r,))
    }

    open spec fn outcome(&self, inp: ParserInput<'a>, out: POut<'a, O>) -> bool {
        exists|ra: POut<'a, P::Val>|
            #[trigger] self.p.outcome(inp, ra) && match ra {
                Err(e) => out == failed::<O>(e),
                Ok(pa) => call_ensures(self.f, (pa,), out),
            }
    }

    fn parse(&self, inp: &ParserInput<'a>) -> (out: POut<'a, O>) {
        match self.p.parse(inp) {
            Err(e) => Err(e),
            Ok(pa) => (self.f)(pa),
        }
    }
}

/// Replaces a success with the one `f` makes of it; failures pass unchanged.
#[derive(Clone)]
pub struct ModDat<P, F> {
    pub p: P,
    pub f: F,
}

pub fn mod_dat<'a, O, P: Parser<'a>, F: Fn(PRes<'a, P::Val>) -> PRes<'a, O>>(p: P, f: F) -> (r:
    ModDat<P, F>)
    ensures
        r.p == p,
        r.f == f,
{
    ModDat { p, f }
}

impl<'a, O, P: Parser<'a>, F: Fn(PRes<'a, P::Val>) -> PRes<'a, O>> Parser<'a> for ModDat<P, F> {
    type Val = O;

    open spec fn ready(&self) -> bool {
        self.p.ready() && forall|r: PRes<'a, P::Val>| call_requires(self.f, (r,))
    }

    open spec fn outcome(&self, inp: ParserInput<'a>, out: POut<'a, O>) -> bool {
        exists|ra: POut<'a, P::Val>|
            #[trigger] self.p.outcome(inp, ra) && match ra {
                Err(e) => out == failed::<O>(e),
                Ok(pa) => match out {
                    Ok(po) => call_ensures(self.f, (pa,), po),
                    Err(_) => false,
                },
            }
    }

    fn parse(&self, inp: &ParserInput<'a>) -> (out: POut<'a, O>) {
        match self.p.parse(inp) {
            Err(e) => Err(e),
            Ok(pa) => Ok((self.f)(pa)),
        }
    }
}

/// Applies `f` to the value of a success; position, remainder and failures
/// are kept.
#[derive(Clone)]
pub struct ModVal<P, F> {
    pub p: P,
    pub f: F,
}

pub fn mod_val<'a, O, P: Parser<'a>, F: Fn(P::Val) -> O>(p: P, f: F) -> (r: ModVal<P, F>)
    ensures
        r.p == p,
        r.f == f,
{
    ModVal { p, f }
}

impl<'a, O, P: Parser<'a>, F: Fn(P::Val) -> O> Parser<'a> for ModVal<P, F> {
    type Val = O;

    open spec fn ready(&self) -> bool {
        self.p.ready() && forall|v: P::Val| call_requires(self.f, (v,))
    }

    open spec fn outcome(&self, inp: ParserInput<'a>, out: POut<'a, O>) -> bool {
        exists|ra: POut<'a, P::Val>|
            #[trigger] self.p.outcome(inp, ra) && match ra {
                Err(e) => out == failed::<O>(e),
                Ok(pa) => match out {
                    Ok(po) => call_ensures(self.f, (pa.val,), po.val) && po.pos == pa.pos
                        && po.remainder == pa.remainder,
                    Err(_) => false,
                },
            }
    }

    fn parse(&self, inp: &ParserInput<'a>) -> (out: POut<'a, O>) {
        match self.p.parse(inp) {
            Err(e) => Err(e),
            Ok(pa) => Ok(PRes { val: (self.f)(pa.val), pos: pa.pos, remainder: pa.remainder }),
        }
    }
}

/// Replaces the value of a success with a fresh one from `v`.
#[derive(Clone)]
pub struct ReplaceVal<P, F> {
    pub p: P,
    pub v: F,
}

pub fn replace_val<'a, O, P: Parser<'a>, F: Fn() -> O>(p: P, v: F) -> (r: ReplaceVal<P, F>)
    ensures
        r.p == p,
        r.v == v,
{
    ReplaceVal { p, v }
}

impl<'a, O, P: Parser<'a>, F: Fn() -> O> Parser<'a> for ReplaceVal<P, F> {
    type Val = O;

    open spec fn ready(&self) -> bool {
        self.p.ready() && call_requires(self.v, ())
    }

    open spec fn outcome(&self, inp: ParserInput<'a>, out: POut<'a, O>) -> bool {
        exists|ra: POut<'a, P::Val>|
            #[trigger] self.p.outcome(inp, ra) && match ra {
                Err(e) => out == failed::<O>(e),
                Ok(pa) => match out {
                    Ok(po) => call_ensures(self.v, (), po.val) && po.pos == pa.pos && po.remainder
                        == pa.remainder,
                    Err(_) => false,
                },
            }
    }

    fn parse(&self, inp: &ParserInput<'a>) -> (out: POut<'a, O>) {
        match self.p.parse(inp) {
            Err(e) => Err(e),
            Ok(pa) => Ok(PRes { val: (self.v)(), pos: pa.pos, remainder: pa.remainder }),
        }
    }
}

/// A parser built only when it is run, by calling `p_fn`: what lets a
/// grammar refer to itself.
#[derive(Clone)]
pub struct Defer<G> {
    pub p_fn: G,
}

pub fn defer<'a, R: Parser<'a>, G: Fn() -> R>(p_fn: G) -> (r: Defer<G>)
    ensures
        r.p_fn == p_fn,
{
    Defer { p_fn }
}

impl<'a, R: Parser<'a>, G: Fn() -> R> Parser<'a> for Defer<G> {
    type Val = R::Val;

    open spec fn ready(&self) -> bool {
        call_requires(self.p_fn, ()) && forall|p: R| call_ensures(self.p_fn, (), p) ==> p.ready()
    }

    open spec fn outcome(&self, inp: ParserInput<'a>, out: POut<'a, R::Val>) -> bool {
        exists|p: R| call_ensures(self.p_fn, (), p) && #[trigger] p.outcome(inp, out)
    }

    fn parse(&self, inp: &ParserInput<'a>) -> (out: POut<'a, R::Val>) {
        let p = (self.p_fn)();
        p.parse(inp)
    }
}

/// Keeps a success only when `f` approves of it; a refused success becomes a
/// failure at the position where the attempt started.
#[derive(Clone)]
pub struct SucceedIf<P, F> {
    pub p: P,
    pub f: F,
}

pub fn succeed_if<'a, P: Parser<'a>, F: Fn(&PRes<'a, P::Val>) -> bool>(p: P, f: F) -> (r:
    SucceedIf<P, F>)
    ensures
        r.p == p,
        r.f == f,
{
    SucceedIf { p, f }
}

impl<'a, P: Parser<'a>, F: Fn(&PRes<'a, P::Val>) -> bool> Parser<'a> for SucceedIf<P, F> {
    type Val = P::Val;

    open spec fn ready(&self) -> bool {
        self.p.ready() && forall|r: PRes<'a, P::Val>| call_requires(self.f, (&r,))
    }

    open spec fn outcome(&self, inp: ParserInput<'a>, out: POut<'a, P::Val>) -> bool {
        exists|ra: POut<'a, P::Val>|
            #[trigger] self.p.outcome(inp, ra) && match ra {
                Err(e) => out == failed::<P::Val>(e),
                Ok(pa) => exists|keep: bool|
                    call_ensures(self.f, (&pa,), keep) && out == if keep {
                        ra
                    } else {
                        fail_at::<P::Val>(inp.pos)
                    },
            }
    }

    fn parse(&self, inp: &ParserInput<'a>) -> (out: POut<'a, P::Val>) {
        match self.p.parse(inp) {
            Err(e) => Err(e),
            Ok(pa) => {
                if (self.f)(&pa) {
                    Ok(pa)
                } else {
                    Err(PErr { pos: inp.pos })
                }
            },
        }
    }
}

/// Turns a success into a failure, at the position where the attempt
/// started, when `f` holds of it.
#[derive(Clone)]
pub struct FailIf<P, F> {
    pub p: P,
    pub f: F,
}

pub fn fail_if<'a, P: Parser<'a>, F: Fn(&PRes<'a, P::Val>) -> bool>(p: P, f: F) -> (r: FailIf<P, F>)
    ensures
        r.p == p,
        r.f == f,
{
    FailIf { p, f }
}

impl<'a, P: Parser<'a>, F: Fn(&PRes<'a, P::Val>) -> bool> Parser<'a> for FailIf<P, F> {
    type Val = P::Val;

    open spec fn ready(&self) -> bool {
        self.p.ready() && forall|r: PRes<'a, P::Val>| call_requires(self.f, (&r,))
    }

    open spec fn outcome(&self, inp: ParserInput<'a>, out: POut<'a, P::Val>) -> bool {
        exists|ra: POut<'a, P::Val>|
            #[trigger] self.p.outcome(inp, ra) && match ra {
                Err(e) => out == failed::<P::Val>(e),
                Ok(pa) => exists|reject: bool|
                    call_ensures(self.f, (&pa,), reject) && out == if reject {
                        fail_at::<P::Val>(inp.pos)
                    } else {
                        ra
                    },
            }
    }

    fn parse(&self, inp: &ParserInput<'a>) -> (out: POut<'a, P::Val>) {
        match self.p.parse(inp) {
            Err(e) => Err(e),
            Ok(pa) => {
                if (self.f)(&pa) {
                    Err(PErr { pos: inp.pos })
                } else {
                    Ok(pa)
                }
            },
        }
    }
}

/// Keeps a success only when it consumed the whole text.
#[derive(Clone)]
pub struct All<P> {
    pub p: P,
}

pub fn all<'a, P: Parser<'a>>(p: P) -> (r: All<P>)
    ensures
        r.p == p,
{
    All { p }
}

impl<'a, P: Parser<'a>> Parser<'a> for All<P> {
    type Val = P::Val;

    open spec fn ready(&self) -> bool {
        self.p.ready()
    }

    open spec fn outcome(&self, inp: ParserInput<'a>, out: POut<'a, P::Val>) -> bool {
        exists|ra: POut<'a, P::Val>|
            #[trigger] self.p.outcome(inp, ra) && match ra {
                Err(e) => out == failed::<P::Val>(e),
                Ok(pa) => out == if pa.remainder@.len() == 0 {
                    ra
                } else {
                    fail_at::<P::Val>(inp.pos)
                },
            }
    }

    fn parse(&self, inp: &ParserInput<'a>) -> (out: POut<'a, P::Val>) {
        match self.p.parse(inp) {
            Err(e) => Err(e),
            Ok(pa) => {
                if pa.remainder.is_empty() {
                    Ok(pa)
                } else {
                    Err(PErr { pos: inp.pos })
                }
            },
        }
    }
}

/// Succeeds where it stands, consuming nothing, with a value from
/// `default_fn`.
#[derive(Clone)]
pub struct Always<F> {
    pub default_fn: F,
}

pub fn always<T, F: Fn() -> T>(default_fn: F) -> (r: Always<F>)
    ensures
        r.default_fn == default_fn,
{
    Always { default_fn }
}

/// `out` is a success at `inp`'s position and text whose value `default_fn`
/// may return.
pub open spec fn stays_with<'a, T, F: Fn() -> T>(default_fn: F, inp: ParserInput<'a>, out: POut<'a, T>) -> bool {
    match out {
        Ok(po) => call_ensures(default_fn, (), po.val) && po.pos == inp.pos && po.remainder
            == inp.text,
        Err(_) => false,
    }
}

impl<'a, T, F: Fn() -> T> Parser<'a> for Always<F> {
    type Val = T;

    open spec fn ready(&self) -> bool {
        call_requires(self.default_fn, ())
    }

    open spec fn outcome(&self, inp: ParserInput<'a>, out: POut<'a, T>) -> bool {
        stays_with(self.default_fn, inp, out)
    }

    fn parse(&self, inp: &ParserInput<'a>) -> (out: POut<'a, T>) {
        Ok(PRes { val: (self.default_fn)(), pos: inp.pos, remainder: inp.text })
    }
}

/// Negative lookahead: succeeds, consuming nothing, exactly when `p` fails,
/// and fails where it stands exactly when `p` succeeds.
#[derive(Clone)]
pub struct Not<P, F> {
    pub p: P,
    pub default_fn: F,
}

pub fn not<'a, P: Parser<'a>, F: Fn() -> P::Val>(p: P, default_fn: F) -> (r: Not<P, F>)
    ensures
        r.p == p,
        r.default_fn == default_fn,
{
    Not { p, default_fn }
}

impl<'a, P: Parser<'a>, F: Fn() -> P::Val> Parser<'a> for Not<P, F> {
    type Val = P::Val;

    open spec fn ready(&self) -> bool {
        self.p.ready() && call_requires(self.default_fn, ())
    }

    open spec fn outcome(&self, inp: ParserInput<'a>, out: POut<'a, P::Val>) -> bool {
        exists|ra: POut<'a, P::Val>|
            #[trigger] self.p.outcome(inp, ra) && match ra {
                Ok(_) => out == fail_at::<P::Val>(inp.pos),
                Err(_) => stays_with(self.default_fn, inp, out),
            }
    }

    fn parse(&self, inp: &ParserInput<'a>) -> (out: POut<'a, P::Val>) {
        match self.p.parse(inp) {
            Ok(_) => Err(PErr { pos: inp.pos }),
            Err(_) => Ok(PRes { val: (self.default_fn)(), pos: inp.pos, remainder: inp.text }),
        }
    }
}

/// `out` is an outcome of trying `a`, and then `b` on the same input when `a`
/// failed.
pub open spec fn or_outcome<'a, PA: Parser<'a>, PB: Parser<'a, Val = PA::Val>>(
    a: PA,
    b: PB,
    inp: ParserInput<'a>,
    out: POut<'a, PA::Val>,
) -> bool {
    exists|ra: POut<'a, PA::Val>|
        #[trigger] a.outcome(inp, ra) && if ra is Ok {
            out == ra
        } else {
            b.outcome(inp, out)
        }
}

/// Ordered choice between two parsers of the same value type.
#[derive(Clone)]
pub struct Or<PA, PB> {
    pub a: PA,
    pub b: PB,
}

pub fn or<'a, PA: Parser<'a>, PB: Parser<'a, Val = PA::Val>>(a: PA, b: PB) -> (r: Or<PA, PB>)
    ensures
        r.a == a,
        r.b == b,
{
    Or { a, b }
}

impl<'a, PA: Parser<'a>, PB: Parser<'a, Val = PA::Val>> Parser<'a> for Or<PA, PB> {
    type Val = PA::Val;

    open spec fn ready(&self) -> bool {
        self.a.ready() && self.b.ready()
    }

    open spec fn outcome(&self, inp: ParserInput<'a>, out: POut<'a, PA::Val>) -> bool {
        or_outcome(self.a, self.b, inp, out)
    }

    fn parse(&self, inp: &ParserInput<'a>) -> (out: POut<'a, PA::Val>) {
        let ra = self.a.parse(inp);
        if ra.is_ok() {
            ra
        } else {
            self.b.parse(inp)
        }
    }
}

/// Ordered choice between two parsers of different value types; the value
/// says which one matched.
#[derive(Clone)]
pub struct OrDiff<PA, PB> {
    pub a: PA,
    pub b: PB,
}

pub fn or_diff<'a, PA: Parser<'a>, PB: Parser<'a>>(a: PA, b: PB) -> (r: OrDiff<PA, PB>)
    ensures
        r.a == a,
        r.b == b,
{
    OrDiff { a, b }
}

impl<'a, PA: Parser<'a>, PB: Parser<'a>> Parser<'a> for OrDiff<PA, PB> {
    type Val = Either2<PA::Val, PB::Val>;

    open spec fn ready(&self) -> bool {
        self.a.ready() && self.b.ready()
    }

    open spec fn outcome(&self, inp: ParserInput<'a>, out: POut<'a, Either2<PA::Val, PB::Val>>) -> bool {
        exists|ra: POut<'a, PA::Val>|
            #[trigger] self.a.outcome(inp, ra) && match ra {
                Ok(pa) => out == with_val(pa, Either2::<PA::Val, PB::Val>::Left(pa.val)),
                Err(_) => exists|rb: POut<'a, PB::Val>|
                    #[trigger] self.b.outcome(inp, rb) && match rb {
                        Ok(pb) => out == with_val(pb, Either2::<PA::Val, PB::Val>::Right(pb.val)),
                        Err(e) => out == failed::<Either2<PA::Val, PB::Val>>(e),
                    },
            }
    }

    fn parse(&self, inp: &ParserInput<'a>) -> (out: POut<'a, Either2<PA::Val, PB::Val>>) {
        match self.a.parse(inp) {
            Ok(pa) => Ok(PRes { val: Either2::Left(pa.val), pos: pa.pos, remainder: pa.remainder }),
            Err(_) => match self.b.parse(inp) {
                Ok(pb) => Ok(
                    PRes { val: Either2::Right(pb.val), pos: pb.pos, remainder: pb.remainder },
                ),
                Err(e) => Err(e),
            },
        }
    }
}

/// Tries `a` followed by `b`, joined by `comb`; then `a` alone; then `b`
/// alone. The value says which of the three matched.
#[derive(Clone)]
pub struct EitherOr<PA, PB, C> {
    pub a: PA,
    pub b: PB,
    pub comb: C,
}

pub fn either_or<'a, PA: Parser<'a>, PB: Parser<'a>, C: Combiner<'a, PA::Val, PB::Val>>(
    a: PA,
    b: PB,
    comb: C,
) -> (r: EitherOr<PA, PB, C>)
    ensures
        r.a == a,
        r.b == b,
        r.comb == comb,
{
    EitherOr { a, b, comb }
}

impl<'a, PA: Parser<'a>, PB: Parser<'a>, C: Combiner<'a, PA::Val, PB::Val>> Parser<'a> for EitherOr<
    PA,
    PB,
    C,
> {
    type Val = Or3<C::Out, PA::Val, PB::Val>;

    open spec fn ready(&self) -> bool {
        self.a.ready() && self.b.ready() && self.comb.ready()
    }

    open spec fn outcome(&self, inp: ParserInput<'a>, out: POut<'a, Or3<C::Out, PA::Val, PB::Val>>) -> bool {
        exists|rc: POut<'a, C::Out>|
            #[trigger] then_outcome(self.a, self.b, self.comb, inp, rc) && match rc {
                Ok(pc) => out == with_val(pc, Or3::<C::Out, PA::Val, PB::Val>::A(pc.val)),
                Err(_) => exists|ra: POut<'a, PA::Val>|
                    #[trigger] self.a.outcome(inp, ra) && match ra {
                        Ok(pa) => out == with_val(pa, Or3::<C::Out, PA::Val, PB::Val>::B(pa.val)),
                        Err(_) => exists|rb: POut<'a, PB::Val>|
                            #[trigger] self.b.outcome(inp, rb) && match rb {
                                Ok(pb) => out == with_val(
                                    pb,
                                    Or3::<C::Out, PA::Val, PB::Val>::C(pb.val),
                                ),
                                Err(e) => out == failed::<Or3<C::Out, PA::Val, PB::Val>>(e),
                            },
                    },
            }
    }

    fn parse(&self, inp: &ParserInput<'a>) -> (out: POut<'a, Or3<C::Out, PA::Val, PB::Val>>) {
        let rc = match self.a.parse(inp) {
            Err(e) => Err(e),
            Ok(pa) => {
                let rb = self.b.parse(&pa.to_in());
                self.comb.combine(Ok(pa), rb)
            },
        };
        assert(then_outcome(self.a, self.b, self.comb, *inp, rc));
        match rc {
            Ok(pc) => Ok(PRes { val: Or3::A(pc.val), pos: pc.pos, remainder: pc.remainder }),
            Err(_) => match self.a.parse(inp) {
                Ok(pa) => Ok(PRes { val: Or3::B(pa.val), pos: pa.pos, remainder: pa.remainder }),
                Err(_) => match self.b.parse(inp) {
                    Ok(pb) => Ok(PRes { val: Or3::C(pb.val), pos: pb.pos, remainder: pb.remainder }),
                    Err(e) => Err(e),
                },
            },
        }
    }
}

/// Zero-width lookahead: runs `p` for its value, but ends where it started.
#[derive(Clone)]
pub struct NoConsume<P> {
    pub p: P,
}

pub fn no_consume<'a, P: Parser<'a>>(p: P) -> (r: NoConsume<P>)
    ensures
        r.p == p,
{
    NoConsume { p }
}

impl<'a, P: Parser<'a>> Parser<'a> for NoConsume<P> {
    type Val = P::Val;

    open spec fn ready(&self) -> bool {
        self.p.ready()
    }

    open spec fn outcome(&self, inp: ParserInput<'a>, out: POut<'a, P::Val>) -> bool {
        exists|ra: POut<'a, P::Val>|
            #[trigger] self.p.outcome(inp, ra) && match ra {
                Err(e) => out == failed::<P::Val>(e),
                Ok(pa) => out == Ok::<PRes<'a, P::Val>, PErr>(
                    PRes { val: pa.val, pos: inp.pos, remainder: inp.text },
                ),
            }
    }

    fn parse(&self, inp: &ParserInput<'a>) -> (out: POut<'a, P::Val>) {
        match self.p.parse(inp) {
            Err(e) => Err(e),
            Ok(pa) => Ok(PRes { val: pa.val, pos: inp.pos, remainder: inp.text }),
        }
    }
}

} // verus!
