use vstd::prelude::*;

use crate::file_pos::FilePos;

verus! {

/// The text still to be parsed, and where it starts in the whole text.
#[derive(Debug, Clone, Copy)]
pub struct ParserInput<'a> {
    pub text: &'a str,
    pub pos: FilePos,
}

impl<'a> ParserInput<'a> {
    /// The whole of `to_parse`, starting at line 1, column 0.
    pub fn new(to_parse: &'a str) -> (r: ParserInput<'a>)
        ensures
            r.text == to_parse,
            r.pos == (FilePos { line: 1, column: 0 }),
    {
        ParserInput { text: to_parse, pos: FilePos { line: 1, column: 0 } }
    }
}

/// A successful parse: the value, the position just after the consumed text,
/// and the text left unconsumed.
#[derive(Debug, Clone, PartialEq, Eq)]
pub struct PRes<'a, T> {
    pub val: T,
    pub pos: FilePos,
    pub remainder: &'a str,
}

/// A failed parse: only where it failed.
#[derive(Debug, Clone, PartialEq, Eq)]
pub struct PErr {
    pub pos: FilePos,
}

/// The outcome of running a parser.
pub type POut<'a, T> = Result<PRes<'a, T>, PErr>;

/// The failure `e`, as an outcome of any value type.
pub open spec fn failed<'a, T>(e: PErr) -> POut<'a, T> {
    Err(e)
}

/// The failure at `pos`, as an outcome of any value type.
pub open spec fn fail_at<'a, T>(pos: FilePos) -> POut<'a, T> {
    Err(PErr { pos })
}

/// The success that ends where `r` ends, holding `val` instead.
pub open spec fn with_val<'a, T, U>(r: PRes<'a, T>, val: U) -> POut<'a, U> {
    Ok(PRes { val, pos: r.pos, remainder: r.remainder })
}

/// The position an outcome reports, whether it succeeded or failed.
pub open spec fn out_pos<'a, T>(pout: POut<'a, T>) -> FilePos {
    match pout {
        Ok(p_succ) => p_succ.pos,
        Err(p_err) => p_err.pos,
    }
}

pub fn get_p_out_pos<'a, T>(pout: &POut<'a, T>) -> (r: FilePos)
    ensures
        r == out_pos(*pout),
{
    match pout {
        Ok(p_succ) => p_succ.pos,
        Err(p_err) => p_err.pos,
    }
}

impl<'a, T> PRes<'a, T> {
    /// The input that continues where this result stopped.
    pub open spec fn next_input(&self) -> ParserInput<'a> {
        ParserInput { text: self.remainder, pos: self.pos }
    }

    pub fn to_in(&self) -> (r: ParserInput<'a>)
        ensures
            r == self.next_input(),
    {
        ParserInput { pos: self.pos, text: self.remainder }
    }
}

/// A parser: from an input to an outcome.
///
/// `outcome(inp, out)` holds when `out` is a possible result of running the
/// parser on `inp`; `ready` holds when the parser may be run on any input.
pub trait Parser<'a> {
    type Val;

    spec fn ready(&self) -> bool;

    spec fn outcome(&self, inp: ParserInput<'a>, out: POut<'a, Self::Val>) -> bool;

    fn parse(&self, inp: &ParserInput<'a>) -> (out: POut<'a, Self::Val>)
        requires
            self.ready(),
        ensures
            self.outcome(*inp, out),
    ;
}

/// Any function from an input to an outcome is a parser.
impl<'a, T, F: Fn(&ParserInput<'a>) -> POut<'a, T>> Parser<'a> for F {
    type Val = T;

    open spec fn ready(&self) -> bool {
        forall|i: ParserInput<'a>| call_requires(*self, (&i,))
    }

    open spec fn outcome(&self, inp: ParserInput<'a>, out: POut<'a, T>) -> bool {
        call_ensures(*self, (&inp,), out)
    }

    fn parse(&self, inp: &ParserInput<'a>) -> (out: POut<'a, T>) {
        (self)(inp)
    }
}

/// Joins the outcome of a first parse and of the parse that followed it.
pub trait Combiner<'a, A, B> {
    type Out;

    spec fn ready(&self) -> bool;

    spec fn combines(&self, a: POut<'a, A>, b: POut<'a, B>, out: POut<'a, Self::Out>) -> bool;

    fn combine(&self, a: POut<'a, A>, b: POut<'a, B>) -> (out: POut<'a, Self::Out>)
        requires
            self.ready(),
        ensures
            self.combines(a, b, out),
    ;
}

/// Any function of two outcomes is a combiner.
impl<'a, A, B, C, F: Fn(POut<'a, A>, POut<'a, B>) -> POut<'a, C>> Combiner<'a, A, B> for F {
    type Out = C;

    open spec fn ready(&self) -> bool {
        forall|a: POut<'a, A>, b: POut<'a, B>| call_requires(*self, (a, b))
    }

    open spec fn combines(&self, a: POut<'a, A>, b: POut<'a, B>, out: POut<'a, C>) -> bool {
        call_ensures(*self, (a, b), out)
    }

    fn combine(&self, a: POut<'a, A>, b: POut<'a, B>) -> (out: POut<'a, C>) {
        (self)(a, b)
    }
}

} // verus!
