use vstd::prelude::*;
use vstd::string::{StrSliceExecFns, StringExecFns};

use crate::combiner::joined;
use crate::file_pos::advance;
use crate::parser::{failed, with_val, Combiner, PErr, POut, PRes, Parser, ParserInput};
use crate::parsers_core::{or, then, Or, Then};
use crate::primitives::{any_char, char_in_str, char_single, keyword, AnyChar, CharInStr, CharSingle, Keyword};
use crate::repetition::{one_or_none, OneOrNone};

verus! {

/// Joins two string values into one, first one first.
#[derive(Clone)]
pub struct Concat {}

impl<'a> Combiner<'a, String, String> for Concat {
    type Out = String;

    open spec fn ready(&self) -> bool {
        true
    }

    open spec fn combines(&self, a: POut<'a, String>, b: POut<'a, String>, out: POut<'a, String>) -> bool {
        joined(a, b, out, |x: String, y: String, z: String| z@ == x@ + y@)
    }

    fn combine(&self, a: POut<'a, String>, b: POut<'a, String>) -> (out: POut<'a, String>) {
        match a {
            Ok(pa) => match b {
                Ok(pb) => Ok(
                    PRes { val: pa.val.concat(pb.val.as_str()), pos: pb.pos, remainder: pb.remainder },
                ),
                Err(eb) => Err(eb),
            },
            Err(ea) => Err(ea),
        }
    }
}

/// A backslash and the character after it, both kept.
pub fn escaped_char() -> (r: Then<CharSingle, AnyChar, Concat>)
    ensures
        r == (Then { a: CharSingle { ch: '\\' }, b: AnyChar {  }, comb: Concat {  } }),
{
    then(char_single('\\'), any_char(), Concat {})
}

/// `k` is the index of the quote that closes the quoted text at the start
/// of `t`.
pub open spec fn closing_quote(t: Seq<char>, k: int) -> bool {
    &&& 0 < k < t.len()
    &&& t[0] == '"'
    &&& t[k] == '"'
    &&& forall|j: int| 0 < j < k ==> t[j] != '"'
}

/// A double-quoted text without escapes; the value is what stands between
/// the quotes.
#[derive(Clone)]
pub struct NormalString {}

pub fn normal_string() -> (r: NormalString) {
    NormalString {}
}

impl<'a> Parser<'a> for NormalString {
    type Val = String;

    open spec fn ready(&self) -> bool {
        true
    }

    open spec fn outcome(&self, inp: ParserInput<'a>, out: POut<'a, String>) -> bool {
        match out {
            Ok(r) => exists|k: int|
                #[trigger] closing_quote(inp.text@, k) && r.val@ == inp.text@.subrange(1, k)
                    && r.pos == advance(inp.pos, inp.text@.take(k + 1)) && r.remainder@
                    == inp.text@.skip(k + 1),
            Err(e) => e.pos == inp.pos && forall|k: int| !closing_quote(inp.text@, k),
        }
    }

    fn parse(&self, inp: &ParserInput<'a>) -> (out: POut<'a, String>) {
        let t = inp.text;
        let n = t.unicode_len();
        if n == 0 || t.get_char(0) != '"' {
            return Err(PErr { pos: inp.pos });
        }
        let mut pos = inp.pos.step('"');
        let mut i: usize = 1;
        assert(t@.take(1) =~= seq![t@[0]]);
        assert(t@.take(1).drop_last() =~= Seq::<char>::empty());
        assert(advance(inp.pos, t@.take(1).drop_last()) == inp.pos);
        assert(t@.take(1).last() == '"');
        while i < n
            invariant
                t == inp.text,
                n == t@.len(),
                1 <= i <= n,
                t@[0] == '"',
                forall|j: int| 0 < j < i ==> t@[j] != '"',
                pos == advance(inp.pos, t@.take(i as int)),
            decreases n - i,
        {
            let c = t.get_char(i);
            assert(t@.take(i + 1).drop_last() =~= t@.take(i as int));
            pos = pos.step(c);
            if c == '"' {
                assert(closing_quote(t@, i as int));
                let val = t.substring_char(1, i).to_owned();
                let rest = t.substring_char(i + 1, n);
                assert(rest@ =~= t@.skip(i + 1));
                return Ok(PRes { val, pos, remainder: rest });
            }
            i = i + 1;
        }
        assert forall|k: int| !closing_quote(inp.text@, k) by {
            if closing_quote(inp.text@, k) {
                assert(t@[k] == '"');
            }
        }
        Err(PErr { pos: inp.pos })
    }
}

/// One decimal digit.
pub fn digit() -> (r: CharInStr<'static>)
    ensures
        r.chars_list@ == "0123456789"@,
{
    char_in_str("0123456789")
}

/// A line break: `\r\n` or `\n`.
pub fn newline() -> (r: Or<Keyword<'static>, Keyword<'static>>)
    ensures
        r.a.word@ == "\r\n"@,
        r.b.word@ == "\n"@,
{
    or(keyword("\r\n"), keyword("\n"))
}

/// One piece of white space: a space, a tab or a line break.
pub fn air() -> (r: Or<CharInStr<'static>, Or<Keyword<'static>, Keyword<'static>>>)
    ensures
        r.a.chars_list@ == " \t"@,
        r.b.a.word@ == "\r\n"@,
        r.b.b.word@ == "\n"@,
{
    or(char_in_str(" \t"), newline())
}

pub fn comma() -> (r: CharSingle)
    ensures
        r.ch == ',',
{
    char_single(',')
}

pub fn dot() -> (r: CharSingle)
    ensures
        r.ch == '.',
{
    char_single('.')
}

/// Three values parsed one after the other, kept together.
#[derive(Debug, Clone, PartialEq, Eq)]
pub struct Infix<LeftT, ParentT, RightT> {
    pub p: ParentT,
    pub l: LeftT,
    pub r: RightT,
}

/// `out` is the outcome of running `l`, `p` and `r` one after the other,
/// each on what the one before left: the first failure, or the three
/// values together, ending where `r` ended.
pub open spec fn infix_outcome<'a, PL: Parser<'a>, PP: Parser<'a>, PR: Parser<'a>>(
    l: PL,
    p: PP,
    r: PR,
    inp: ParserInput<'a>,
    out: POut<'a, Infix<PL::Val, PP::Val, PR::Val>>,
) -> bool {
    exists|rl: POut<'a, PL::Val>|
        #[trigger] l.outcome(inp, rl) && match rl {
            Err(e) => out == failed::<Infix<PL::Val, PP::Val, PR::Val>>(e),
            Ok(ql) => exists|rp: POut<'a, PP::Val>|
                #[trigger] p.outcome(ql.next_input(), rp) && match rp {
                    Err(e) => out == failed::<Infix<PL::Val, PP::Val, PR::Val>>(e),
                    Ok(qp) => exists|rr: POut<'a, PR::Val>|
                        #[trigger] r.outcome(qp.next_input(), rr) && match rr {
                            Err(e) => out == failed::<Infix<PL::Val, PP::Val, PR::Val>>(e),
                            Ok(qr) => out == with_val(
                                qr,
                                Infix { l: ql.val, p: qp.val, r: qr.val },
                            ),
                        },
                },
        }
}

fn run_infix<'a, PL: Parser<'a>, PP: Parser<'a>, PR: Parser<'a>>(
    l: &PL,
    p: &PP,
    r: &PR,
    inp: &ParserInput<'a>,
) -> (out: POut<'a, Infix<PL::Val, PP::Val, PR::Val>>)
    requires
        l.ready(),
        p.ready(),
        r.ready(),
    ensures
        infix_outcome(*l, *p, *r, *inp, out),
{
    match l.parse(inp) {
        Err(e) => Err(e),
        Ok(ql) => match p.parse(&ql.to_in()) {
            Err(e) => Err(e),
            Ok(qp) => match r.parse(&qp.to_in()) {
                Err(e) => Err(e),
                Ok(qr) => Ok(
                    PRes {
                        val: Infix { l: ql.val, p: qp.val, r: qr.val },
                        pos: qr.pos,
                        remainder: qr.remainder,
                    },
                ),
            },
        },
    }
}

/// A left part, a parent and a right part, in sequence, kept as an `Infix`.
#[derive(Clone)]
pub struct Infixed<PL, PP, PR> {
    pub l: PL,
    pub p: PP,
    pub r: PR,
}

pub fn infix<'a, PL: Parser<'a>, PP: Parser<'a>, PR: Parser<'a>>(
    p_left: PL,
    p_parent: PP,
    p_right: PR,
) -> (r: Infixed<PL, PP, PR>)
    ensures
        r == (Infixed { l: p_left, p: p_parent, r: p_right }),
{
    Infixed { l: p_left, p: p_parent, r: p_right }
}

impl<'a, PL: Parser<'a>, PP: Parser<'a>, PR: Parser<'a>> Parser<'a> for Infixed<PL, PP, PR> {
    type Val = Infix<PL::Val, PP::Val, PR::Val>;

    open spec fn ready(&self) -> bool {
        self.l.ready() && self.p.ready() && self.r.ready()
    }

    open spec fn outcome(&self, inp: ParserInput<'a>, out: POut<'a, Infix<PL::Val, PP::Val, PR::Val>>) -> bool {
        infix_outcome(self.l, self.p, self.r, inp, out)
    }

    fn parse(&self, inp: &ParserInput<'a>) -> (out: POut<'a, Infix<PL::Val, PP::Val, PR::Val>>) {
        run_infix(&self.l, &self.p, &self.r, inp)
    }
}

/// A left part, a parent and a right part, in sequence; only the parent's
/// value is kept.
#[derive(Clone)]
pub struct Middle<PL, PP, PR> {
    pub l: PL,
    pub p: PP,
    pub r: PR,
}

pub fn infixp<'a, PL: Parser<'a>, PP: Parser<'a>, PR: Parser<'a>>(
    p_left: PL,
    p_parent: PP,
    p_right: PR,
) -> (r: Middle<PL, PP, PR>)
    ensures
        r == (Middle { l: p_left, p: p_parent, r: p_right }),
{
    Middle { l: p_left, p: p_parent, r: p_right }
}

impl<'a, PL: Parser<'a>, PP: Parser<'a>, PR: Parser<'a>> Parser<'a> for Middle<PL, PP, PR> {
    type Val = PP::Val;

    open spec fn ready(&self) -> bool {
        self.l.ready() && self.p.ready() && self.r.ready()
    }

    open spec fn outcome(&self, inp: ParserInput<'a>, out: POut<'a, PP::Val>) -> bool {
        exists|o3: POut<'a, Infix<PL::Val, PP::Val, PR::Val>>|
            #[trigger] infix_outcome(self.l, self.p, self.r, inp, o3) && match o3 {
                Err(e) => out == failed::<PP::Val>(e),
                Ok(q) => out == with_val(q, q.val.p),
            }
    }

    fn parse(&self, inp: &ParserInput<'a>) -> (out: POut<'a, PP::Val>) {
        match run_infix(&self.l, &self.p, &self.r, inp) {
            Err(e) => Err(e),
            Ok(q) => Ok(PRes { val: q.val.p, pos: q.pos, remainder: q.remainder }),
        }
    }
}

/// Zero or one match; the same as `one_or_none`.
pub fn maybe<'a, P: Parser<'a>>(p: P) -> (r: OneOrNone<P>)
    ensures
        r.p == p,
{
    one_or_none(p)
}

} // verus!
