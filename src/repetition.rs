use vstd::prelude::*;
use vstd::string::{StrSliceExecFns, StringExecFns};

use crate::combiner::joined;
use crate::parser::{fail_at, failed, with_val, Combiner, PErr, POut, PRes, Parser, ParserInput};
use crate::parsers_core::{then, Then};
use crate::primitives::{any_char, AnyChar};

verus! {

/// Zero or one match: a success of `p` gives its value as present; a failure
/// gives an absent value, consuming nothing.
#[derive(Clone)]
pub struct OneOrNone<P> {
    pub p: P,
}

pub fn one_or_none<'a, P: Parser<'a>>(p: P) -> (r: OneOrNone<P>)
    ensures
        r.p == p,
{
    OneOrNone { p }
}

impl<'a, P: Parser<'a>> Parser<'a> for OneOrNone<P> {
    type Val = Option<P::Val>;

    open spec fn ready(&self) -> bool {
        self.p.ready()
    }

    open spec fn outcome(&self, inp: ParserInput<'a>, out: POut<'a, Option<P::Val>>) -> bool {
        exists|ra: POut<'a, P::Val>|
            #[trigger] self.p.outcome(inp, ra) && match ra {
                Ok(pa) => out == with_val(pa, Some(pa.val)),
                Err(_) => out == Ok::<PRes<'a, Option<P::Val>>, PErr>(
                    PRes { val: None, pos: inp.pos, remainder: inp.text },
                ),
            }
    }

    fn parse(&self, inp: &ParserInput<'a>) -> (out: POut<'a, Option<P::Val>>) {
        match self.p.parse(inp) {
            Ok(pa) => Ok(PRes { val: Some(pa.val), pos: pa.pos, remainder: pa.remainder }),
            Err(_) => Ok(PRes { val: None, pos: inp.pos, remainder: inp.text }),
        }
    }
}

/// `cur` is reached from `inp` by successive successes of `p`, each of which
/// consumed text, whose values are `vals`.
pub open spec fn repeats<'a, P: Parser<'a>>(
    p: P,
    inp: ParserInput<'a>,
    vals: Seq<P::Val>,
    cur: ParserInput<'a>,
) -> bool
    decreases vals.len(),
{
    if vals.len() == 0 {
        cur == inp
    } else {
        exists|mid: ParserInput<'a>, r: PRes<'a, P::Val>|
            #[trigger] p.outcome(mid, Ok::<PRes<'a, P::Val>, PErr>(r)) && repeats(
                p,
                inp,
                vals.drop_last(),
                mid,
            ) && r.val == vals.last() && r.remainder@.len() < mid.text@.len() && cur
                == r.next_input()
    }
}

/// The repetition ends at `cur`: there `p` fails, or succeeds without
/// consuming any text.
pub open spec fn stops<'a, P: Parser<'a>>(p: P, cur: ParserInput<'a>) -> bool {
    exists|r: POut<'a, P::Val>|
        #[trigger] p.outcome(cur, r) && match r {
            Err(_) => true,
            Ok(pr) => pr.remainder@.len() >= cur.text@.len(),
        }
}

/// `out` is the outcome of matching `p` as many times as it goes: a success
/// holding the values in order, ending where the last match ended.
pub open spec fn many_outcome<'a, P: Parser<'a>>(
    p: P,
    inp: ParserInput<'a>,
    out: POut<'a, Vec<P::Val>>,
) -> bool {
    match out {
        Ok(po) => exists|cur: ParserInput<'a>|
            #[trigger] repeats(p, inp, po.val@, cur) && stops(p, cur) && po.pos == cur.pos
                && po.remainder == cur.text,
        Err(_) => false,
    }
}

/// Matches `p` again and again, each time on what the last match left,
/// until it fails or stops consuming text. A loop, so the stack stays flat
/// however many matches there are.
fn repeat_parse<'a, P: Parser<'a>>(p: &P, inp: &ParserInput<'a>) -> (out: POut<'a, Vec<P::Val>>)
    requires
        p.ready(),
    ensures
        many_outcome(*p, *inp, out),
{
    let mut vals: Vec<P::Val> = Vec::new();
    let mut cur = *inp;
    let mut len = cur.text.unicode_len();
    loop
        invariant
            p.ready(),
            len == cur.text@.len(),
            repeats(*p, *inp, vals@, cur),
        decreases len,
    {
        let r = p.parse(&cur);
        match r {
            Ok(pr) => {
                let rest_len = pr.remainder.unicode_len();
                if rest_len < len {
                    let nxt = pr.to_in();
                    let ghost v = pr.val;
                    proof {
                        assert(vals@.push(v).drop_last() =~= vals@);
                        assert(repeats(*p, *inp, vals@.push(v), nxt));
                    }
                    vals.push(pr.val);
                    cur = nxt;
                    len = rest_len;
                } else {
                    assert(stops(*p, cur));
                    let out = Ok(PRes { val: vals, pos: cur.pos, remainder: cur.text });
                    assert(repeats(*p, *inp, out->Ok_0.val@, cur));
                    return out;
                }
            },
            Err(_) => {
                assert(stops(*p, cur));
                let out = Ok(PRes { val: vals, pos: cur.pos, remainder: cur.text });
                assert(repeats(*p, *inp, out->Ok_0.val@, cur));
                return out;
            },
        }
    }
}

/// Zero or more matches, greedily; never fails.
#[derive(Clone)]
pub struct NoneOrMany<P> {
    pub p: P,
}

pub fn none_or_many<'a, P: Parser<'a>>(p: P) -> (r: NoneOrMany<P>)
    ensures
        r.p == p,
{
    NoneOrMany { p }
}

impl<'a, P: Parser<'a>> Parser<'a> for NoneOrMany<P> {
    type Val = Vec<P::Val>;

    open spec fn ready(&self) -> bool {
        self.p.ready()
    }

    open spec fn outcome(&self, inp: ParserInput<'a>, out: POut<'a, Vec<P::Val>>) -> bool {
        many_outcome(self.p, inp, out)
    }

    fn parse(&self, inp: &ParserInput<'a>) -> (out: POut<'a, Vec<P::Val>>) {
        repeat_parse(&self.p, inp)
    }
}

/// One or more matches: as `none_or_many`, but no match at all is a failure
/// at the start.
#[derive(Clone)]
pub struct OneOrMany<P> {
    pub p: P,
}

pub fn one_or_many<'a, P: Parser<'a>>(p: P) -> (r: OneOrMany<P>)
    ensures
        r.p == p,
{
    OneOrMany { p }
}

impl<'a, P: Parser<'a>> Parser<'a> for OneOrMany<P> {
    type Val = Vec<P::Val>;

    open spec fn ready(&self) -> bool {
        self.p.ready()
    }

    open spec fn outcome(&self, inp: ParserInput<'a>, out: POut<'a, Vec<P::Val>>) -> bool {
        exists|rm: POut<'a, Vec<P::Val>>|
            #[trigger] many_outcome(self.p, inp, rm) && match rm {
                Ok(pm) => out == if pm.val@.len() > 0 {
                    rm
                } else {
                    fail_at::<Vec<P::Val>>(inp.pos)
                },
                Err(e) => out == failed::<Vec<P::Val>>(e),
            }
    }

    fn parse(&self, inp: &ParserInput<'a>) -> (out: POut<'a, Vec<P::Val>>) {
        let rm = repeat_parse(&self.p, inp);
        match rm {
            Ok(pm) => {
                if pm.val.len() > 0 {
                    Ok(pm)
                } else {
                    Err(PErr { pos: inp.pos })
                }
            },
            Err(e) => Err(e),
        }
    }
}

/// Zero or more matches of `pa`, then `pb`, joined by `comb`.
pub fn none_or_many_until<'a, PA: Parser<'a>, PB: Parser<'a>, C: Combiner<'a, Vec<PA::Val>, PB::Val>>(
    pa: PA,
    pb: PB,
    comb: C,
) -> (r: Then<NoneOrMany<PA>, PB, C>)
    ensures
        r == (Then { a: NoneOrMany { p: pa }, b: pb, comb }),
{
    then(none_or_many(pa), pb, comb)
}

/// One or more matches of `pa`, then `pb`, joined by `comb`.
pub fn one_or_many_until<'a, PA: Parser<'a>, PB: Parser<'a>, C: Combiner<'a, Vec<PA::Val>, PB::Val>>(
    pa: PA,
    pb: PB,
    comb: C,
) -> (r: Then<OneOrMany<PA>, PB, C>)
    ensures
        r == (Then { a: OneOrMany { p: pa }, b: pb, comb }),
{
    then(one_or_many(pa), pb, comb)
}

/// The characters of all of `parts`, in order.
pub open spec fn concat_all(parts: Seq<String>) -> Seq<char>
    decreases parts.len(),
{
    if parts.len() == 0 {
        Seq::empty()
    } else {
        concat_all(parts.drop_last()) + parts.last()@
    }
}

fn join_strings(parts: &Vec<String>) -> (r: String)
    ensures
        r@ == concat_all(parts@),
{
    let mut acc = String::new();
    let mut i: usize = 0;
    while i < parts.len()
        invariant
            i <= parts@.len(),
            acc@ == concat_all(parts@.take(i as int)),
        decreases parts@.len() - i,
    {
        assert(parts@.take(i + 1).drop_last() =~= parts@.take(i as int));
        acc = acc.concat(parts[i].as_str());
        i = i + 1;
    }
    assert(parts@.take(parts@.len() as int) =~= parts@);
    acc
}

/// Joins a list of strings with a second value: the strings concatenated,
/// paired with the value.
pub fn tuple_left_char_vec_to_str<'a, B>(a: POut<'a, Vec<String>>, b: POut<'a, B>) -> (r: POut<
    'a,
    (String, B),
>)
    ensures
        joined(a, b, r, |x: Vec<String>, y: B, z: (String, B)| z.0@ == concat_all(x@) && z.1 == y),
{
    match a {
        Ok(pa) => match b {
            Ok(pb) => Ok(
                PRes { val: (join_strings(&pa.val), pb.val), pos: pb.pos, remainder: pb.remainder },
            ),
            Err(eb) => Err(eb),
        },
        Err(ea) => Err(ea),
    }
}

/// The combiner that `tuple_left_char_vec_to_str` is.
#[derive(Clone)]
pub struct JoinLeft {}

impl<'a, B> Combiner<'a, Vec<String>, B> for JoinLeft {
    type Out = (String, B);

    open spec fn ready(&self) -> bool {
        true
    }

    open spec fn combines(&self, a: POut<'a, Vec<String>>, b: POut<'a, B>, out: POut<'a, (String, B)>) -> bool {
        joined(a, b, out, |x: Vec<String>, y: B, z: (String, B)| z.0@ == concat_all(x@) && z.1 == y)
    }

    fn combine(&self, a: POut<'a, Vec<String>>, b: POut<'a, B>) -> (out: POut<'a, (String, B)>) {
        tuple_left_char_vec_to_str(a, b)
    }
}

/// Any characters, as many as there are, then `p`: the characters read, as
/// one string, with `p`'s value.
pub fn consume_chars_until<'a, P: Parser<'a>>(p: P) -> (r: Then<NoneOrMany<AnyChar>, P, JoinLeft>)
    ensures
        r == (Then { a: NoneOrMany { p: AnyChar {  } }, b: p, comb: JoinLeft {  } }),
{
    none_or_many_until(any_char(), p, JoinLeft {})
}

} // verus!
