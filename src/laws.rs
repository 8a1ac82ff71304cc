use vstd::prelude::*;

use crate::file_pos::{advance, lemma_advance_flat, FilePos};
use crate::parser::{Combiner, PErr, POut, PRes, Parser, ParserInput};
use crate::parsers_core::{then_outcome, Defer, NoConsume, Then};
use crate::primitives::{char_outcome, AnyChar, CharInStr, CharSingle, Keyword, ReadCharF};
use crate::repetition::{many_outcome, repeats, stops, OneOrMany};

verus! {

/// Parsing a keyword against exactly its own text succeeds with the keyword
/// as value and nothing left; when the keyword holds no line break, the line
/// stays and the column moves on by the keyword's length.
pub proof fn lemma_keyword_exact<'a, 'b>(k: Keyword<'b>, inp: ParserInput<'a>, out: POut<'a, String>)
    requires
        inp.text@ == k.word@,
        k.outcome(inp, out),
    ensures
        out is Ok,
        out->Ok_0.val@ == k.word@,
        out->Ok_0.remainder@.len() == 0,
        out->Ok_0.pos == advance(inp.pos, k.word@),
        !k.word@.contains('\n') && inp.pos.column + k.word@.len() <= usize::MAX ==> out->Ok_0.pos
            == (FilePos { line: inp.pos.line, column: (inp.pos.column + k.word@.len()) as usize }),
{
    assert(inp.text@.take(k.word@.len() as int) =~= k.word@);
    if !k.word@.contains('\n') && inp.pos.column + k.word@.len() <= usize::MAX {
        lemma_advance_flat(inp.pos, k.word@);
    }
}

/// `p` reads exactly one character, and succeeds exactly when `accept`
/// approves of it.
pub open spec fn reads_one<'a, P: Parser<'a, Val = String>>(p: P, accept: spec_fn(char) -> bool) -> bool {
    forall|i: ParserInput<'a>, o: POut<'a, String>|
        #[trigger] p.outcome(i, o) ==> char_outcome(i, o, i.text@.len() > 0 && accept(i.text@[0]))
}

/// `char_single(ch)` reads one character equal to `ch`.
pub proof fn lemma_char_single_reads_one<'a>(p: CharSingle)
    ensures
        reads_one::<'a, CharSingle>(p, |c: char| c == p.ch),
{
}

/// `char_in_str(s)` reads one character that occurs in `s`.
pub proof fn lemma_char_in_str_reads_one<'a, 'b>(p: CharInStr<'b>)
    ensures
        reads_one::<'a, CharInStr<'b>>(p, |c: char| p.chars_list@.contains(c)),
{
}

/// `any_char()` reads any one character.
pub proof fn lemma_any_char_reads_one<'a>(p: AnyChar)
    ensures
        reads_one::<'a, AnyChar>(p, |c: char| true),
{
}

/// `read_char_f(f)` reads one character that `f` approves of, when what `f`
/// returns is fixed by `accept`.
pub proof fn lemma_read_char_f_reads_one<'a, F: Fn(char) -> bool>(p: ReadCharF<F>, accept: spec_fn(char) -> bool)
    requires
        forall|c: char, b: bool| call_ensures(p.predicate, (c,), b) ==> b == accept(c),
    ensures
        reads_one::<'a, ReadCharF<F>>(p, accept),
{
    assert forall|i: ParserInput<'a>, o: POut<'a, String>| #[trigger] p.outcome(i, o) implies char_outcome(
        i,
        o,
        i.text@.len() > 0 && accept(i.text@[0]),
    ) by {
        let b: bool = choose|b: bool|
            (i.text@.len() > 0 ==> call_ensures(p.predicate, (i.text@[0],), b)) && char_outcome(
                i,
                o,
                b,
            );
        if i.text@.len() == 0 {
            assert(char_outcome(i, o, b));
        }
    }
}

/// Repeated single-character reads from `inp` consume the first
/// `vals.len()` characters, one value per character.
proof fn lemma_repeats_read<'a, P: Parser<'a, Val = String>>(
    p: P,
    accept: spec_fn(char) -> bool,
    inp: ParserInput<'a>,
    vals: Seq<String>,
    cur: ParserInput<'a>,
)
    requires
        reads_one(p, accept),
        repeats(p, inp, vals, cur),
    ensures
        vals.len() <= inp.text@.len(),
        cur.text@ == inp.text@.skip(vals.len() as int),
        cur.pos == advance(inp.pos, inp.text@.take(vals.len() as int)),
        forall|k: int| 0 <= k < vals.len() ==> accept(#[trigger] inp.text@[k]),
        forall|k: int| 0 <= k < vals.len() ==> (#[trigger] vals[k])@ == seq![inp.text@[k]],
    decreases vals.len(),
{
    if vals.len() == 0 {
        assert(inp.text@.skip(0) =~= inp.text@);
        assert(inp.text@.take(0) =~= Seq::<char>::empty());
    } else {
        let (mid, r): (ParserInput<'a>, PRes<'a, String>) = choose|
            mid: ParserInput<'a>,
            r: PRes<'a, String>,
        |
            #[trigger] p.outcome(mid, Ok::<PRes<'a, String>, PErr>(r)) && repeats(
                p,
                inp,
                vals.drop_last(),
                mid,
            ) && r.val == vals.last() && r.remainder@.len() < mid.text@.len() && cur
                == r.next_input();
        lemma_repeats_read(p, accept, inp, vals.drop_last(), mid);
        let m = vals.len() - 1;
        assert(char_outcome(
            mid,
            Ok::<PRes<'a, String>, PErr>(r),
            mid.text@.len() > 0 && accept(mid.text@[0]),
        ));
        assert(mid.text@[0] == inp.text@[m]);
        assert(cur.text@ =~= inp.text@.skip(m + 1));
        assert(inp.text@.take(m + 1).drop_last() =~= inp.text@.take(m));
        assert(inp.text@.take(m + 1).last() == inp.text@[m]);
        assert forall|k: int| 0 <= k < vals.len() implies (#[trigger] vals[k])@ == seq![
            inp.text@[k],
        ] by {
            if k < m {
                assert(vals[k] == vals.drop_last()[k]);
            } else {
                assert(vals[k] == r.val);
            }
        }
        assert forall|k: int| 0 <= k < vals.len() implies accept(#[trigger] inp.text@[k]) by {
            if k == m {
                assert(accept(mid.text@[0]));
            }
        }
    }
}

/// `one_or_many` over a single-character reader, on a text whose first `n`
/// characters (`n` at least one) the reader accepts and whose next
/// character, if there is one, it refuses: the result holds those `n`
/// characters, one value each, the remainder is the text after them, and the
/// position has moved over them; without line breaks among them, the column
/// has moved on by `n`.
pub proof fn lemma_one_or_many_run<'a, P: Parser<'a, Val = String>>(
    p: P,
    accept: spec_fn(char) -> bool,
    inp: ParserInput<'a>,
    n: int,
    out: POut<'a, Vec<String>>,
)
    requires
        reads_one(p, accept),
        0 < n <= inp.text@.len(),
        forall|k: int| 0 <= k < n ==> accept(#[trigger] inp.text@[k]),
        n < inp.text@.len() ==> !accept(inp.text@[n]),
        (OneOrMany { p }).outcome(inp, out),
    ensures
        out is Ok,
        out->Ok_0.val@.len() == n,
        forall|k: int| 0 <= k < n ==> (#[trigger] out->Ok_0.val@[k])@ == seq![inp.text@[k]],
        out->Ok_0.remainder@ == inp.text@.skip(n),
        out->Ok_0.pos == advance(inp.pos, inp.text@.take(n)),
        !inp.text@.take(n).contains('\n') && inp.pos.column + n <= usize::MAX ==> out->Ok_0.pos
            == (FilePos { line: inp.pos.line, column: (inp.pos.column + n) as usize }),
{
    let rm: POut<'a, Vec<String>> = choose|rm: POut<'a, Vec<String>>|
        #[trigger] many_outcome(p, inp, rm) && match rm {
            Ok(pm) => out == if pm.val@.len() > 0 {
                rm
            } else {
                Err::<PRes<'a, Vec<String>>, PErr>(PErr { pos: inp.pos })
            },
            Err(e) => out == Err::<PRes<'a, Vec<String>>, PErr>(e),
        };
    let pm = rm->Ok_0;
    let cur: ParserInput<'a> = choose|cur: ParserInput<'a>|
        #[trigger] repeats(p, inp, pm.val@, cur) && stops(p, cur) && pm.pos == cur.pos
            && pm.remainder == cur.text;
    lemma_repeats_read(p, accept, inp, pm.val@, cur);
    let v = pm.val@.len() as int;
    let r: POut<'a, String> = choose|r: POut<'a, String>|
        #[trigger] p.outcome(cur, r) && match r {
            Err(_) => true,
            Ok(pr) => pr.remainder@.len() >= cur.text@.len(),
        };
    assert(char_outcome(cur, r, cur.text@.len() > 0 && accept(cur.text@[0])));
    if v < n {
        assert(cur.text@[0] == inp.text@[v]);
        assert(accept(inp.text@[v]));
        assert(false);
    }
    if v > n {
        assert(pm.val@[n]@ == seq![inp.text@[n]]);
        assert(accept(inp.text@[n]));
        assert(false);
    }
    if !inp.text@.take(n).contains('\n') && inp.pos.column + n <= usize::MAX {
        lemma_advance_flat(inp.pos, inp.text@.take(n));
    }
}

/// `one_or_many(char_single(c))` on a text that starts with `n` copies of `c`
/// (`n` at least one, `c` not a line break) followed by the end or by another
/// character: `n` values, each `c`, the text after them left, and the
/// column moved on by `n`.
pub proof fn lemma_one_or_many_char_single<'a>(
    c: char,
    inp: ParserInput<'a>,
    n: int,
    out: POut<'a, Vec<String>>,
)
    requires
        c != '\n',
        0 < n <= inp.text@.len(),
        forall|k: int| 0 <= k < n ==> #[trigger] inp.text@[k] == c,
        n < inp.text@.len() ==> inp.text@[n] != c,
        inp.pos.column + n <= usize::MAX,
        (OneOrMany { p: CharSingle { ch: c } }).outcome(inp, out),
    ensures
        out is Ok,
        out->Ok_0.val@.len() == n,
        forall|k: int| 0 <= k < n ==> (#[trigger] out->Ok_0.val@[k])@ == seq![c],
        out->Ok_0.remainder@ == inp.text@.skip(n),
        out->Ok_0.pos == (FilePos { line: inp.pos.line, column: (inp.pos.column + n) as usize }),
{
    let p = CharSingle { ch: c };
    let accept = |x: char| x == c;
    lemma_char_single_reads_one(p);
    assert forall|k: int| 0 <= k < n implies accept(#[trigger] inp.text@[k]) by {}
    lemma_one_or_many_run(p, accept, inp, n, out);
    assert(!inp.text@.take(n).contains('\n')) by {
        if inp.text@.take(n).contains('\n') {
            let k = choose|k: int| 0 <= k < inp.text@.take(n).len() && inp.text@.take(n)[k] == '\n';
            assert(inp.text@[k] == c);
        }
    }
}

/// Lookahead: where `p` can only succeed, `no_consume(p)` succeeds with a
/// value that `p` gives there, and leaves the position and the remainder
/// as they were before the call.
pub proof fn lemma_no_consume_stays<'a, P: Parser<'a>>(p: P, inp: ParserInput<'a>, out: POut<'a, P::Val>)
    requires
        forall|r: POut<'a, P::Val>| #[trigger] p.outcome(inp, r) ==> r is Ok,
        (NoConsume { p }).outcome(inp, out),
    ensures
        out is Ok,
        out->Ok_0.pos == inp.pos,
        out->Ok_0.remainder == inp.text,
        exists|pa: PRes<'a, P::Val>|
            #[trigger] p.outcome(inp, Ok::<PRes<'a, P::Val>, PErr>(pa)) && pa.val == out->Ok_0.val,
{
    let ra: POut<'a, P::Val> = choose|ra: POut<'a, P::Val>|
        #[trigger] p.outcome(inp, ra) && match ra {
            Err(e) => out == Err::<PRes<'a, P::Val>, PErr>(e),
            Ok(pa) => out == Ok::<PRes<'a, P::Val>, PErr>(
                PRes { val: pa.val, pos: inp.pos, remainder: inp.text },
            ),
        };
    assert(p.outcome(inp, Ok::<PRes<'a, P::Val>, PErr>(ra->Ok_0)));
}

/// A deferred parser behaves as the parser it builds: when `g` can only
/// return `q`, `defer(g)` may run wherever `q` may, and each of its
/// outcomes is one of `q`.
pub proof fn lemma_defer_transparent<'a, R: Parser<'a>, G: Fn() -> R>(
    g: G,
    q: R,
    inp: ParserInput<'a>,
    out: POut<'a, R::Val>,
)
    requires
        forall|r: R| call_ensures(g, (), r) ==> r == q,
    ensures
        call_requires(g, ()) && q.ready() ==> (Defer { p_fn: g }).ready(),
        (Defer { p_fn: g }).outcome(inp, out) ==> q.outcome(inp, out),
{
}

/// A sequence of two deferred parsers behaves as the sequence of the
/// parsers they build: each outcome of `then(defer(ga), defer(gb), comb)` is
/// one of `then(qa, qb, comb)`.
pub proof fn lemma_then_defer<'a, RA: Parser<'a>, GA: Fn() -> RA, RB: Parser<'a>, GB: Fn() -> RB, C: Combiner<
    'a,
    RA::Val,
    RB::Val,
>>(ga: GA, qa: RA, gb: GB, qb: RB, comb: C, inp: ParserInput<'a>, out: POut<'a, C::Out>)
    requires
        forall|r: RA| call_ensures(ga, (), r) ==> r == qa,
        forall|r: RB| call_ensures(gb, (), r) ==> r == qb,
        (Then { a: Defer { p_fn: ga }, b: Defer { p_fn: gb }, comb }).outcome(inp, out),
    ensures
        (Then { a: qa, b: qb, comb }).outcome(inp, out),
{
    let da = Defer { p_fn: ga };
    let db = Defer { p_fn: gb };
    let ra: POut<'a, RA::Val> = choose|ra: POut<'a, RA::Val>|
        #[trigger] da.outcome(inp, ra) && match ra {
            Err(e) => out == Err::<PRes<'a, C::Out>, PErr>(e),
            Ok(pa) => exists|rb: POut<'a, RB::Val>|
                #[trigger] db.outcome(pa.next_input(), rb) && comb.combines(
                    Ok::<PRes<'a, RA::Val>, PErr>(pa),
                    rb,
                    out,
                ),
        };
    assert(qa.outcome(inp, ra));
    if ra is Ok {
        let pa = ra->Ok_0;
        let rb: POut<'a, RB::Val> = choose|rb: POut<'a, RB::Val>|
            #[trigger] db.outcome(pa.next_input(), rb) && comb.combines(
                Ok::<PRes<'a, RA::Val>, PErr>(pa),
                rb,
                out,
            );
        assert(qb.outcome(pa.next_input(), rb));
    }
    assert(then_outcome(qa, qb, comb, inp, out));
}

} // verus!
