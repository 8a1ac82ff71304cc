use vstd::prelude::*;
use vstd::string::StrSliceExecFns;

use crate::file_pos::{advance, step_pos, FilePos};
use crate::parser::{PErr, POut, PRes, Parser, ParserInput};

verus! {

/// The outcome of reading one character from `inp`, when `accept` is the
/// verdict on that character: a success holding it, one column (or line)
/// further on; a failure at the start when the text is empty or the
/// character is refused.
pub open spec fn char_outcome<'a>(
    inp: ParserInput<'a>,
    out: POut<'a, String>,
    accept: bool,
) -> bool {
    if inp.text@.len() > 0 && accept {
        match out {
            Ok(r) => r.val@ == seq![inp.text@[0]] && r.pos == step_pos(inp.pos, inp.text@[0])
                && r.remainder@ == inp.text@.drop_first(),
            Err(_) => false,
        }
    } else {
        out == Err::<PRes<'a, String>, PErr>(PErr { pos: inp.pos })
    }
}

/// The first character of `text` as a string, and the text after it.
fn split_first<'a>(text: &'a str) -> (r: Option<(char, String, &'a str)>)
    ensures
        text@.len() == 0 <==> r is None,
        r matches Some((c, s, rest)) ==> c == text@[0] && s@ == seq![c] && rest@
            == text@.drop_first(),
{
    if text.is_empty() {
        None
    } else {
        let n = text.unicode_len();
        let c = text.get_char(0);
        let s = text.substring_char(0, 1).to_owned();
        assert(s@ =~= seq![c]);
        let rest = text.substring_char(1, n);
        assert(rest@ =~= text@.drop_first());
        Some((c, s, rest))
    }
}

/// The outcome for `inp` once the verdict on its first character is known.
fn read_result<'a>(inp: &ParserInput<'a>, first: Option<(char, String, &'a str)>, accept: bool) -> (out:
    POut<'a, String>)
    requires
        inp.text@.len() == 0 <==> first is None,
        first matches Some((c, s, rest)) ==> c == inp.text@[0] && s@ == seq![c] && rest@
            == inp.text@.drop_first(),
    ensures
        char_outcome(*inp, out, accept),
{
    match first {
        Some((c, s, rest)) => {
            if accept {
                Ok(PRes { val: s, pos: inp.pos.step(c), remainder: rest })
            } else {
                Err(PErr { pos: inp.pos })
            }
        },
        None => Err(PErr { pos: inp.pos }),
    }
}

/// Reads one character that a predicate accepts.
#[derive(Clone)]
pub struct ReadCharF<F> {
    pub predicate: F,
}

pub fn read_char_f<F: Fn(char) -> bool>(predicate: F) -> (r: ReadCharF<F>)
    ensures
        r.predicate == predicate,
{
    ReadCharF { predicate }
}

impl<'a, F: Fn(char) -> bool> Parser<'a> for ReadCharF<F> {
    type Val = String;

    open spec fn ready(&self) -> bool {
        forall|c: char| call_requires(self.predicate, (c,))
    }

    open spec fn outcome(&self, inp: ParserInput<'a>, out: POut<'a, String>) -> bool {
        exists|b: bool|
            (inp.text@.len() > 0 ==> call_ensures(self.predicate, (inp.text@[0],), b))
                && char_outcome(inp, out, b)
    }

    fn parse(&self, inp: &ParserInput<'a>) -> (out: POut<'a, String>) {
        let first = split_first(inp.text);
        let accept = match &first {
            Some((c, _, _)) => (self.predicate)(*c),
            None => false,
        };
        read_result(inp, first, accept)
    }
}

/// Reads one character that occurs in a list of characters.
#[derive(Clone)]
pub struct CharInStr<'b> {
    pub chars_list: &'b str,
}

pub fn char_in_str<'b>(chars_list: &'b str) -> (r: CharInStr<'b>)
    ensures
        r.chars_list == chars_list,
{
    CharInStr { chars_list }
}

/// Whether `c` occurs in `s`, checked one character at a time.
fn occurs_in(s: &str, c: char) -> (r: bool)
    ensures
        r == s@.contains(c),
{
    let n = s.unicode_len();
    let mut i: usize = 0;
    while i < n
        invariant
            n == s@.len(),
            i <= n,
            forall|k: int| 0 <= k < i ==> s@[k] != c,
        decreases n - i,
    {
        if s.get_char(i) == c {
            return true;
        }
        i = i + 1;
    }
    false
}

impl<'a, 'b> Parser<'a> for CharInStr<'b> {
    type Val = String;

    open spec fn ready(&self) -> bool {
        true
    }

    open spec fn outcome(&self, inp: ParserInput<'a>, out: POut<'a, String>) -> bool {
        char_outcome(inp, out, inp.text@.len() > 0 && self.chars_list@.contains(inp.text@[0]))
    }

    fn parse(&self, inp: &ParserInput<'a>) -> (out: POut<'a, String>) {
        let first = split_first(inp.text);
        let accept = match &first {
            Some((c, _, _)) => occurs_in(self.chars_list, *c),
            None => false,
        };
        read_result(inp, first, accept)
    }
}

/// Reads one given character.
#[derive(Clone)]
pub struct CharSingle {
    pub ch: char,
}

pub fn char_single(ch: char) -> (r: CharSingle)
    ensures
        r.ch == ch,
{
    CharSingle { ch }
}

impl<'a> Parser<'a> for CharSingle {
    type Val = String;

    open spec fn ready(&self) -> bool {
        true
    }

    open spec fn outcome(&self, inp: ParserInput<'a>, out: POut<'a, String>) -> bool {
        char_outcome(inp, out, inp.text@.len() > 0 && inp.text@[0] == self.ch)
    }

    fn parse(&self, inp: &ParserInput<'a>) -> (out: POut<'a, String>) {
        let first = split_first(inp.text);
        let accept = match &first {
            Some((c, _, _)) => *c == self.ch,
            None => false,
        };
        read_result(inp, first, accept)
    }
}

/// Reads any one character.
#[derive(Clone)]
pub struct AnyChar {}

pub fn any_char() -> (r: AnyChar) {
    AnyChar {}
}

impl<'a> Parser<'a> for AnyChar {
    type Val = String;

    open spec fn ready(&self) -> bool {
        true
    }

    open spec fn outcome(&self, inp: ParserInput<'a>, out: POut<'a, String>) -> bool {
        char_outcome(inp, out, true)
    }

    fn parse(&self, inp: &ParserInput<'a>) -> (out: POut<'a, String>) {
        let first = split_first(inp.text);
        let accept = first.is_some();
        read_result(inp, first, accept)
    }
}

/// The outcome of matching the literal `word` at the start of `inp`.
pub open spec fn keyword_outcome<'a>(word: Seq<char>, inp: ParserInput<'a>, out: POut<'a, String>) -> bool {
    if word.len() <= inp.text@.len() && inp.text@.take(word.len() as int) == word {
        match out {
            Ok(r) => r.val@ == word && r.pos == advance(inp.pos, word) && r.remainder@
                == inp.text@.skip(word.len() as int),
            Err(_) => false,
        }
    } else {
        out == Err::<PRes<'a, String>, PErr>(PErr { pos: inp.pos })
    }
}

/// Matches a literal text. The position moves over the word one character
/// at a time, so a line break inside the word moves it to column 0 of the
/// next line, as for any other consumed line break.
#[derive(Clone)]
pub struct Keyword<'b> {
    pub word: &'b str,
}

pub fn keyword<'b>(word: &'b str) -> (r: Keyword<'b>)
    ensures
        r.word == word,
{
    Keyword { word }
}

impl<'a, 'b> Parser<'a> for Keyword<'b> {
    type Val = String;

    open spec fn ready(&self) -> bool {
        true
    }

    open spec fn outcome(&self, inp: ParserInput<'a>, out: POut<'a, String>) -> bool {
        keyword_outcome(self.word@, inp, out)
    }

    fn parse(&self, inp: &ParserInput<'a>) -> (out: POut<'a, String>) {
        let word = self.word;
        let n = word.unicode_len();
        let m = inp.text.unicode_len();
        if n > m {
            return Err(PErr { pos: inp.pos });
        }
        let mut i: usize = 0;
        let mut pos = inp.pos;
        while i < n
            invariant
                word == self.word,
                n == word@.len(),
                m == inp.text@.len(),
                n <= m,
                i <= n,
                forall|k: int| 0 <= k < i ==> inp.text@[k] == word@[k],
                pos == advance(inp.pos, word@.take(i as int)),
            decreases n - i,
        {
            let c = word.get_char(i);
            if inp.text.get_char(i) != c {
                assert(inp.text@.take(n as int)[i as int] != word@[i as int]);
                assert(inp.text@.take(n as int) != word@);
                return Err(PErr { pos: inp.pos });
            }
            assert(word@.take(i + 1).drop_last() =~= word@.take(i as int));
            pos = pos.step(c);
            i = i + 1;
        }
        assert(inp.text@.take(n as int) =~= word@);
        assert(word@.take(n as int) =~= word@);
        let rest = inp.text.substring_char(n, m);
        assert(rest@ =~= inp.text@.skip(n as int));
        Ok(PRes { val: word.to_owned(), pos, remainder: rest })
    }
}

} // verus!
