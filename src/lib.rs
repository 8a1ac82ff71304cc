//! Parser combinators over text, with positions tracked by line and column.
//!
//! A parser is any value of the `Parser` trait: small parsers (characters,
//! keywords) are composed by the combinators into larger ones, and each
//! states in `outcome` what it may return on a given input.

pub mod alternation;
pub mod chains;
pub mod combiner;
pub mod combiners;
pub mod defs;
pub mod file_pos;
pub mod laws;
pub mod parser;
pub mod parsers_core;
pub mod parsers_ext;
pub mod primitives;
pub mod repetition;

pub use alternation::{
    or10, or11, or12, or2, or3, or4, or5, or6, or7, or8, or9, Alt10, Alt11, Alt12, Alt2, Alt3, Alt4,
    Alt5, Alt6, Alt7, Alt8, Alt9,
};
pub use chains::{chain_select, or_chain, thenr, ChainSelect, OrChain, ThenR};
pub use combiner::{gen_comb, smcomb, SmComb};
pub use combiners::{left_right, right_left, take_left, take_right};
pub use defs::{Either2, Either3, Or10, Or11, Or12, Or2, Or3, Or4, Or5, Or6, Or7, Or8, Or9};
pub use file_pos::FilePos;
pub use parser::{get_p_out_pos, Combiner, PErr, POut, PRes, Parser, ParserInput};
pub use parsers_core::{
    all, always, defer, either_or, fail_if, mod_dat, mod_out, mod_val, no_consume, not, or, or_diff,
    replace_val, succeed_if, then, All, Always, Defer, EitherOr, FailIf, ModDat, ModOut, ModVal, NoConsume,
    Not, Or, OrDiff, ReplaceVal, SucceedIf, Then,
};
pub use repetition::{
    consume_chars_until, none_or_many, none_or_many_until, one_or_many, one_or_many_until,
    one_or_none, tuple_left_char_vec_to_str, JoinLeft, NoneOrMany, OneOrMany, OneOrNone,
};
pub use parsers_ext::{
    air, comma, digit, dot, escaped_char, infix, infixp, maybe, newline, normal_string, Concat,
    Infix, Infixed, Middle, NormalString,
};
pub use primitives::{
    any_char, char_in_str, char_single, keyword, read_char_f, AnyChar, CharInStr, CharSingle,
    Keyword, ReadCharF,
};
