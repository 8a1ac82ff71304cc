use volt_parse::{
    air, all, always, any_char, chain_select, char_in_str, char_single, comma, consume_chars_until,
    defer, digit, dot, either_or, escaped_char, fail_if, gen_comb, get_p_out_pos, infix, infixp,
    keyword, left_right, maybe, mod_dat, mod_out, mod_val, newline, no_consume, none_or_many,
    none_or_many_until, normal_string, not, one_or_many, one_or_many_until, one_or_none, or,
    or12, or3, or_chain, or_diff, read_char_f, replace_val, right_left, smcomb, succeed_if,
    take_left, take_right, then, thenr, Either2, FilePos, Infix, Or12, Or3, PErr, POut, PRes,
    Parser, ParserInput,
};

fn pos(line: usize, column: usize) -> FilePos {
    FilePos { line, column }
}

#[test]
fn then_test() {
    let res = then(keyword("hi"), keyword("bob"), left_right).parse(&ParserInput::new("hibob"));
    assert_eq!(
        res,
        Ok(PRes {
            val: (String::from("hi"), String::from("bob")),
            pos: FilePos { line: 1, column: 5 },
            remainder: "",
        },)
    );
}

#[test]
fn multi_element_parsers_test() {
    let res = one_or_many(char_single('a')).parse(&ParserInput::new("aaaaabb123"));
    assert_eq!(
        res,
        Ok(PRes {
            val: vec![String::from("a"); 5],
            pos: FilePos { line: 1, column: 5 },
            remainder: "bb123",
        },)
    );
}

#[test]
fn no_consume_test() {
    let res = then(
        then(one_or_many(char_single('=')), no_consume(char_single('@')), left_right),
        then(char_single('@'), one_or_many(char_single('-')), left_right),
        left_right,
    )
    .parse(&ParserInput::new("=======@--------"));
    assert_eq!(
        res,
        Ok(PRes {
            val: (
                (vec![String::from("="); 7], String::from("@")),
                (String::from("@"), vec![String::from("-"); 8]),
            ),
            pos: FilePos { line: 1, column: 16 },
            remainder: "",
        },)
    );
}

#[test]
fn defer_test() {
    let res = defer(|| then(defer(|| keyword("abc")), defer(|| keyword("123")), left_right))
        .parse(&ParserInput::new("abc123"));
    assert_eq!(
        res,
        Ok(PRes {
            val: (String::from("abc"), String::from("123"),),
            pos: FilePos { line: 1, column: 6 },
            remainder: "",
        },)
    );
}

#[test]
fn deferred_sequence_matches_plain_sequence() {
    let inputs = ["abc123", "abc12", "ab", "abc123x"];
    for text in inputs {
        let deferred = then(defer(|| keyword("abc")), defer(|| keyword("123")), left_right)
            .parse(&ParserInput::new(text));
        let plain = then(keyword("abc"), keyword("123"), left_right).parse(&ParserInput::new(text));
        assert_eq!(deferred, plain);
    }
}

#[test]
fn keyword_against_itself_consumes_all() {
    let res = keyword("where").parse(&ParserInput::new("where"));
    assert_eq!(res, Ok(PRes { val: String::from("where"), pos: pos(1, 5), remainder: "" }));
}

#[test]
fn keyword_mismatch_fails_at_start() {
    let inp = ParserInput { text: "whale", pos: pos(3, 7) };
    assert_eq!(keyword("where").parse(&inp), Err(PErr { pos: pos(3, 7) }));
    assert_eq!(keyword("longer than text").parse(&inp), Err(PErr { pos: pos(3, 7) }));
}

#[test]
fn keyword_counts_characters_not_bytes() {
    let res = keyword("héé").parse(&ParserInput::new("hééx"));
    assert_eq!(res, Ok(PRes { val: String::from("héé"), pos: pos(1, 3), remainder: "x" }));
}

#[test]
fn keyword_with_line_break_moves_to_next_line() {
    let res = keyword("a\nbc").parse(&ParserInput::new("a\nbcd"));
    assert_eq!(res, Ok(PRes { val: String::from("a\nbc"), pos: pos(2, 2), remainder: "d" }));
}

#[test]
fn newline_character_resets_column() {
    let res = any_char().parse(&ParserInput { text: "\nx", pos: pos(4, 9) });
    assert_eq!(res, Ok(PRes { val: String::from("\n"), pos: pos(5, 0), remainder: "x" }));
}

#[test]
fn read_char_on_empty_text_fails() {
    assert_eq!(any_char().parse(&ParserInput::new("")), Err(PErr { pos: pos(1, 0) }));
}

#[test]
fn read_char_with_predicate() {
    let vowel = read_char_f(|c| "aeiou".contains(c));
    assert_eq!(
        vowel.parse(&ParserInput::new("ex")),
        Ok(PRes { val: String::from("e"), pos: pos(1, 1), remainder: "x" })
    );
    assert_eq!(vowel.parse(&ParserInput::new("xe")), Err(PErr { pos: pos(1, 0) }));
}

#[test]
fn char_in_str_reads_listed_characters() {
    let p = char_in_str("xyz");
    assert_eq!(
        p.parse(&ParserInput::new("yes")),
        Ok(PRes { val: String::from("y"), pos: pos(1, 1), remainder: "es" })
    );
    assert_eq!(p.parse(&ParserInput::new("abc")), Err(PErr { pos: pos(1, 0) }));
}

#[test]
fn one_or_many_counts_run_then_stops() {
    let res = one_or_many(char_in_str("01")).parse(&ParserInput::new("0110a"));
    assert_eq!(
        res,
        Ok(PRes {
            val: vec![
                String::from("0"),
                String::from("1"),
                String::from("1"),
                String::from("0")
            ],
            pos: pos(1, 4),
            remainder: "a",
        })
    );
}

#[test]
fn one_or_many_without_match_fails_at_start() {
    assert_eq!(one_or_many(char_single('a')).parse(&ParserInput::new("bbb")), Err(PErr { pos: pos(1, 0) }));
}

#[test]
fn none_or_many_on_empty_text() {
    let res = none_or_many(char_single('a')).parse(&ParserInput::new(""));
    assert_eq!(res, Ok(PRes { val: vec![], pos: pos(1, 0), remainder: "" }));
}

#[test]
fn none_or_many_stops_on_match_that_consumes_nothing() {
    let res = none_or_many(always(|| 1u8)).parse(&ParserInput::new("abc"));
    assert_eq!(res, Ok(PRes { val: vec![], pos: pos(1, 0), remainder: "abc" }));
}

#[test]
fn none_or_many_long_run_keeps_stack_flat() {
    let text = "a".repeat(3000);
    let res = none_or_many(char_single('a')).parse(&ParserInput::new(&text));
    let r = res.unwrap();
    assert_eq!(r.val.len(), 3000);
    assert_eq!(r.pos, pos(1, 3000));
    assert_eq!(r.remainder, "");
}

#[test]
fn until_variants_join_body_and_terminator() {
    let res = none_or_many_until(char_single('a'), char_single(';'), left_right)
        .parse(&ParserInput::new("aa;b"));
    assert_eq!(
        res,
        Ok(PRes {
            val: (vec![String::from("a"), String::from("a")], String::from(";")),
            pos: pos(1, 3),
            remainder: "b",
        })
    );
    let res = one_or_many_until(char_single('a'), char_single(';'), take_right)
        .parse(&ParserInput::new(";b"));
    assert_eq!(res, Err(PErr { pos: pos(1, 0) }));
}

#[test]
fn consume_chars_until_end_marker() {
    let res = consume_chars_until(keyword("")).parse(&ParserInput::new("abc"));
    assert_eq!(
        res,
        Ok(PRes { val: (String::from("abc"), String::from("")), pos: pos(1, 3), remainder: "" })
    );
    let res = consume_chars_until(keyword("x")).parse(&ParserInput::new("abx"));
    assert_eq!(res, Err(PErr { pos: pos(1, 3) }));
}

#[test]
fn then_short_circuits_on_first_failure() {
    let res = then(keyword("x"), keyword("y"), left_right).parse(&ParserInput::new("ab"));
    assert_eq!(res, Err(PErr { pos: pos(1, 0) }));
    let res = then(keyword("a"), keyword("y"), left_right).parse(&ParserInput::new("ab"));
    assert_eq!(res, Err(PErr { pos: pos(1, 1) }));
}

#[test]
fn combiners_keep_the_right_values() {
    let inp = ParserInput::new("ab");
    assert_eq!(
        then(keyword("a"), keyword("b"), take_left).parse(&inp),
        Ok(PRes { val: String::from("a"), pos: pos(1, 2), remainder: "" })
    );
    assert_eq!(
        then(keyword("a"), keyword("b"), take_right).parse(&inp),
        Ok(PRes { val: String::from("b"), pos: pos(1, 2), remainder: "" })
    );
    assert_eq!(
        then(keyword("a"), keyword("b"), right_left).parse(&inp),
        Ok(PRes { val: (String::from("b"), String::from("a")), pos: pos(1, 2), remainder: "" })
    );
    let joined = then(keyword("a"), keyword("b"), smcomb(|x: String, y: String| x.len() + y.len()))
        .parse(&inp);
    assert_eq!(joined, Ok(PRes { val: 2, pos: pos(1, 2), remainder: "" }));
}

#[test]
fn gen_comb_propagates_first_failure() {
    let ok_a: POut<u8> = Ok(PRes { val: 1, pos: pos(1, 1), remainder: "xy" });
    let ok_b: POut<u8> = Ok(PRes { val: 2, pos: pos(1, 2), remainder: "y" });
    let err_a: POut<u8> = Err(PErr { pos: pos(1, 0) });
    let err_b: POut<u8> = Err(PErr { pos: pos(1, 1) });
    assert_eq!(
        gen_comb(ok_a.clone(), ok_b.clone(), |x, y| x + y),
        Ok(PRes { val: 3, pos: pos(1, 2), remainder: "y" })
    );
    assert_eq!(gen_comb(ok_a, err_b.clone(), |x, y| x + y), Err(PErr { pos: pos(1, 1) }));
    assert_eq!(gen_comb(err_a, err_b, |x, y| x + y), Err(PErr { pos: pos(1, 0) }));
}

#[test]
fn or_tries_second_on_same_input() {
    let p = or(then(keyword("a"), keyword("x"), take_left), keyword("ab"));
    assert_eq!(
        p.parse(&ParserInput::new("ab")),
        Ok(PRes { val: String::from("ab"), pos: pos(1, 2), remainder: "" })
    );
}

#[test]
fn or_reports_last_failure() {
    let p = or(keyword("z"), then(keyword("a"), keyword("z"), take_left));
    assert_eq!(p.parse(&ParserInput::new("ab")), Err(PErr { pos: pos(1, 1) }));
}

#[test]
fn or_diff_tags_branch() {
    let p = or_diff(keyword("a"), char_single('b'));
    assert_eq!(
        p.parse(&ParserInput::new("bc")),
        Ok(PRes { val: Either2::Right(String::from("b")), pos: pos(1, 1), remainder: "c" })
    );
    assert_eq!(
        p.parse(&ParserInput::new("ac")),
        Ok(PRes { val: Either2::Left(String::from("a")), pos: pos(1, 1), remainder: "c" })
    );
}

#[test]
fn either_or_prefers_combined() {
    let p = either_or(keyword("a"), keyword("b"), left_right);
    assert_eq!(
        p.parse(&ParserInput::new("ab")),
        Ok(PRes { val: Or3::A((String::from("a"), String::from("b"))), pos: pos(1, 2), remainder: "" })
    );
    assert_eq!(
        p.parse(&ParserInput::new("ac")),
        Ok(PRes { val: Or3::B(String::from("a")), pos: pos(1, 1), remainder: "c" })
    );
    assert_eq!(
        p.parse(&ParserInput::new("bc")),
        Ok(PRes { val: Or3::C(String::from("b")), pos: pos(1, 1), remainder: "c" })
    );
    assert_eq!(p.parse(&ParserInput::new("cc")), Err(PErr { pos: pos(1, 0) }));
}

#[test]
fn mod_variants_shape_values() {
    let inp = ParserInput::new("ab");
    assert_eq!(
        mod_val(keyword("a"), |s: String| s.len()).parse(&inp),
        Ok(PRes { val: 1, pos: pos(1, 1), remainder: "b" })
    );
    assert_eq!(
        replace_val(keyword("a"), || 'z').parse(&inp),
        Ok(PRes { val: 'z', pos: pos(1, 1), remainder: "b" })
    );
    assert_eq!(
        mod_dat(keyword("a"), |r: PRes<String>| PRes { val: r.val.len(), pos: r.pos, remainder: r.remainder })
            .parse(&inp),
        Ok(PRes { val: 1, pos: pos(1, 1), remainder: "b" })
    );
    assert_eq!(
        mod_out(keyword("a"), |r: PRes<String>| -> POut<u8> { Err(PErr { pos: r.pos }) }).parse(&inp),
        Err(PErr { pos: pos(1, 1) })
    );
    assert_eq!(mod_val(keyword("x"), |s: String| s.len()).parse(&inp), Err(PErr { pos: pos(1, 0) }));
}

#[test]
fn gates_fail_at_start_position() {
    let inp = ParserInput::new("aaab");
    let runs = one_or_many(char_single('a'));
    assert_eq!(
        succeed_if(runs.clone(), |r: &PRes<Vec<String>>| r.val.len() > 5).parse(&inp),
        Err(PErr { pos: pos(1, 0) })
    );
    assert_eq!(
        fail_if(runs.clone(), |r: &PRes<Vec<String>>| r.val.len() == 3).parse(&inp),
        Err(PErr { pos: pos(1, 0) })
    );
    assert_eq!(
        succeed_if(runs, |r: &PRes<Vec<String>>| r.val.len() == 3).parse(&inp).map(|r| r.pos),
        Ok(pos(1, 3))
    );
    assert_eq!(all(keyword("aa")).parse(&inp), Err(PErr { pos: pos(1, 0) }));
    assert_eq!(
        all(keyword("aaab")).parse(&inp),
        Ok(PRes { val: String::from("aaab"), pos: pos(1, 4), remainder: "" })
    );
}

#[test]
fn always_and_not_consume_nothing() {
    let inp = ParserInput { text: "xy", pos: pos(2, 3) };
    assert_eq!(always(|| 7u8).parse(&inp), Ok(PRes { val: 7, pos: pos(2, 3), remainder: "xy" }));
    assert_eq!(
        not(keyword("y"), || String::from("none")).parse(&inp),
        Ok(PRes { val: String::from("none"), pos: pos(2, 3), remainder: "xy" })
    );
    assert_eq!(not(keyword("x"), || String::from("none")).parse(&inp), Err(PErr { pos: pos(2, 3) }));
}

#[test]
fn no_consume_keeps_value_and_position() {
    let inp = ParserInput { text: "abc", pos: pos(1, 4) };
    assert_eq!(
        no_consume(keyword("ab")).parse(&inp),
        Ok(PRes { val: String::from("ab"), pos: pos(1, 4), remainder: "abc" })
    );
    assert_eq!(no_consume(keyword("b")).parse(&inp), Err(PErr { pos: pos(1, 4) }));
}

#[test]
fn one_or_none_and_maybe() {
    let inp = ParserInput::new("ab");
    assert_eq!(
        one_or_none(keyword("a")).parse(&inp),
        Ok(PRes { val: Some(String::from("a")), pos: pos(1, 1), remainder: "b" })
    );
    assert_eq!(maybe(keyword("b")).parse(&inp), Ok(PRes { val: None, pos: pos(1, 0), remainder: "ab" }));
}

#[test]
fn chain_select_keeps_chosen_value() {
    let ps = vec![keyword("a"), keyword("b"), keyword("c")];
    let res = chain_select(ps.clone(), 1).parse(&ParserInput::new("abcd"));
    assert_eq!(res, Ok(PRes { val: String::from("b"), pos: pos(1, 3), remainder: "d" }));
    let res = chain_select(ps.clone(), 2).parse(&ParserInput::new("abcd"));
    assert_eq!(res, Ok(PRes { val: String::from("c"), pos: pos(1, 3), remainder: "d" }));
    let res = chain_select(ps.clone(), 1).parse(&ParserInput::new("abxd"));
    assert_eq!(res, Err(PErr { pos: pos(1, 2) }));
    let res = chain_select(ps, 3).parse(&ParserInput::new("abcd"));
    assert_eq!(res, Err(PErr { pos: pos(1, 0) }));
    let none: Vec<volt_parse::Keyword> = vec![];
    assert_eq!(chain_select(none, 0).parse(&ParserInput::new("a")), Err(PErr { pos: pos(1, 0) }));
}

#[test]
fn or_chain_takes_first_success() {
    let p = or_chain(vec![keyword("ab"), keyword("a"), keyword("abc")]);
    assert_eq!(
        p.parse(&ParserInput::new("abc")),
        Ok(PRes { val: String::from("ab"), pos: pos(1, 2), remainder: "c" })
    );
    assert_eq!(p.parse(&ParserInput::new("x")), Err(PErr { pos: pos(1, 0) }));
}

#[test]
fn or_chain_reports_last_failure() {
    let p = or_chain(vec![then(keyword("a"), keyword("b"), left_right)]);
    assert_eq!(p.parse(&ParserInput::new("ac")), Err(PErr { pos: pos(1, 1) }));
    let q = or_chain(vec![
        then(keyword("x"), keyword("y"), left_right),
        then(keyword("ab"), keyword("z"), left_right),
    ]);
    assert_eq!(q.parse(&ParserInput::new("abc")), Err(PErr { pos: pos(1, 2) }));
    let none: Vec<volt_parse::Keyword> = vec![];
    assert_eq!(or_chain(none).parse(&ParserInput { text: "a", pos: pos(2, 5) }), Err(PErr { pos: pos(2, 5) }));
}

#[test]
fn thenr_finds_first_split() {
    let p = thenr(one_or_many(char_in_str("ab")), keyword("b"), left_right);
    assert_eq!(
        p.parse(&ParserInput::new("abab")),
        Ok(PRes { val: (vec![String::from("a")], String::from("b")), pos: pos(1, 2), remainder: "ab" })
    );
    assert_eq!(p.parse(&ParserInput::new("aaa")), Err(PErr { pos: pos(1, 0) }));
}

#[test]
fn or_family_tags_branches() {
    let p = or3(keyword("a"), char_single('b'), keyword("c"));
    assert_eq!(
        p.parse(&ParserInput::new("c")),
        Ok(PRes { val: Or3::C(String::from("c")), pos: pos(1, 1), remainder: "" })
    );
    assert_eq!(p.parse(&ParserInput::new("d")), Err(PErr { pos: pos(1, 0) }));
    let q = or12(
        keyword("0"),
        keyword("1"),
        keyword("2"),
        keyword("3"),
        keyword("4"),
        keyword("5"),
        keyword("6"),
        keyword("7"),
        keyword("8"),
        keyword("9"),
        keyword("x"),
        then(keyword("y"), keyword("z"), left_right),
    );
    assert_eq!(
        q.parse(&ParserInput::new("yz")),
        Ok(PRes { val: Or12::L((String::from("y"), String::from("z"))), pos: pos(1, 2), remainder: "" })
    );
    assert_eq!(q.parse(&ParserInput::new("yy")), Err(PErr { pos: pos(1, 1) }));
}

#[test]
fn small_parsers() {
    assert_eq!(
        digit().parse(&ParserInput::new("7a")),
        Ok(PRes { val: String::from("7"), pos: pos(1, 1), remainder: "a" })
    );
    assert_eq!(digit().parse(&ParserInput::new("a7")), Err(PErr { pos: pos(1, 0) }));
    assert_eq!(
        newline().parse(&ParserInput::new("\r\nx")),
        Ok(PRes { val: String::from("\r\n"), pos: pos(2, 0), remainder: "x" })
    );
    assert_eq!(
        air().parse(&ParserInput::new("\tx")),
        Ok(PRes { val: String::from("\t"), pos: pos(1, 1), remainder: "x" })
    );
    assert_eq!(
        air().parse(&ParserInput::new("\nx")),
        Ok(PRes { val: String::from("\n"), pos: pos(2, 0), remainder: "x" })
    );
    assert_eq!(comma().parse(&ParserInput::new(",")).map(|r| r.val), Ok(String::from(",")));
    assert_eq!(dot().parse(&ParserInput::new(",")), Err(PErr { pos: pos(1, 0) }));
    assert_eq!(
        escaped_char().parse(&ParserInput::new("\\nx")),
        Ok(PRes { val: String::from("\\n"), pos: pos(1, 2), remainder: "x" })
    );
}

#[test]
fn normal_string_reads_quoted_text() {
    assert_eq!(
        normal_string().parse(&ParserInput::new("\"hi there\" rest")),
        Ok(PRes { val: String::from("hi there"), pos: pos(1, 10), remainder: " rest" })
    );
    assert_eq!(
        normal_string().parse(&ParserInput::new("\"\"")),
        Ok(PRes { val: String::from(""), pos: pos(1, 2), remainder: "" })
    );
    assert_eq!(normal_string().parse(&ParserInput::new("\"open")), Err(PErr { pos: pos(1, 0) }));
    assert_eq!(normal_string().parse(&ParserInput::new("plain")), Err(PErr { pos: pos(1, 0) }));
}

#[test]
fn infix_keeps_three_parts() {
    let p = infix(digit(), char_single('+'), digit());
    assert_eq!(
        p.parse(&ParserInput::new("1+2=")),
        Ok(PRes {
            val: Infix { l: String::from("1"), p: String::from("+"), r: String::from("2") },
            pos: pos(1, 3),
            remainder: "=",
        })
    );
    assert_eq!(p.parse(&ParserInput::new("1+x")), Err(PErr { pos: pos(1, 2) }));
    let q = infixp(char_single('('), digit(), char_single(')'));
    assert_eq!(
        q.parse(&ParserInput::new("(5)")),
        Ok(PRes { val: String::from("5"), pos: pos(1, 3), remainder: "" })
    );
}

#[test]
fn positions_and_inputs() {
    let p = FilePos::new(2, 3);
    assert_eq!(p.incr_col(), pos(2, 4));
    assert_eq!(p.incr_line(), pos(3, 0));
    assert_eq!(FilePos::new(1, usize::MAX).incr_col(), pos(1, usize::MAX));
    assert_eq!(FilePos::new(usize::MAX, 4).incr_line(), pos(usize::MAX, 0));
    let inp = ParserInput::new("abc");
    assert_eq!(inp.pos, pos(1, 0));
    assert_eq!(inp.text, "abc");
    let ok: POut<u8> = Ok(PRes { val: 1, pos: pos(4, 2), remainder: "z" });
    let err: POut<u8> = Err(PErr { pos: pos(5, 6) });
    assert_eq!(get_p_out_pos(&ok), pos(4, 2));
    assert_eq!(get_p_out_pos(&err), pos(5, 6));
    let next = ok.unwrap().to_in();
    assert_eq!(next.pos, pos(4, 2));
    assert_eq!(next.text, "z");
}
