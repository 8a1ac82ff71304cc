use vstd::prelude::*;

verus! {

/// One of two differently-typed alternatives.
#[derive(Debug, Clone, PartialEq, Eq)]
pub enum Either2<LeftT, RightT> {
    Left(LeftT),
    Right(RightT),
}

/// One of three differently-typed alternatives.
#[derive(Debug, Clone, PartialEq, Eq)]
pub enum Either3<TA, TB, TC> {
    A(TA),
    B(TB),
    C(TC),
}

/// The branch of an ordered choice among two parsers that matched.
#[derive(Debug, Clone, PartialEq, Eq)]
pub enum Or2<TA, TB> {
    A(TA),
    B(TB),
}

/// The branch of an ordered choice among three parsers that matched.
#[derive(Debug, Clone, PartialEq, Eq)]
pub enum Or3<TA, TB, TC> {
    A(TA),
    B(TB),
    C(TC),
}

/// The branch of an ordered choice among four parsers that matched.
#[derive(Debug, Clone, PartialEq, Eq)]
pub enum Or4<TA, TB, TC, TD> {
    A(TA),
    B(TB),
    C(TC),
    D(TD),
}

/// The branch of an ordered choice among five parsers that matched.
#[derive(Debug, Clone, PartialEq, Eq)]
pub enum Or5<TA, TB, TC, TD, TE> {
    A(TA),
    B(TB),
    C(TC),
    D(TD),
    E(TE),
}

/// The branch of an ordered choice among six parsers that matched.
#[derive(Debug, Clone, PartialEq, Eq)]
pub enum Or6<TA, TB, TC, TD, TE, TF> {
    A(TA),
    B(TB),
    C(TC),
    D(TD),
    E(TE),
    F(TF),
}

/// The branch of an ordered choice among seven parsers that matched.
#[derive(Debug, Clone, PartialEq, Eq)]
pub enum Or7<TA, TB, TC, TD, TE, TF, TG> {
    A(TA),
    B(TB),
    C(TC),
    D(TD),
    E(TE),
    F(TF),
    G(TG),
}

/// The branch of an ordered choice among eight parsers that matched.
#[derive(Debug, Clone, PartialEq, Eq)]
pub enum Or8<TA, TB, TC, TD, TE, TF, TG, TH> {
    A(TA),
    B(TB),
    C(TC),
    D(TD),
    E(TE),
    F(TF),
    G(TG),
    H(TH),
}

/// The branch of an ordered choice among nine parsers that matched.
#[derive(Debug, Clone, PartialEq, Eq)]
pub enum Or9<TA, TB, TC, TD, TE, TF, TG, TH, TI> {
    A(TA),
    B(TB),
    C(TC),
    D(TD),
    E(TE),
    F(TF),
    G(TG),
    H(TH),
    I(TI),
}

/// The branch of an ordered choice among ten parsers that matched.
#[derive(Debug, Clone, PartialEq, Eq)]
pub enum Or10<TA, TB, TC, TD, TE, TF, TG, TH, TI, TJ> {
    A(TA),
    B(TB),
    C(TC),
    D(TD),
    E(TE),
    F(TF),
    G(TG),
    H(TH),
    I(TI),
    J(TJ),
}

/// The branch of an ordered choice among eleven parsers that matched.
#[derive(Debug, Clone, PartialEq, Eq)]
pub enum Or11<TA, TB, TC, TD, TE, TF, TG, TH, TI, TJ, TK> {
    A(TA),
    B(TB),
    C(TC),
    D(TD),
    E(TE),
    F(TF),
    G(TG),
    H(TH),
    I(TI),
    J(TJ),
    K(TK),
}

/// The branch of an ordered choice among twelve parsers that matched.
#[derive(Debug, Clone, PartialEq, Eq)]
pub enum Or12<TA, TB, TC, TD, TE, TF, TG, TH, TI, TJ, TK, TL> {
    A(TA),
    B(TB),
    C(TC),
    D(TD),
    E(TE),
    F(TF),
    G(TG),
    H(TH),
    I(TI),
    J(TJ),
    K(TK),
    L(TL),
}

} // verus!
