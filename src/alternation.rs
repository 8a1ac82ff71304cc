use vstd::prelude::*;

use crate::defs::{Or2, Or3, Or4, Or5, Or6, Or7, Or8, Or9, Or10, Or11, Or12};
use crate::parser::{failed, with_val, POut, PRes, Parser, ParserInput};

verus! {

/// Ordered choice among two parsers of any value types, all tried on the
/// same input; the first success gives the value, tagged with its branch.
#[derive(Clone)]
pub struct Alt2<PA, PB> {
    pub a: PA,
    pub b: PB,
}

pub fn or2<'a, PA: Parser<'a>, PB: Parser<'a>>(a: PA, b: PB) -> (r: Alt2<PA, PB>)
    ensures
        r == (Alt2 { a, b }),
{
    Alt2 { a, b }
}

impl<'a, PA: Parser<'a>, PB: Parser<'a>> Parser<'a> for Alt2<PA, PB> {
    type Val = Or2<PA::Val, PB::Val>;

    open spec fn ready(&self) -> bool {
        self.a.ready() && self.b.ready()
    }

    open spec fn outcome(&self, inp: ParserInput<'a>, out: POut<'a, Or2<PA::Val, PB::Val>>) -> bool {
        exists|r0: POut<'a, PA::Val>|
            #[trigger] self.a.outcome(inp, r0) && match r0 {
                Ok(q) => out == with_val(q, Or2::<PA::Val, PB::Val>::A(q.val)),
                Err(_) =>
                    exists|r1: POut<'a, PB::Val>|
                        #[trigger] self.b.outcome(inp, r1) && match r1 {
                            Ok(q) => out == with_val(q, Or2::<PA::Val, PB::Val>::B(q.val)),
                            Err(e) => out == failed::<Or2<PA::Val, PB::Val>>(e),
                        },
            }
    }

    fn parse(&self, inp: &ParserInput<'a>) -> (out: POut<'a, Or2<PA::Val, PB::Val>>) {
        match self.a.parse(inp) {
            Ok(q) => Ok(PRes { val: Or2::A(q.val), pos: q.pos, remainder: q.remainder }),
            Err(_) =>
                match self.b.parse(inp) {
                    Ok(q) => Ok(PRes { val: Or2::B(q.val), pos: q.pos, remainder: q.remainder }),
                    Err(e) => Err(e),
                },
        }
    }
}

/// Ordered choice among three parsers of any value types, all tried on the
/// same input; the first success gives the value, tagged with its branch.
#[derive(Clone)]
pub struct Alt3<PA, PB, PC> {
    pub a: PA,
    pub b: PB,
    pub c: PC,
}

pub fn or3<'a, PA: Parser<'a>, PB: Parser<'a>, PC: Parser<'a>>(a: PA, b: PB, c: PC) -> (r: Alt3<PA, PB, PC>)
    ensures
        r == (Alt3 { a, b, c }),
{
    Alt3 { a, b, c }
}

impl<'a, PA: Parser<'a>, PB: Parser<'a>, PC: Parser<'a>> Parser<'a> for Alt3<PA, PB, PC> {
    type Val = Or3<PA::Val, PB::Val, PC::Val>;

    open spec fn ready(&self) -> bool {
        self.a.ready() && self.b.ready() && self.c.ready()
    }

    open spec fn outcome(&self, inp: ParserInput<'a>, out: POut<'a, Or3<PA::Val, PB::Val, PC::Val>>) -> bool {
        exists|r0: POut<'a, PA::Val>|
            #[trigger] self.a.outcome(inp, r0) && match r0 {
                Ok(q) => out == with_val(q, Or3::<PA::Val, PB::Val, PC::Val>::A(q.val)),
                Err(_) =>
                    exists|r1: POut<'a, PB::Val>|
                        #[trigger] self.b.outcome(inp, r1) && match r1 {
                            Ok(q) => out == with_val(q, Or3::<PA::Val, PB::Val, PC::Val>::B(q.val)),
                            Err(_) =>
                                exists|r2: POut<'a, PC::Val>|
                                    #[trigger] self.c.outcome(inp, r2) && match r2 {
                                        Ok(q) => out == with_val(q, Or3::<PA::Val, PB::Val, PC::Val>::C(q.val)),
                                        Err(e) => out == failed::<Or3<PA::Val, PB::Val, PC::Val>>(e),
                                    },
                        },
            }
    }

    fn parse(&self, inp: &ParserInput<'a>) -> (out: POut<'a, Or3<PA::Val, PB::Val, PC::Val>>) {
        match self.a.parse(inp) {
            Ok(q) => Ok(PRes { val: Or3::A(q.val), pos: q.pos, remainder: q.remainder }),
            Err(_) =>
                match self.b.parse(inp) {
                    Ok(q) => Ok(PRes { val: Or3::B(q.val), pos: q.pos, remainder: q.remainder }),
                    Err(_) =>
                        match self.c.parse(inp) {
                            Ok(q) => Ok(PRes { val: Or3::C(q.val), pos: q.pos, remainder: q.remainder }),
                            Err(e) => Err(e),
                        },
                },
        }
    }
}

/// Ordered choice among four parsers of any value types, all tried on the
/// same input; the first success gives the value, tagged with its branch.
#[derive(Clone)]
pub struct Alt4<PA, PB, PC, PD> {
    pub a: PA,
    pub b: PB,
    pub c: PC,
    pub d: PD,
}

pub fn or4<'a, PA: Parser<'a>, PB: Parser<'a>, PC: Parser<'a>, PD: Parser<'a>>(a: PA, b: PB, c: PC, d: PD) -> (r: Alt4<PA, PB, PC, PD>)
    ensures
        r == (Alt4 { a, b, c, d }),
{
    Alt4 { a, b, c, d }
}

impl<'a, PA: Parser<'a>, PB: Parser<'a>, PC: Parser<'a>, PD: Parser<'a>> Parser<'a> for Alt4<PA, PB, PC, PD> {
    type Val = Or4<PA::Val, PB::Val, PC::Val, PD::Val>;

    open spec fn ready(&self) -> bool {
        self.a.ready() && self.b.ready() && self.c.ready() && self.d.ready()
    }

    open spec fn outcome(&self, inp: ParserInput<'a>, out: POut<'a, Or4<PA::Val, PB::Val, PC::Val, PD::Val>>) -> bool {
        exists|r0: POut<'a, PA::Val>|
            #[trigger] self.a.outcome(inp, r0) && match r0 {
                Ok(q) => out == with_val(q, Or4::<PA::Val, PB::Val, PC::Val, PD::Val>::A(q.val)),
                Err(_) =>
                    exists|r1: POut<'a, PB::Val>|
                        #[trigger] self.b.outcome(inp, r1) && match r1 {
                            Ok(q) => out == with_val(q, Or4::<PA::Val, PB::Val, PC::Val, PD::Val>::B(q.val)),
                            Err(_) =>
                                exists|r2: POut<'a, PC::Val>|
                                    #[trigger] self.c.outcome(inp, r2) && match r2 {
                                        Ok(q) => out == with_val(q, Or4::<PA::Val, PB::Val, PC::Val, PD::Val>::C(q.val)),
                                        Err(_) =>
                                            exists|r3: POut<'a, PD::Val>|
                                                #[trigger] self.d.outcome(inp, r3) && match r3 {
                                                    Ok(q) => out == with_val(q, Or4::<PA::Val, PB::Val, PC::Val, PD::Val>::D(q.val)),
                                                    Err(e) => out == failed::<Or4<PA::Val, PB::Val, PC::Val, PD::Val>>(e),
                                                },
                                    },
                        },
            }
    }

    fn parse(&self, inp: &ParserInput<'a>) -> (out: POut<'a, Or4<PA::Val, PB::Val, PC::Val, PD::Val>>) {
        match self.a.parse(inp) {
            Ok(q) => Ok(PRes { val: Or4::A(q.val), pos: q.pos, remainder: q.remainder }),
            Err(_) =>
                match self.b.parse(inp) {
                    Ok(q) => Ok(PRes { val: Or4::B(q.val), pos: q.pos, remainder: q.remainder }),
                    Err(_) =>
                        match self.c.parse(inp) {
                            Ok(q) => Ok(PRes { val: Or4::C(q.val), pos: q.pos, remainder: q.remainder }),
                            Err(_) =>
                                match self.d.parse(inp) {
                                    Ok(q) => Ok(PRes { val: Or4::D(q.val), pos: q.pos, remainder: q.remainder }),
                                    Err(e) => Err(e),
                                },
                        },
                },
        }
    }
}

/// Ordered choice among five parsers of any value types, all tried on the
/// same input; the first success gives the value, tagged with its branch.
#[derive(Clone)]
pub struct Alt5<PA, PB, PC, PD, PE> {
    pub a: PA,
    pub b: PB,
    pub c: PC,
    pub d: PD,
    pub e: PE,
}

pub fn or5<'a, PA: Parser<'a>, PB: Parser<'a>, PC: Parser<'a>, PD: Parser<'a>, PE: Parser<'a>>(a: PA, b: PB, c: PC, d: PD, e: PE) -> (r: Alt5<PA, PB, PC, PD, PE>)
    ensures
        r == (Alt5 { a, b, c, d, e }),
{
    Alt5 { a, b, c, d, e }
}

impl<'a, PA: Parser<'a>, PB: Parser<'a>, PC: Parser<'a>, PD: Parser<'a>, PE: Parser<'a>> Parser<'a> for Alt5<PA, PB, PC, PD, PE> {
    type Val = Or5<PA::Val, PB::Val, PC::Val, PD::Val, PE::Val>;

    open spec fn ready(&self) -> bool {
        self.a.ready() && self.b.ready() && self.c.ready() && self.d.ready() && self.e.ready()
    }

    open spec fn outcome(&self, inp: ParserInput<'a>, out: POut<'a, Or5<PA::Val, PB::Val, PC::Val, PD::Val, PE::Val>>) -> bool {
        exists|r0: POut<'a, PA::Val>|
            #[trigger] self.a.outcome(inp, r0) && match r0 {
                Ok(q) => out == with_val(q, Or5::<PA::Val, PB::Val, PC::Val, PD::Val, PE::Val>::A(q.val)),
                Err(_) =>
                    exists|r1: POut<'a, PB::Val>|
                        #[trigger] self.b.outcome(inp, r1) && match r1 {
                            Ok(q) => out == with_val(q, Or5::<PA::Val, PB::Val, PC::Val, PD::Val, PE::Val>::B(q.val)),
                            Err(_) =>
                                exists|r2: POut<'a, PC::Val>|
                                    #[trigger] self.c.outcome(inp, r2) && match r2 {
                                        Ok(q) => out == with_val(q, Or5::<PA::Val, PB::Val, PC::Val, PD::Val, PE::Val>::C(q.val)),
                                        Err(_) =>
                                            exists|r3: POut<'a, PD::Val>|
                                                #[trigger] self.d.outcome(inp, r3) && match r3 {
                                                    Ok(q) => out == with_val(q, Or5::<PA::Val, PB::Val, PC::Val, PD::Val, PE::Val>::D(q.val)),
                                                    Err(_) =>
                                                        exists|r4: POut<'a, PE::Val>|
                                                            #[trigger] self.e.outcome(inp, r4) && match r4 {
                                                                Ok(q) => out == with_val(q, Or5::<PA::Val, PB::Val, PC::Val, PD::Val, PE::Val>::E(q.val)),
                                                                Err(e) => out == failed::<Or5<PA::Val, PB::Val, PC::Val, PD::Val, PE::Val>>(e),
                                                            },
                                                },
                                    },
                        },
            }
    }

    fn parse(&self, inp: &ParserInput<'a>) -> (out: POut<'a, Or5<PA::Val, PB::Val, PC::Val, PD::Val, PE::Val>>) {
        match self.a.parse(inp) {
            Ok(q) => Ok(PRes { val: Or5::A(q.val), pos: q.pos, remainder: q.remainder }),
            Err(_) =>
                match self.b.parse(inp) {
                    Ok(q) => Ok(PRes { val: Or5::B(q.val), pos: q.pos, remainder: q.remainder }),
                    Err(_) =>
                        match self.c.parse(inp) {
                            Ok(q) => Ok(PRes { val: Or5::C(q.val), pos: q.pos, remainder: q.remainder }),
                            Err(_) =>
                                match self.d.parse(inp) {
                                    Ok(q) => Ok(PRes { val: Or5::D(q.val), pos: q.pos, remainder: q.remainder }),
                                    Err(_) =>
                                        match self.e.parse(inp) {
                                            Ok(q) => Ok(PRes { val: Or5::E(q.val), pos: q.pos, remainder: q.remainder }),
                                            Err(e) => Err(e),
                                        },
                                },
                        },
                },
        }
    }
}

/// Ordered choice among six parsers of any value types, all tried on the
/// same input; the first success gives the value, tagged with its branch.
#[derive(Clone)]
pub struct Alt6<PA, PB, PC, PD, PE, PF> {
    pub a: PA,
    pub b: PB,
    pub c: PC,
    pub d: PD,
    pub e: PE,
    pub f: PF,
}

pub fn or6<'a, PA: Parser<'a>, PB: Parser<'a>, PC: Parser<'a>, PD: Parser<'a>, PE: Parser<'a>, PF: Parser<'a>>(a: PA, b: PB, c: PC, d: PD, e: PE, f: PF) -> (r: Alt6<PA, PB, PC, PD, PE, PF>)
    ensures
        r == (Alt6 { a, b, c, d, e, f }),
{
    Alt6 { a, b, c, d, e, f }
}

impl<'a, PA: Parser<'a>, PB: Parser<'a>, PC: Parser<'a>, PD: Parser<'a>, PE: Parser<'a>, PF: Parser<'a>> Parser<'a> for Alt6<PA, PB, PC, PD, PE, PF> {
    type Val = Or6<PA::Val, PB::Val, PC::Val, PD::Val, PE::Val, PF::Val>;

    open spec fn ready(&self) -> bool {
        self.a.ready() && self.b.ready() && self.c.ready() && self.d.ready() && self.e.ready() && self.f.ready()
    }

    open spec fn outcome(&self, inp: ParserInput<'a>, out: POut<'a, Or6<PA::Val, PB::Val, PC::Val, PD::Val, PE::Val, PF::Val>>) -> bool {
        exists|r0: POut<'a, PA::Val>|
            #[trigger] self.a.outcome(inp, r0) && match r0 {
                Ok(q) => out == with_val(q, Or6::<PA::Val, PB::Val, PC::Val, PD::Val, PE::Val, PF::Val>::A(q.val)),
                Err(_) =>
                    exists|r1: POut<'a, PB::Val>|
                        #[trigger] self.b.outcome(inp, r1) && match r1 {
                            Ok(q) => out == with_val(q, Or6::<PA::Val, PB::Val, PC::Val, PD::Val, PE::Val, PF::Val>::B(q.val)),
                            Err(_) =>
                                exists|r2: POut<'a, PC::Val>|
                                    #[trigger] self.c.outcome(inp, r2) && match r2 {
                                        Ok(q) => out == with_val(q, Or6::<PA::Val, PB::Val, PC::Val, PD::Val, PE::Val, PF::Val>::C(q.val)),
                                        Err(_) =>
                                            exists|r3: POut<'a, PD::Val>|
                                                #[trigger] self.d.outcome(inp, r3) && match r3 {
                                                    Ok(q) => out == with_val(q, Or6::<PA::Val, PB::Val, PC::Val, PD::Val, PE::Val, PF::Val>::D(q.val)),
                                                    Err(_) =>
                                                        exists|r4: POut<'a, PE::Val>|
                                                            #[trigger] self.e.outcome(inp, r4) && match r4 {
                                                                Ok(q) => out == with_val(q, Or6::<PA::Val, PB::Val, PC::Val, PD::Val, PE::Val, PF::Val>::E(q.val)),
                                                                Err(_) =>
                                                                    exists|r5: POut<'a, PF::Val>|
                                                                        #[trigger] self.f.outcome(inp, r5) && match r5 {
                                                                            Ok(q) => out == with_val(q, Or6::<PA::Val, PB::Val, PC::Val, PD::Val, PE::Val, PF::Val>::F(q.val)),
                                                                            Err(e) => out == failed::<Or6<PA::Val, PB::Val, PC::Val, PD::Val, PE::Val, PF::Val>>(e),
                                                                        },
                                                            },
                                                },
                                    },
                        },
            }
    }

    fn parse(&self, inp: &ParserInput<'a>) -> (out: POut<'a, Or6<PA::Val, PB::Val, PC::Val, PD::Val, PE::Val, PF::Val>>) {
        match self.a.parse(inp) {
            Ok(q) => Ok(PRes { val: Or6::A(q.val), pos: q.pos, remainder: q.remainder }),
            Err(_) =>
                match self.b.parse(inp) {
                    Ok(q) => Ok(PRes { val: Or6::B(q.val), pos: q.pos, remainder: q.remainder }),
                    Err(_) =>
                        match self.c.parse(inp) {
                            Ok(q) => Ok(PRes { val: Or6::C(q.val), pos: q.pos, remainder: q.remainder }),
                            Err(_) =>
                                match self.d.parse(inp) {
                                    Ok(q) => Ok(PRes { val: Or6::D(q.val), pos: q.pos, remainder: q.remainder }),
                                    Err(_) =>
                                        match self.e.parse(inp) {
                                            Ok(q) => Ok(PRes { val: Or6::E(q.val), pos: q.pos, remainder: q.remainder }),
                                            Err(_) =>
                                                match self.f.parse(inp) {
                                                    Ok(q) => Ok(PRes { val: Or6::F(q.val), pos: q.pos, remainder: q.remainder }),
                                                    Err(e) => Err(e),
                                                },
                                        },
                                },
                        },
                },
        }
    }
}

/// Ordered choice among seven parsers of any value types, all tried on the
/// same input; the first success gives the value, tagged with its branch.
#[derive(Clone)]
pub struct Alt7<PA, PB, PC, PD, PE, PF, PG> {
    pub a: PA,
    pub b: PB,
    pub c: PC,
    pub d: PD,
    pub e: PE,
    pub f: PF,
    pub g: PG,
}

pub fn or7<'a, PA: Parser<'a>, PB: Parser<'a>, PC: Parser<'a>, PD: Parser<'a>, PE: Parser<'a>, PF: Parser<'a>, PG: Parser<'a>>(a: PA, b: PB, c: PC, d: PD, e: PE, f: PF, g: PG) -> (r: Alt7<PA, PB, PC, PD, PE, PF, PG>)
    ensures
        r == (Alt7 { a, b, c, d, e, f, g }),
{
    Alt7 { a, b, c, d, e, f, g }
}

impl<'a, PA: Parser<'a>, PB: Parser<'a>, PC: Parser<'a>, PD: Parser<'a>, PE: Parser<'a>, PF: Parser<'a>, PG: Parser<'a>> Parser<'a> for Alt7<PA, PB, PC, PD, PE, PF, PG> {
    type Val = Or7<PA::Val, PB::Val, PC::Val, PD::Val, PE::Val, PF::Val, PG::Val>;

    open spec fn ready(&self) -> bool {
        self.a.ready() && self.b.ready() && self.c.ready() && self.d.ready() && self.e.ready() && self.f.ready() && self.g.ready()
    }

    open spec fn outcome(&self, inp: ParserInput<'a>, out: POut<'a, Or7<PA::Val, PB::Val, PC::Val, PD::Val, PE::Val, PF::Val, PG::Val>>) -> bool {
        exists|r0: POut<'a, PA::Val>|
            #[trigger] self.a.outcome(inp, r0) && match r0 {
                Ok(q) => out == with_val(q, Or7::<PA::Val, PB::Val, PC::Val, PD::Val, PE::Val, PF::Val, PG::Val>::A(q.val)),
                Err(_) =>
                    exists|r1: POut<'a, PB::Val>|
                        #[trigger] self.b.outcome(inp, r1) && match r1 {
                            Ok(q) => out == with_val(q, Or7::<PA::Val, PB::Val, PC::Val, PD::Val, PE::Val, PF::Val, PG::Val>::B(q.val)),
                            Err(_) =>
                                exists|r2: POut<'a, PC::Val>|
                                    #[trigger] self.c.outcome(inp, r2) && match r2 {
                                        Ok(q) => out == with_val(q, Or7::<PA::Val, PB::Val, PC::Val, PD::Val, PE::Val, PF::Val, PG::Val>::C(q.val)),
                                        Err(_) =>
                                            exists|r3: POut<'a, PD::Val>|
                                                #[trigger] self.d.outcome(inp, r3) && match r3 {
                                                    Ok(q) => out == with_val(q, Or7::<PA::Val, PB::Val, PC::Val, PD::Val, PE::Val, PF::Val, PG::Val>::D(q.val)),
                                                    Err(_) =>
                                                        exists|r4: POut<'a, PE::Val>|
                                                            #[trigger] self.e.outcome(inp, r4) && match r4 {
                                                                Ok(q) => out == with_val(q, Or7::<PA::Val, PB::Val, PC::Val, PD::Val, PE::Val, PF::Val, PG::Val>::E(q.val)),
                                                                Err(_) =>
                                                                    exists|r5: POut<'a, PF::Val>|
                                                                        #[trigger] self.f.outcome(inp, r5) && match r5 {
                                                                            Ok(q) => out == with_val(q, Or7::<PA::Val, PB::Val, PC::Val, PD::Val, PE::Val, PF::Val, PG::Val>::F(q.val)),
                                                                            Err(_) =>
                                                                                exists|r6: POut<'a, PG::Val>|
                                                                                    #[trigger] self.g.outcome(inp, r6) && match r6 {
                                                                                        Ok(q) => out == with_val(q, Or7::<PA::Val, PB::Val, PC::Val, PD::Val, PE::Val, PF::Val, PG::Val>::G(q.val)),
                                                                                        Err(e) => out == failed::<Or7<PA::Val, PB::Val, PC::Val, PD::Val, PE::Val, PF::Val, PG::Val>>(e),
                                                                                    },
                                                                        },
                                                            },
                                                },
                                    },
                        },
            }
    }

    fn parse(&self, inp: &ParserInput<'a>) -> (out: POut<'a, Or7<PA::Val, PB::Val, PC::Val, PD::Val, PE::Val, PF::Val, PG::Val>>) {
        match self.a.parse(inp) {
            Ok(q) => Ok(PRes { val: Or7::A(q.val), pos: q.pos, remainder: q.remainder }),
            Err(_) =>
                match self.b.parse(inp) {
                    Ok(q) => Ok(PRes { val: Or7::B(q.val), pos: q.pos, remainder: q.remainder }),
                    Err(_) =>
                        match self.c.parse(inp) {
                            Ok(q) => Ok(PRes { val: Or7::C(q.val), pos: q.pos, remainder: q.remainder }),
                            Err(_) =>
                                match self.d.parse(inp) {
                                    Ok(q) => Ok(PRes { val: Or7::D(q.val), pos: q.pos, remainder: q.remainder }),
                                    Err(_) =>
                                        match self.e.parse(inp) {
                                            Ok(q) => Ok(PRes { val: Or7::E(q.val), pos: q.pos, remainder: q.remainder }),
                                            Err(_) =>
                                                match self.f.parse(inp) {
                                                    Ok(q) => Ok(PRes { val: Or7::F(q.val), pos: q.pos, remainder: q.remainder }),
                                                    Err(_) =>
                                                        match self.g.parse(inp) {
                                                            Ok(q) => Ok(PRes { val: Or7::G(q.val), pos: q.pos, remainder: q.remainder }),
                                                            Err(e) => Err(e),
                                                        },
                                                },
                                        },
                                },
                        },
                },
        }
    }
}

/// Ordered choice among eight parsers of any value types, all tried on the
/// same input; the first success gives the value, tagged with its branch.
#[derive(Clone)]
pub struct Alt8<PA, PB, PC, PD, PE, PF, PG, PH> {
    pub a: PA,
    pub b: PB,
    pub c: PC,
    pub d: PD,
    pub e: PE,
    pub f: PF,
    pub g: PG,
    pub h: PH,
}

pub fn or8<'a, PA: Parser<'a>, PB: Parser<'a>, PC: Parser<'a>, PD: Parser<'a>, PE: Parser<'a>, PF: Parser<'a>, PG: Parser<'a>, PH: Parser<'a>>(a: PA, b: PB, c: PC, d: PD, e: PE, f: PF, g: PG, h: PH) -> (r: Alt8<PA, PB, PC, PD, PE, PF, PG, PH>)
    ensures
        r == (Alt8 { a, b, c, d, e, f, g, h }),
{
    Alt8 { a, b, c, d, e, f, g, h }
}

impl<'a, PA: Parser<'a>, PB: Parser<'a>, PC: Parser<'a>, PD: Parser<'a>, PE: Parser<'a>, PF: Parser<'a>, PG: Parser<'a>, PH: Parser<'a>> Parser<'a> for Alt8<PA, PB, PC, PD, PE, PF, PG, PH> {
    type Val = Or8<PA::Val, PB::Val, PC::Val, PD::Val, PE::Val, PF::Val, PG::Val, PH::Val>;

    open spec fn ready(&self) -> bool {
        self.a.ready() && self.b.ready() && self.c.ready() && self.d.ready() && self.e.ready() && self.f.ready() && self.g.ready() && self.h.ready()
    }

    open spec fn outcome(&self, inp: ParserInput<'a>, out: POut<'a, Or8<PA::Val, PB::Val, PC::Val, PD::Val, PE::Val, PF::Val, PG::Val, PH::Val>>) -> bool {
        exists|r0: POut<'a, PA::Val>|
            #[trigger] self.a.outcome(inp, r0) && match r0 {
                Ok(q) => out == with_val(q, Or8::<PA::Val, PB::Val, PC::Val, PD::Val, PE::Val, PF::Val, PG::Val, PH::Val>::A(q.val)),
                Err(_) =>
                    exists|r1: POut<'a, PB::Val>|
                        #[trigger] self.b.outcome(inp, r1) && match r1 {
                            Ok(q) => out == with_val(q, Or8::<PA::Val, PB::Val, PC::Val, PD::Val, PE::Val, PF::Val, PG::Val, PH::Val>::B(q.val)),
                            Err(_) =>
                                exists|r2: POut<'a, PC::Val>|
                                    #[trigger] self.c.outcome(inp, r2) && match r2 {
                                        Ok(q) => out == with_val(q, Or8::<PA::Val, PB::Val, PC::Val, PD::Val, PE::Val, PF::Val, PG::Val, PH::Val>::C(q.val)),
                                        Err(_) =>
                                            exists|r3: POut<'a, PD::Val>|
                                                #[trigger] self.d.outcome(inp, r3) && match r3 {
                                                    Ok(q) => out == with_val(q, Or8::<PA::Val, PB::Val, PC::Val, PD::Val, PE::Val, PF::Val, PG::Val, PH::Val>::D(q.val)),
                                                    Err(_) =>
                                                        exists|r4: POut<'a, PE::Val>|
                                                            #[trigger] self.e.outcome(inp, r4) && match r4 {
                                                                Ok(q) => out == with_val(q, Or8::<PA::Val, PB::Val, PC::Val, PD::Val, PE::Val, PF::Val, PG::Val, PH::Val>::E(q.val)),
                                                                Err(_) =>
                                                                    exists|r5: POut<'a, PF::Val>|
                                                                        #[trigger] self.f.outcome(inp, r5) && match r5 {
                                                                            Ok(q) => out == with_val(q, Or8::<PA::Val, PB::Val, PC::Val, PD::Val, PE::Val, PF::Val, PG::Val, PH::Val>::F(q.val)),
                                                                            Err(_) =>
                                                                                exists|r6: POut<'a, PG::Val>|
                                                                                    #[trigger] self.g.outcome(inp, r6) && match r6 {
                                                                                        Ok(q) => out == with_val(q, Or8::<PA::Val, PB::Val, PC::Val, PD::Val, PE::Val, PF::Val, PG::Val, PH::Val>::G(q.val)),
                                                                                        Err(_) =>
                                                                                            exists|r7: POut<'a, PH::Val>|
                                                                                                #[trigger] self.h.outcome(inp, r7) && match r7 {
                                                                                                    Ok(q) => out == with_val(q, Or8::<PA::Val, PB::Val, PC::Val, PD::Val, PE::Val, PF::Val, PG::Val, PH::Val>::H(q.val)),
                                                                                                    Err(e) => out == failed::<Or8<PA::Val, PB::Val, PC::Val, PD::Val, PE::Val, PF::Val, PG::Val, PH::Val>>(e),
                                                                                                },
                                                                                    },
                                                                        },
                                                            },
                                                },
                                    },
                        },
            }
    }

    fn parse(&self, inp: &ParserInput<'a>) -> (out: POut<'a, Or8<PA::Val, PB::Val, PC::Val, PD::Val, PE::Val, PF::Val, PG::Val, PH::Val>>) {
        match self.a.parse(inp) {
            Ok(q) => Ok(PRes { val: Or8::A(q.val), pos: q.pos, remainder: q.remainder }),
            Err(_) =>
                match self.b.parse(inp) {
                    Ok(q) => Ok(PRes { val: Or8::B(q.val), pos: q.pos, remainder: q.remainder }),
                    Err(_) =>
                        match self.c.parse(inp) {
                            Ok(q) => Ok(PRes { val: Or8::C(q.val), pos: q.pos, remainder: q.remainder }),
                            Err(_) =>
                                match self.d.parse(inp) {
                                    Ok(q) => Ok(PRes { val: Or8::D(q.val), pos: q.pos, remainder: q.remainder }),
                                    Err(_) =>
                                        match self.e.parse(inp) {
                                            Ok(q) => Ok(PRes { val: Or8::E(q.val), pos: q.pos, remainder: q.remainder }),
                                            Err(_) =>
                                                match self.f.parse(inp) {
                                                    Ok(q) => Ok(PRes { val: Or8::F(q.val), pos: q.pos, remainder: q.remainder }),
                                                    Err(_) =>
                                                        match self.g.parse(inp) {
                                                            Ok(q) => Ok(PRes { val: Or8::G(q.val), pos: q.pos, remainder: q.remainder }),
                                                            Err(_) =>
                                                                match self.h.parse(inp) {
                                                                    Ok(q) => Ok(PRes { val: Or8::H(q.val), pos: q.pos, remainder: q.remainder }),
                                                                    Err(e) => Err(e),
                                                                },
                                                        },
                                                },
                                        },
                                },
                        },
                },
        }
    }
}

/// Ordered choice among nine parsers of any value types, all tried on the
/// same input; the first success gives the value, tagged with its branch.
#[derive(Clone)]
pub struct Alt9<PA, PB, PC, PD, PE, PF, PG, PH, PI> {
    pub a: PA,
    pub b: PB,
    pub c: PC,
    pub d: PD,
    pub e: PE,
    pub f: PF,
    pub g: PG,
    pub h: PH,
    pub i: PI,
}

pub fn or9<'a, PA: Parser<'a>, PB: Parser<'a>, PC: Parser<'a>, PD: Parser<'a>, PE: Parser<'a>, PF: Parser<'a>, PG: Parser<'a>, PH: Parser<'a>, PI: Parser<'a>>(a: PA, b: PB, c: PC, d: PD, e: PE, f: PF, g: PG, h: PH, i: PI) -> (r: Alt9<PA, PB, PC, PD, PE, PF, PG, PH, PI>)
    ensures
        r == (Alt9 { a, b, c, d, e, f, g, h, i }),
{
    Alt9 { a, b, c, d, e, f, g, h, i }
}

impl<'a, PA: Parser<'a>, PB: Parser<'a>, PC: Parser<'a>, PD: Parser<'a>, PE: Parser<'a>, PF: Parser<'a>, PG: Parser<'a>, PH: Parser<'a>, PI: Parser<'a>> Parser<'a> for Alt9<PA, PB, PC, PD, PE, PF, PG, PH, PI> {
    type Val = Or9<PA::Val, PB::Val, PC::Val, PD::Val, PE::Val, PF::Val, PG::Val, PH::Val, PI::Val>;

    open spec fn ready(&self) -> bool {
        self.a.ready() && self.b.ready() && self.c.ready() && self.d.ready() && self.e.ready() && self.f.ready() && self.g.ready() && self.h.ready() && self.i.ready()
    }

    open spec fn outcome(&self, inp: ParserInput<'a>, out: POut<'a, Or9<PA::Val, PB::Val, PC::Val, PD::Val, PE::Val, PF::Val, PG::Val, PH::Val, PI::Val>>) -> bool {
        exists|r0: POut<'a, PA::Val>|
            #[trigger] self.a.outcome(inp, r0) && match r0 {
                Ok(q) => out == with_val(q, Or9::<PA::Val, PB::Val, PC::Val, PD::Val, PE::Val, PF::Val, PG::Val, PH::Val, PI::Val>::A(q.val)),
                Err(_) =>
                    exists|r1: POut<'a, PB::Val>|
                        #[trigger] self.b.outcome(inp, r1) && match r1 {
                            Ok(q) => out == with_val(q, Or9::<PA::Val, PB::Val, PC::Val, PD::Val, PE::Val, PF::Val, PG::Val, PH::Val, PI::Val>::B(q.val)),
                            Err(_) =>
                                exists|r2: POut<'a, PC::Val>|
                                    #[trigger] self.c.outcome(inp, r2) && match r2 {
                                        Ok(q) => out == with_val(q, Or9::<PA::Val, PB::Val, PC::Val, PD::Val, PE::Val, PF::Val, PG::Val, PH::Val, PI::Val>::C(q.val)),
                                        Err(_) =>
                                            exists|r3: POut<'a, PD::Val>|
                                                #[trigger] self.d.outcome(inp, r3) && match r3 {
                                                    Ok(q) => out == with_val(q, Or9::<PA::Val, PB::Val, PC::Val, PD::Val, PE::Val, PF::Val, PG::Val, PH::Val, PI::Val>::D(q.val)),
                                                    Err(_) =>
                                                        exists|r4: POut<'a, PE::Val>|
                                                            #[trigger] self.e.outcome(inp, r4) && match r4 {
                                                                Ok(q) => out == with_val(q, Or9::<PA::Val, PB::Val, PC::Val, PD::Val, PE::Val, PF::Val, PG::Val, PH::Val, PI::Val>::E(q.val)),
                                                                Err(_) =>
                                                                    exists|r5: POut<'a, PF::Val>|
                                                                        #[trigger] self.f.outcome(inp, r5) && match r5 {
                                                                            Ok(q) => out == with_val(q, Or9::<PA::Val, PB::Val, PC::Val, PD::Val, PE::Val, PF::Val, PG::Val, PH::Val, PI::Val>::F(q.val)),
                                                                            Err(_) =>
                                                                                exists|r6: POut<'a, PG::Val>|
                                                                                    #[trigger] self.g.outcome(inp, r6) && match r6 {
                                                                                        Ok(q) => out == with_val(q, Or9::<PA::Val, PB::Val, PC::Val, PD::Val, PE::Val, PF::Val, PG::Val, PH::Val, PI::Val>::G(q.val)),
                                                                                        Err(_) =>
                                                                                            exists|r7: POut<'a, PH::Val>|
                                                                                                #[trigger] self.h.outcome(inp, r7) && match r7 {
                                                                                                    Ok(q) => out == with_val(q, Or9::<PA::Val, PB::Val, PC::Val, PD::Val, PE::Val, PF::Val, PG::Val, PH::Val, PI::Val>::H(q.val)),
                                                                                                    Err(_) =>
                                                                                                        exists|r8: POut<'a, PI::Val>|
                                                                                                            #[trigger] self.i.outcome(inp, r8) && match r8 {
                                                                                                                Ok(q) => out == with_val(q, Or9::<PA::Val, PB::Val, PC::Val, PD::Val, PE::Val, PF::Val, PG::Val, PH::Val, PI::Val>::I(q.val)),
                                                                                                                Err(e) => out == failed::<Or9<PA::Val, PB::Val, PC::Val, PD::Val, PE::Val, PF::Val, PG::Val, PH::Val, PI::Val>>(e),
                                                                                                            },
                                                                                                },
                                                                                    },
                                                                        },
                                                            },
                                                },
                                    },
                        },
            }
    }

    fn parse(&self, inp: &ParserInput<'a>) -> (out: POut<'a, Or9<PA::Val, PB::Val, PC::Val, PD::Val, PE::Val, PF::Val, PG::Val, PH::Val, PI::Val>>) {
        match self.a.parse(inp) {
            Ok(q) => Ok(PRes { val: Or9::A(q.val), pos: q.pos, remainder: q.remainder }),
            Err(_) =>
                match self.b.parse(inp) {
                    Ok(q) => Ok(PRes { val: Or9::B(q.val), pos: q.pos, remainder: q.remainder }),
                    Err(_) =>
                        match self.c.parse(inp) {
                            Ok(q) => Ok(PRes { val: Or9::C(q.val), pos: q.pos, remainder: q.remainder }),
                            Err(_) =>
                                match self.d.parse(inp) {
                                    Ok(q) => Ok(PRes { val: Or9::D(q.val), pos: q.pos, remainder: q.remainder }),
                                    Err(_) =>
                                        match self.e.parse(inp) {
                                            Ok(q) => Ok(PRes { val: Or9::E(q.val), pos: q.pos, remainder: q.remainder }),
                                            Err(_) =>
                                                match self.f.parse(inp) {
                                                    Ok(q) => Ok(PRes { val: Or9::F(q.val), pos: q.pos, remainder: q.remainder }),
                                                    Err(_) =>
                                                        match self.g.parse(inp) {
                                                            Ok(q) => Ok(PRes { val: Or9::G(q.val), pos: q.pos, remainder: q.remainder }),
                                                            Err(_) =>
                                                                match self.h.parse(inp) {
                                                                    Ok(q) => Ok(PRes { val: Or9::H(q.val), pos: q.pos, remainder: q.remainder }),
                                                                    Err(_) =>
                                                                        match self.i.parse(inp) {
                                                                            Ok(q) => Ok(PRes { val: Or9::I(q.val), pos: q.pos, remainder: q.remainder }),
                                                                            Err(e) => Err(e),
                                                                        },
                                                                },
                                                        },
                                                },
                                        },
                                },
                        },
                },
        }
    }
}

/// Ordered choice among ten parsers of any value types, all tried on the
/// same input; the first success gives the value, tagged with its branch.
#[derive(Clone)]
pub struct Alt10<PA, PB, PC, PD, PE, PF, PG, PH, PI, PJ> {
    pub a: PA,
    pub b: PB,
    pub c: PC,
    pub d: PD,
    pub e: PE,
    pub f: PF,
    pub g: PG,
    pub h: PH,
    pub i: PI,
    pub j: PJ,
}

pub fn or10<'a, PA: Parser<'a>, PB: Parser<'a>, PC: Parser<'a>, PD: Parser<'a>, PE: Parser<'a>, PF: Parser<'a>, PG: Parser<'a>, PH: Parser<'a>, PI: Parser<'a>, PJ: Parser<'a>>(a: PA, b: PB, c: PC, d: PD, e: PE, f: PF, g: PG, h: PH, i: PI, j: PJ) -> (r: Alt10<PA, PB, PC, PD, PE, PF, PG, PH, PI, PJ>)
    ensures
        r == (Alt10 { a, b, c, d, e, f, g, h, i, j }),
{
    Alt10 { a, b, c, d, e, f, g, h, i, j }
}

impl<'a, PA: Parser<'a>, PB: Parser<'a>, PC: Parser<'a>, PD: Parser<'a>, PE: Parser<'a>, PF: Parser<'a>, PG: Parser<'a>, PH: Parser<'a>, PI: Parser<'a>, PJ: Parser<'a>> Parser<'a> for Alt10<PA, PB, PC, PD, PE, PF, PG, PH, PI, PJ> {
    type Val = Or10<PA::Val, PB::Val, PC::Val, PD::Val, PE::Val, PF::Val, PG::Val, PH::Val, PI::Val, PJ::Val>;

    open spec fn ready(&self) -> bool {
        self.a.ready() && self.b.ready() && self.c.ready() && self.d.ready() && self.e.ready() && self.f.ready() && self.g.ready() && self.h.ready() && self.i.ready() && self.j.ready()
    }

    open spec fn outcome(&self, inp: ParserInput<'a>, out: POut<'a, Or10<PA::Val, PB::Val, PC::Val, PD::Val, PE::Val, PF::Val, PG::Val, PH::Val, PI::Val, PJ::Val>>) -> bool {
        exists|r0: POut<'a, PA::Val>|
            #[trigger] self.a.outcome(inp, r0) && match r0 {
                Ok(q) => out == with_val(q, Or10::<PA::Val, PB::Val, PC::Val, PD::Val, PE::Val, PF::Val, PG::Val, PH::Val, PI::Val, PJ::Val>::A(q.val)),
                Err(_) =>
                    exists|r1: POut<'a, PB::Val>|
                        #[trigger] self.b.outcome(inp, r1) && match r1 {
                            Ok(q) => out == with_val(q, Or10::<PA::Val, PB::Val, PC::Val, PD::Val, PE::Val, PF::Val, PG::Val, PH::Val, PI::Val, PJ::Val>::B(q.val)),
                            Err(_) =>
                                exists|r2: POut<'a, PC::Val>|
                                    #[trigger] self.c.outcome(inp, r2) && match r2 {
                                        Ok(q) => out == with_val(q, Or10::<PA::Val, PB::Val, PC::Val, PD::Val, PE::Val, PF::Val, PG::Val, PH::Val, PI::Val, PJ::Val>::C(q.val)),
                                        Err(_) =>
                                            exists|r3: POut<'a, PD::Val>|
                                                #[trigger] self.d.outcome(inp, r3) && match r3 {
                                                    Ok(q) => out == with_val(q, Or10::<PA::Val, PB::Val, PC::Val, PD::Val, PE::Val, PF::Val, PG::Val, PH::Val, PI::Val, PJ::Val>::D(q.val)),
                                                    Err(_) =>
                                                        exists|r4: POut<'a, PE::Val>|
                                                            #[trigger] self.e.outcome(inp, r4) && match r4 {
                                                                Ok(q) => out == with_val(q, Or10::<PA::Val, PB::Val, PC::Val, PD::Val, PE::Val, PF::Val, PG::Val, PH::Val, PI::Val, PJ::Val>::E(q.val)),
                                                                Err(_) =>
                                                                    exists|r5: POut<'a, PF::Val>|
                                                                        #[trigger] self.f.outcome(inp, r5) && match r5 {
                                                                            Ok(q) => out == with_val(q, Or10::<PA::Val, PB::Val, PC::Val, PD::Val, PE::Val, PF::Val, PG::Val, PH::Val, PI::Val, PJ::Val>::F(q.val)),
                                                                            Err(_) =>
                                                                                exists|r6: POut<'a, PG::Val>|
                                                                                    #[trigger] self.g.outcome(inp, r6) && match r6 {
                                                                                        Ok(q) => out == with_val(q, Or10::<PA::Val, PB::Val, PC::Val, PD::Val, PE::Val, PF::Val, PG::Val, PH::Val, PI::Val, PJ::Val>::G(q.val)),
                                                                                        Err(_) =>
                                                                                            exists|r7: POut<'a, PH::Val>|
                                                                                                #[trigger] self.h.outcome(inp, r7) && match r7 {
                                                                                                    Ok(q) => out == with_val(q, Or10::<PA::Val, PB::Val, PC::Val, PD::Val, PE::Val, PF::Val, PG::Val, PH::Val, PI::Val, PJ::Val>::H(q.val)),
                                                                                                    Err(_) =>
                                                                                                        exists|r8: POut<'a, PI::Val>|
                                                                                                            #[trigger] self.i.outcome(inp, r8) && match r8 {
                                                                                                                Ok(q) => out == with_val(q, Or10::<PA::Val, PB::Val, PC::Val, PD::Val, PE::Val, PF::Val, PG::Val, PH::Val, PI::Val, PJ::Val>::I(q.val)),
                                                                                                                Err(_) =>
                                                                                                                    exists|r9: POut<'a, PJ::Val>|
                                                                                                                        #[trigger] self.j.outcome(inp, r9) && match r9 {
                                                                                                                            Ok(q) => out == with_val(q, Or10::<PA::Val, PB::Val, PC::Val, PD::Val, PE::Val, PF::Val, PG::Val, PH::Val, PI::Val, PJ::Val>::J(q.val)),
                                                                                                                            Err(e) => out == failed::<Or10<PA::Val, PB::Val, PC::Val, PD::Val, PE::Val, PF::Val, PG::Val, PH::Val, PI::Val, PJ::Val>>(e),
                                                                                                                        },
                                                                                                            },
                                                                                                },
                                                                                    },
                                                                        },
                                                            },
                                                },
                                    },
                        },
            }
    }

    fn parse(&self, inp: &ParserInput<'a>) -> (out: POut<'a, Or10<PA::Val, PB::Val, PC::Val, PD::Val, PE::Val, PF::Val, PG::Val, PH::Val, PI::Val, PJ::Val>>) {
        match self.a.parse(inp) {
            Ok(q) => Ok(PRes { val: Or10::A(q.val), pos: q.pos, remainder: q.remainder }),
            Err(_) =>
                match self.b.parse(inp) {
                    Ok(q) => Ok(PRes { val: Or10::B(q.val), pos: q.pos, remainder: q.remainder }),
                    Err(_) =>
                        match self.c.parse(inp) {
                            Ok(q) => Ok(PRes { val: Or10::C(q.val), pos: q.pos, remainder: q.remainder }),
                            Err(_) =>
                                match self.d.parse(inp) {
                                    Ok(q) => Ok(PRes { val: Or10::D(q.val), pos: q.pos, remainder: q.remainder }),
                                    Err(_) =>
                                        match self.e.parse(inp) {
                                            Ok(q) => Ok(PRes { val: Or10::E(q.val), pos: q.pos, remainder: q.remainder }),
                                            Err(_) =>
                                                match self.f.parse(inp) {
                                                    Ok(q) => Ok(PRes { val: Or10::F(q.val), pos: q.pos, remainder: q.remainder }),
                                                    Err(_) =>
                                                        match self.g.parse(inp) {
                                                            Ok(q) => Ok(PRes { val: Or10::G(q.val), pos: q.pos, remainder: q.remainder }),
                                                            Err(_) =>
                                                                match self.h.parse(inp) {
                                                                    Ok(q) => Ok(PRes { val: Or10::H(q.val), pos: q.pos, remainder: q.remainder }),
                                                                    Err(_) =>
                                                                        match self.i.parse(inp) {
                                                                            Ok(q) => Ok(PRes { val: Or10::I(q.val), pos: q.pos, remainder: q.remainder }),
                                                                            Err(_) =>
                                                                                match self.j.parse(inp) {
                                                                                    Ok(q) => Ok(PRes { val: Or10::J(q.val), pos: q.pos, remainder: q.remainder }),
                                                                                    Err(e) => Err(e),
                                                                                },
                                                                        },
                                                                },
                                                        },
                                                },
                                        },
                                },
                        },
                },
        }
    }
}

/// Ordered choice among eleven parsers of any value types, all tried on the
/// same input; the first success gives the value, tagged with its branch.
#[derive(Clone)]
pub struct Alt11<PA, PB, PC, PD, PE, PF, PG, PH, PI, PJ, PK> {
    pub a: PA,
    pub b: PB,
    pub c: PC,
    pub d: PD,
    pub e: PE,
    pub f: PF,
    pub g: PG,
    pub h: PH,
    pub i: PI,
    pub j: PJ,
    pub k: PK,
}

pub fn or11<'a, PA: Parser<'a>, PB: Parser<'a>, PC: Parser<'a>, PD: Parser<'a>, PE: Parser<'a>, PF: Parser<'a>, PG: Parser<'a>, PH: Parser<'a>, PI: Parser<'a>, PJ: Parser<'a>, PK: Parser<'a>>(a: PA, b: PB, c: PC, d: PD, e: PE, f: PF, g: PG, h: PH, i: PI, j: PJ, k: PK) -> (r: Alt11<PA, PB, PC, PD, PE, PF, PG, PH, PI, PJ, PK>)
    ensures
        r == (Alt11 { a, b, c, d, e, f, g, h, i, j, k }),
{
    Alt11 { a, b, c, d, e, f, g, h, i, j, k }
}

impl<'a, PA: Parser<'a>, PB: Parser<'a>, PC: Parser<'a>, PD: Parser<'a>, PE: Parser<'a>, PF: Parser<'a>, PG: Parser<'a>, PH: Parser<'a>, PI: Parser<'a>, PJ: Parser<'a>, PK: Parser<'a>> Parser<'a> for Alt11<PA, PB, PC, PD, PE, PF, PG, PH, PI, PJ, PK> {
    type Val = Or11<PA::Val, PB::Val, PC::Val, PD::Val, PE::Val, PF::Val, PG::Val, PH::Val, PI::Val, PJ::Val, PK::Val>;

    open spec fn ready(&self) -> bool {
        self.a.ready() && self.b.ready() && self.c.ready() && self.d.ready() && self.e.ready() && self.f.ready() && self.g.ready() && self.h.ready() && self.i.ready() && self.j.ready() && self.k.ready()
    }

    open spec fn outcome(&self, inp: ParserInput<'a>, out: POut<'a, Or11<PA::Val, PB::Val, PC::Val, PD::Val, PE::Val, PF::Val, PG::Val, PH::Val, PI::Val, PJ::Val, PK::Val>>) -> bool {
        exists|r0: POut<'a, PA::Val>|
            #[trigger] self.a.outcome(inp, r0) && match r0 {
                Ok(q) => out == with_val(q, Or11::<PA::Val, PB::Val, PC::Val, PD::Val, PE::Val, PF::Val, PG::Val, PH::Val, PI::Val, PJ::Val, PK::Val>::A(q.val)),
                Err(_) =>
                    exists|r1: POut<'a, PB::Val>|
                        #[trigger] self.b.outcome(inp, r1) && match r1 {
                            Ok(q) => out == with_val(q, Or11::<PA::Val, PB::Val, PC::Val, PD::Val, PE::Val, PF::Val, PG::Val, PH::Val, PI::Val, PJ::Val, PK::Val>::B(q.val)),
                            Err(_) =>
                                exists|r2: POut<'a, PC::Val>|
                                    #[trigger] self.c.outcome(inp, r2) && match r2 {
                                        Ok(q) => out == with_val(q, Or11::<PA::Val, PB::Val, PC::Val, PD::Val, PE::Val, PF::Val, PG::Val, PH::Val, PI::Val, PJ::Val, PK::Val>::C(q.val)),
                                        Err(_) =>
                                            exists|r3: POut<'a, PD::Val>|
                                                #[trigger] self.d.outcome(inp, r3) && match r3 {
                                                    Ok(q) => out == with_val(q, Or11::<PA::Val, PB::Val, PC::Val, PD::Val, PE::Val, PF::Val, PG::Val, PH::Val, PI::Val, PJ::Val, PK::Val>::D(q.val)),
                                                    Err(_) =>
                                                        exists|r4: POut<'a, PE::Val>|
                                                            #[trigger] self.e.outcome(inp, r4) && match r4 {
                                                                Ok(q) => out == with_val(q, Or11::<PA::Val, PB::Val, PC::Val, PD::Val, PE::Val, PF::Val, PG::Val, PH::Val, PI::Val, PJ::Val, PK::Val>::E(q.val)),
                                                                Err(_) =>
                                                                    exists|r5: POut<'a, PF::Val>|
                                                                        #[trigger] self.f.outcome(inp, r5) && match r5 {
                                                                            Ok(q) => out == with_val(q, Or11::<PA::Val, PB::Val, PC::Val, PD::Val, PE::Val, PF::Val, PG::Val, PH::Val, PI::Val, PJ::Val, PK::Val>::F(q.val)),
                                                                            Err(_) =>
                                                                                exists|r6: POut<'a, PG::Val>|
                                                                                    #[trigger] self.g.outcome(inp, r6) && match r6 {
                                                                                        Ok(q) => out == with_val(q, Or11::<PA::Val, PB::Val, PC::Val, PD::Val, PE::Val, PF::Val, PG::Val, PH::Val, PI::Val, PJ::Val, PK::Val>::G(q.val)),
                                                                                        Err(_) =>
                                                                                            exists|r7: POut<'a, PH::Val>|
                                                                                                #[trigger] self.h.outcome(inp, r7) && match r7 {
                                                                                                    Ok(q) => out == with_val(q, Or11::<PA::Val, PB::Val, PC::Val, PD::Val, PE::Val, PF::Val, PG::Val, PH::Val, PI::Val, PJ::Val, PK::Val>::H(q.val)),
                                                                                                    Err(_) =>
                                                                                                        exists|r8: POut<'a, PI::Val>|
                                                                                                            #[trigger] self.i.outcome(inp, r8) && match r8 {
                                                                                                                Ok(q) => out == with_val(q, Or11::<PA::Val, PB::Val, PC::Val, PD::Val, PE::Val, PF::Val, PG::Val, PH::Val, PI::Val, PJ::Val, PK::Val>::I(q.val)),
                                                                                                                Err(_) =>
                                                                                                                    exists|r9: POut<'a, PJ::Val>|
                                                                                                                        #[trigger] self.j.outcome(inp, r9) && match r9 {
                                                                                                                            Ok(q) => out == with_val(q, Or11::<PA::Val, PB::Val, PC::Val, PD::Val, PE::Val, PF::Val, PG::Val, PH::Val, PI::Val, PJ::Val, PK::Val>::J(q.val)),
                                                                                                                            Err(_) =>
                                                                                                                                exists|r10: POut<'a, PK::Val>|
                                                                                                                                    #[trigger] self.k.outcome(inp, r10) && match r10 {
                                                                                                                                        Ok(q) => out == with_val(q, Or11::<PA::Val, PB::Val, PC::Val, PD::Val, PE::Val, PF::Val, PG::Val, PH::Val, PI::Val, PJ::Val, PK::Val>::K(q.val)),
                                                                                                                                        Err(e) => out == failed::<Or11<PA::Val, PB::Val, PC::Val, PD::Val, PE::Val, PF::Val, PG::Val, PH::Val, PI::Val, PJ::Val, PK::Val>>(e),
                                                                                                                                    },
                                                                                                                        },
                                                                                                            },
                                                                                                },
                                                                                    },
                                                                        },
                                                            },
                                                },
                                    },
                        },
            }
    }

    fn parse(&self, inp: &ParserInput<'a>) -> (out: POut<'a, Or11<PA::Val, PB::Val, PC::Val, PD::Val, PE::Val, PF::Val, PG::Val, PH::Val, PI::Val, PJ::Val, PK::Val>>) {
        match self.a.parse(inp) {
            Ok(q) => Ok(PRes { val: Or11::A(q.val), pos: q.pos, remainder: q.remainder }),
            Err(_) =>
                match self.b.parse(inp) {
                    Ok(q) => Ok(PRes { val: Or11::B(q.val), pos: q.pos, remainder: q.remainder }),
                    Err(_) =>
                        match self.c.parse(inp) {
                            Ok(q) => Ok(PRes { val: Or11::C(q.val), pos: q.pos, remainder: q.remainder }),
                            Err(_) =>
                                match self.d.parse(inp) {
                                    Ok(q) => Ok(PRes { val: Or11::D(q.val), pos: q.pos, remainder: q.remainder }),
                                    Err(_) =>
                                        match self.e.parse(inp) {
                                            Ok(q) => Ok(PRes { val: Or11::E(q.val), pos: q.pos, remainder: q.remainder }),
                                            Err(_) =>
                                                match self.f.parse(inp) {
                                                    Ok(q) => Ok(PRes { val: Or11::F(q.val), pos: q.pos, remainder: q.remainder }),
                                                    Err(_) =>
                                                        match self.g.parse(inp) {
                                                            Ok(q) => Ok(PRes { val: Or11::G(q.val), pos: q.pos, remainder: q.remainder }),
                                                            Err(_) =>
                                                                match self.h.parse(inp) {
                                                                    Ok(q) => Ok(PRes { val: Or11::H(q.val), pos: q.pos, remainder: q.remainder }),
                                                                    Err(_) =>
                                                                        match self.i.parse(inp) {
                                                                            Ok(q) => Ok(PRes { val: Or11::I(q.val), pos: q.pos, remainder: q.remainder }),
                                                                            Err(_) =>
                                                                                match self.j.parse(inp) {
                                                                                    Ok(q) => Ok(PRes { val: Or11::J(q.val), pos: q.pos, remainder: q.remainder }),
                                                                                    Err(_) =>
                                                                                        match self.k.parse(inp) {
                                                                                            Ok(q) => Ok(PRes { val: Or11::K(q.val), pos: q.pos, remainder: q.remainder }),
                                                                                            Err(e) => Err(e),
                                                                                        },
                                                                                },
                                                                        },
                                                                },
                                                        },
                                                },
                                        },
                                },
                        },
                },
        }
    }
}

/// Ordered choice among twelve parsers of any value types, all tried on the
/// same input; the first success gives the value, tagged with its branch.
#[derive(Clone)]
pub struct Alt12<PA, PB, PC, PD, PE, PF, PG, PH, PI, PJ, PK, PL> {
    pub a: PA,
    pub b: PB,
    pub c: PC,
    pub d: PD,
    pub e: PE,
    pub f: PF,
    pub g: PG,
    pub h: PH,
    pub i: PI,
    pub j: PJ,
    pub k: PK,
    pub l: PL,
}

pub fn or12<'a, PA: Parser<'a>, PB: Parser<'a>, PC: Parser<'a>, PD: Parser<'a>, PE: Parser<'a>, PF: Parser<'a>, PG: Parser<'a>, PH: Parser<'a>, PI: Parser<'a>, PJ: Parser<'a>, PK: Parser<'a>, PL: Parser<'a>>(a: PA, b: PB, c: PC, d: PD, e: PE, f: PF, g: PG, h: PH, i: PI, j: PJ, k: PK, l: PL) -> (r: Alt12<PA, PB, PC, PD, PE, PF, PG, PH, PI, PJ, PK, PL>)
    ensures
        r == (Alt12 { a, b, c, d, e, f, g, h, i, j, k, l }),
{
    Alt12 { a, b, c, d, e, f, g, h, i, j, k, l }
}

impl<'a, PA: Parser<'a>, PB: Parser<'a>, PC: Parser<'a>, PD: Parser<'a>, PE: Parser<'a>, PF: Parser<'a>, PG: Parser<'a>, PH: Parser<'a>, PI: Parser<'a>, PJ: Parser<'a>, PK: Parser<'a>, PL: Parser<'a>> Parser<'a> for Alt12<PA, PB, PC, PD, PE, PF, PG, PH, PI, PJ, PK, PL> {
    type Val = Or12<PA::Val, PB::Val, PC::Val, PD::Val, PE::Val, PF::Val, PG::Val, PH::Val, PI::Val, PJ::Val, PK::Val, PL::Val>;

    open spec fn ready(&self) -> bool {
        self.a.ready() && self.b.ready() && self.c.ready() && self.d.ready() && self.e.ready() && self.f.ready() && self.g.ready() && self.h.ready() && self.i.ready() && self.j.ready() && self.k.ready() && self.l.ready()
    }

    open spec fn outcome(&self, inp: ParserInput<'a>, out: POut<'a, Or12<PA::Val, PB::Val, PC::Val, PD::Val, PE::Val, PF::Val, PG::Val, PH::Val, PI::Val, PJ::Val, PK::Val, PL::Val>>) -> bool {
        exists|r0: POut<'a, PA::Val>|
            #[trigger] self.a.outcome(inp, r0) && match r0 {
                Ok(q) => out == with_val(q, Or12::<PA::Val, PB::Val, PC::Val, PD::Val, PE::Val, PF::Val, PG::Val, PH::Val, PI::Val, PJ::Val, PK::Val, PL::Val>::A(q.val)),
                Err(_) =>
                    exists|r1: POut<'a, PB::Val>|
                        #[trigger] self.b.outcome(inp, r1) && match r1 {
                            Ok(q) => out == with_val(q, Or12::<PA::Val, PB::Val, PC::Val, PD::Val, PE::Val, PF::Val, PG::Val, PH::Val, PI::Val, PJ::Val, PK::Val, PL::Val>::B(q.val)),
                            Err(_) =>
                                exists|r2: POut<'a, PC::Val>|
                                    #[trigger] self.c.outcome(inp, r2) && match r2 {
                                        Ok(q) => out == with_val(q, Or12::<PA::Val, PB::Val, PC::Val, PD::Val, PE::Val, PF::Val, PG::Val, PH::Val, PI::Val, PJ::Val, PK::Val, PL::Val>::C(q.val)),
                                        Err(_) =>
                                            exists|r3: POut<'a, PD::Val>|
                                                #[trigger] self.d.outcome(inp, r3) && match r3 {
                                                    Ok(q) => out == with_val(q, Or12::<PA::Val, PB::Val, PC::Val, PD::Val, PE::Val, PF::Val, PG::Val, PH::Val, PI::Val, PJ::Val, PK::Val, PL::Val>::D(q.val)),
                                                    Err(_) =>
                                                        exists|r4: POut<'a, PE::Val>|
                                                            #[trigger] self.e.outcome(inp, r4) && match r4 {
                                                                Ok(q) => out == with_val(q, Or12::<PA::Val, PB::Val, PC::Val, PD::Val, PE::Val, PF::Val, PG::Val, PH::Val, PI::Val, PJ::Val, PK::Val, PL::Val>::E(q.val)),
                                                                Err(_) =>
                                                                    exists|r5: POut<'a, PF::Val>|
                                                                        #[trigger] self.f.outcome(inp, r5) && match r5 {
                                                                            Ok(q) => out == with_val(q, Or12::<PA::Val, PB::Val, PC::Val, PD::Val, PE::Val, PF::Val, PG::Val, PH::Val, PI::Val, PJ::Val, PK::Val, PL::Val>::F(q.val)),
                                                                            Err(_) =>
                                                                                exists|r6: POut<'a, PG::Val>|
                                                                                    #[trigger] self.g.outcome(inp, r6) && match r6 {
                                                                                        Ok(q) => out == with_val(q, Or12::<PA::Val, PB::Val, PC::Val, PD::Val, PE::Val, PF::Val, PG::Val, PH::Val, PI::Val, PJ::Val, PK::Val, PL::Val>::G(q.val)),
                                                                                        Err(_) =>
                                                                                            exists|r7: POut<'a, PH::Val>|
                                                                                                #[trigger] self.h.outcome(inp, r7) && match r7 {
                                                                                                    Ok(q) => out == with_val(q, Or12::<PA::Val, PB::Val, PC::Val, PD::Val, PE::Val, PF::Val, PG::Val, PH::Val, PI::Val, PJ::Val, PK::Val, PL::Val>::H(q.val)),
                                                                                                    Err(_) =>
                                                                                                        exists|r8: POut<'a, PI::Val>|
                                                                                                            #[trigger] self.i.outcome(inp, r8) && match r8 {
                                                                                                                Ok(q) => out == with_val(q, Or12::<PA::Val, PB::Val, PC::Val, PD::Val, PE::Val, PF::Val, PG::Val, PH::Val, PI::Val, PJ::Val, PK::Val, PL::Val>::I(q.val)),
                                                                                                                Err(_) =>
                                                                                                                    exists|r9: POut<'a, PJ::Val>|
                                                                                                                        #[trigger] self.j.outcome(inp, r9) && match r9 {
                                                                                                                            Ok(q) => out == with_val(q, Or12::<PA::Val, PB::Val, PC::Val, PD::Val, PE::Val, PF::Val, PG::Val, PH::Val, PI::Val, PJ::Val, PK::Val, PL::Val>::J(q.val)),
                                                                                                                            Err(_) =>
                                                                                                                                exists|r10: POut<'a, PK::Val>|
                                                                                                                                    #[trigger] self.k.outcome(inp, r10) && match r10 {
                                                                                                                                        Ok(q) => out == with_val(q, Or12::<PA::Val, PB::Val, PC::Val, PD::Val, PE::Val, PF::Val, PG::Val, PH::Val, PI::Val, PJ::Val, PK::Val, PL::Val>::K(q.val)),
                                                                                                                                        Err(_) =>
                                                                                                                                            exists|r11: POut<'a, PL::Val>|
                                                                                                                                                #[trigger] self.l.outcome(inp, r11) && match r11 {
                                                                                                                                                    Ok(q) => out == with_val(q, Or12::<PA::Val, PB::Val, PC::Val, PD::Val, PE::Val, PF::Val, PG::Val, PH::Val, PI::Val, PJ::Val, PK::Val, PL::Val>::L(q.val)),
                                                                                                                                                    Err(e) => out == failed::<Or12<PA::Val, PB::Val, PC::Val, PD::Val, PE::Val, PF::Val, PG::Val, PH::Val, PI::Val, PJ::Val, PK::Val, PL::Val>>(e),
                                                                                                                                                },
                                                                                                                                    },
                                                                                                                        },
                                                                                                            },
                                                                                                },
                                                                                    },
                                                                        },
                                                            },
                                                },
                                    },
                        },
            }
    }

    fn parse(&self, inp: &ParserInput<'a>) -> (out: POut<'a, Or12<PA::Val, PB::Val, PC::Val, PD::Val, PE::Val, PF::Val, PG::Val, PH::Val, PI::Val, PJ::Val, PK::Val, PL::Val>>) {
        match self.a.parse(inp) {
            Ok(q) => Ok(PRes { val: Or12::A(q.val), pos: q.pos, remainder: q.remainder }),
            Err(_) =>
                match self.b.parse(inp) {
                    Ok(q) => Ok(PRes { val: Or12::B(q.val), pos: q.pos, remainder: q.remainder }),
                    Err(_) =>
                        match self.c.parse(inp) {
                            Ok(q) => Ok(PRes { val: Or12::C(q.val), pos: q.pos, remainder: q.remainder }),
                            Err(_) =>
                                match self.d.parse(inp) {
                                    Ok(q) => Ok(PRes { val: Or12::D(q.val), pos: q.pos, remainder: q.remainder }),
                                    Err(_) =>
                                        match self.e.parse(inp) {
                                            Ok(q) => Ok(PRes { val: Or12::E(q.val), pos: q.pos, remainder: q.remainder }),
                                            Err(_) =>
                                                match self.f.parse(inp) {
                                                    Ok(q) => Ok(PRes { val: Or12::F(q.val), pos: q.pos, remainder: q.remainder }),
                                                    Err(_) =>
                                                        match self.g.parse(inp) {
                                                            Ok(q) => Ok(PRes { val: Or12::G(q.val), pos: q.pos, remainder: q.remainder }),
                                                            Err(_) =>
                                                                match self.h.parse(inp) {
                                                                    Ok(q) => Ok(PRes { val: Or12::H(q.val), pos: q.pos, remainder: q.remainder }),
                                                                    Err(_) =>
                                                                        match self.i.parse(inp) {
                                                                            Ok(q) => Ok(PRes { val: Or12::I(q.val), pos: q.pos, remainder: q.remainder }),
                                                                            Err(_) =>
                                                                                match self.j.parse(inp) {
                                                                                    Ok(q) => Ok(PRes { val: Or12::J(q.val), pos: q.pos, remainder: q.remainder }),
                                                                                    Err(_) =>
                                                                                        match self.k.parse(inp) {
                                                                                            Ok(q) => Ok(PRes { val: Or12::K(q.val), pos: q.pos, remainder: q.remainder }),
                                                                                            Err(_) =>
                                                                                                match self.l.parse(inp) {
                                                                                                    Ok(q) => Ok(PRes { val: Or12::L(q.val), pos: q.pos, remainder: q.remainder }),
                                                                                                    Err(e) => Err(e),
                                                                                                },
                                                                                        },
                                                                                },
                                                                        },
                                                                },
                                                        },
                                                },
                                        },
                                },
                        },
                },
        }
    }
}

} // verus!
