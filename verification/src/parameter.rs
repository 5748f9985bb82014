//! The alphabet of benchmark parameters.

use vstd::prelude::*;
use vstd::string::StringExecFns;

verus! {

/// A benchmark parameter: one lowercase letter.
#[allow(non_camel_case_types)]
#[derive(Clone, Copy, Debug, PartialEq, Eq, Structural)]
pub enum BenchmarkParameter {
    a,
    b,
    c,
    d,
    e,
    f,
    g,
    h,
    i,
    j,
    k,
    l,
    m,
    n,
    o,
    p,
    q,
    r,
    s,
    t,
    u,
    v,
    w,
    x,
    y,
    z,
}

impl BenchmarkParameter {
    /// The letter that stands for the parameter.
    pub open spec fn letter(self) -> char {
        match self {
            BenchmarkParameter::a => 'a',
            BenchmarkParameter::b => 'b',
            BenchmarkParameter::c => 'c',
            BenchmarkParameter::d => 'd',
            BenchmarkParameter::e => 'e',
            BenchmarkParameter::f => 'f',
            BenchmarkParameter::g => 'g',
            BenchmarkParameter::h => 'h',
            BenchmarkParameter::i => 'i',
            BenchmarkParameter::j => 'j',
            BenchmarkParameter::k => 'k',
            BenchmarkParameter::l => 'l',
            BenchmarkParameter::m => 'm',
            BenchmarkParameter::n => 'n',
            BenchmarkParameter::o => 'o',
            BenchmarkParameter::p => 'p',
            BenchmarkParameter::q => 'q',
            BenchmarkParameter::r => 'r',
            BenchmarkParameter::s => 's',
            BenchmarkParameter::t => 't',
            BenchmarkParameter::u => 'u',
            BenchmarkParameter::v => 'v',
            BenchmarkParameter::w => 'w',
            BenchmarkParameter::x => 'x',
            BenchmarkParameter::y => 'y',
            BenchmarkParameter::z => 'z',
        }
    }

    /// The parameter's name as it appears in reports: its letter.
    pub open spec fn name_spec(self) -> Seq<char> {
        seq![self.letter()]
    }

    /// The parameter's name.
    pub fn name(self) -> (r: String)
        ensures
            r@ == self.name_spec(),
    {
        let text: &str = match self {
            BenchmarkParameter::a => "a",
            BenchmarkParameter::b => "b",
            BenchmarkParameter::c => "c",
            BenchmarkParameter::d => "d",
            BenchmarkParameter::e => "e",
            BenchmarkParameter::f => "f",
            BenchmarkParameter::g => "g",
            BenchmarkParameter::h => "h",
            BenchmarkParameter::i => "i",
            BenchmarkParameter::j => "j",
            BenchmarkParameter::k => "k",
            BenchmarkParameter::l => "l",
            BenchmarkParameter::m => "m",
            BenchmarkParameter::n => "n",
            BenchmarkParameter::o => "o",
            BenchmarkParameter::p => "p",
            BenchmarkParameter::q => "q",
            BenchmarkParameter::r => "r",
            BenchmarkParameter::s => "s",
            BenchmarkParameter::t => "t",
            BenchmarkParameter::u => "u",
            BenchmarkParameter::v => "v",
            BenchmarkParameter::w => "w",
            BenchmarkParameter::x => "x",
            BenchmarkParameter::y => "y",
            BenchmarkParameter::z => "z",
        };
        proof {
            reveal_strlit("a");
            reveal_strlit("b");
            reveal_strlit("c");
            reveal_strlit("d");
            reveal_strlit("e");
            reveal_strlit("f");
            reveal_strlit("g");
            reveal_strlit("h");
            reveal_strlit("i");
            reveal_strlit("j");
            reveal_strlit("k");
            reveal_strlit("l");
            reveal_strlit("m");
            reveal_strlit("n");
            reveal_strlit("o");
            reveal_strlit("p");
            reveal_strlit("q");
            reveal_strlit("r");
            reveal_strlit("s");
            reveal_strlit("t");
            reveal_strlit("u");
            reveal_strlit("v");
            reveal_strlit("w");
            reveal_strlit("x");
            reveal_strlit("y");
            reveal_strlit("z");
        }
        assert(text@ =~= self.name_spec());
        String::from_str(text)
    }
}

} // verus!
