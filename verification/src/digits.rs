//! Numbers as they are written into generated code: digits in groups of
//! three.

use vstd::prelude::*;

verus! {

/// The first `upto` characters of the text, with an underscore before every
/// character but the first that has a multiple of three characters from
/// itself to the end.
pub open spec fn underscored(text: Seq<char>, upto: int) -> Seq<char>
    decreases upto,
{
    if upto <= 0 {
        Seq::empty()
    } else {
        let before = underscored(text, upto - 1);
        let at = upto - 1;
        if at != 0 && (text.len() - at) % 3 == 0 {
            before.push('_').push(text[at])
        } else {
            before.push(text[at])
        }
    }
}

/// Grouping adds one underscore for every full group of three that has a
/// character before it.
pub proof fn lemma_underscored_len(text: Seq<char>, upto: int)
    requires
        1 <= upto <= text.len(),
    ensures
        underscored(text, upto).len() == upto + (text.len() - 1) / 3 - (text.len() - upto) / 3,
    decreases upto,
{
    if upto > 1 {
        lemma_underscored_len(text, upto - 1);
    } else {
        assert(underscored(text, 0).len() == 0);
    }
}

/// Writes the digits of a number in groups of three, counted from the end,
/// with an underscore between the groups.
pub fn underscore(text: &Vec<char>) -> (r: Vec<char>)
    ensures
        r@ == underscored(text@, text.len() as int),
        text.len() > 0 ==> r.len() == text.len() + (text.len() - 1) / 3,
        text.len() == 0 ==> r.len() == 0,
{
    let mut out: Vec<char> = Vec::new();
    let mut at: usize = 0;
    while at < text.len()
        invariant
            at <= text.len(),
            out@ == underscored(text@, at as int),
        decreases text.len() - at,
    {
        if at != 0 && (text.len() - at) % 3 == 0 {
            out.push('_');
        }
        out.push(text[at]);
        at += 1;
    }
    proof {
        if text.len() > 0 {
            lemma_underscored_len(text@, text.len() as int);
        }
    }
    out
}

} // verus!
