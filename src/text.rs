//! Telling blank output lines apart from the ones worth forwarding.
use vstd::prelude::*;

verus! {

/// The characters with the Unicode `White_Space` property.
pub open spec fn is_white_space(c: char) -> bool {
    let u = c as u32;
    (0x9 <= u && u <= 0xd) || u == 0x20 || u == 0x85 || u == 0xa0 || u == 0x1680 || (0x2000 <= u
        && u <= 0x200a) || u == 0x2028 || u == 0x2029 || u == 0x202f || u == 0x205f || u == 0x3000
}

/// A line is blank when trimming its white space leaves nothing, that is,
/// when every character of it is white space.
pub open spec fn is_blank_spec(line: Seq<char>) -> bool {
    forall|i: int| 0 <= i < line.len() ==> is_white_space(#[trigger] line[i])
}

/// Relies on char::is_whitespace: true exactly for the characters that have
/// the Unicode White_Space property.
#[verifier::external_body]
fn char_is_white_space(c: char) -> (r: bool)
    ensures
        r == is_white_space(c),
{
    c.is_whitespace()
}

/// Whether a line read from the script holds nothing but white space.
pub fn is_blank(line: &str) -> (r: bool)
    ensures
        r == is_blank_spec(line@),
{
    broadcast use vstd::string::axiom_spec_iter;

    let mut blank = true;
    for c in it: line.chars()
        invariant
            it.seq() == line@,
            blank == (forall|j: int| 0 <= j < it.index() ==> is_white_space(#[trigger] line@[j])),
    {
        let w = char_is_white_space(c);
        proof {
            if blank && !w {
                assert(!is_white_space(line@[it.index() as int]));
            }
        }
        blank = blank && w;
    }
    blank
}

} // verus!
