use vstd::prelude::*;

verus! {

/// Unicode's White_Space property.
pub open spec fn white_space(c: char) -> bool {
    let u = c as u32;
    ||| 0x9 <= u <= 0xD
    ||| u == 0x20
    ||| u == 0x85
    ||| u == 0xA0
    ||| u == 0x1680
    ||| 0x2000 <= u <= 0x200A
    ||| u == 0x2028
    ||| u == 0x2029
    ||| u == 0x202F
    ||| u == 0x205F
    ||| u == 0x3000
}

/// A query that is empty once the surrounding whitespace is trimmed.
pub open spec fn is_blank(q: Seq<char>) -> bool {
    forall|i: int| 0 <= i < q.len() ==> white_space(#[trigger] q[i])
}

/// Relies on char::is_whitespace: true exactly for the characters that
/// carry the White_Space property.
#[verifier::external_body]
fn is_whitespace_char(c: char) -> (r: bool)
    ensures
        r == white_space(c),
{
    c.is_whitespace()
}

/// Whether the query holds whitespace only (or nothing at all).
pub fn query_is_blank(query: &str) -> (r: bool)
    ensures
        r == is_blank(query@),
{
    let mut blank = true;
    for c in it: query.chars()
        invariant
            it.seq() == query@,
            blank == (forall|i: int| 0 <= i < it.index() ==> white_space(#[trigger] query@[i])),
    {
        if !is_whitespace_char(c) {
            blank = false;
        }
    }
    blank
}

} // verus!
