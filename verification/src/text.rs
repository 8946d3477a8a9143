//! Rendering of primitive field values as character sequences, together
//! with the small theory of sequence containment used to state what the
//! formatted lines hold.

use vstd::prelude::*;

verus! {

/// The character a single decimal digit prints as.
pub open spec fn dec_digit(d: int) -> char {
    if d == 0 {
        '0'
    } else if d == 1 {
        '1'
    } else if d == 2 {
        '2'
    } else if d == 3 {
        '3'
    } else if d == 4 {
        '4'
    } else if d == 5 {
        '5'
    } else if d == 6 {
        '6'
    } else if d == 7 {
        '7'
    } else if d == 8 {
        '8'
    } else {
        '9'
    }
}

/// The decimal rendering of a non-negative integer, most significant
/// digit first, with no sign and no leading zeros (a lone zero for 0).
pub open spec fn dec_str(n: int) -> Seq<char>
    recommends
        n >= 0,
    decreases n,
{
    if n < 10 {
        seq![dec_digit(n)]
    } else {
        dec_str(n / 10).push(dec_digit(n % 10))
    }
}

/// A one-character string slice holding the given decimal digit.
fn digit_str(d: u64) -> (r: &'static str)
    requires
        d < 10,
    ensures
        r@ == seq![dec_digit(d as int)],
{
    proof {
        reveal_strlit("0");
        reveal_strlit("1");
        reveal_strlit("2");
        reveal_strlit("3");
        reveal_strlit("4");
        reveal_strlit("5");
        reveal_strlit("6");
        reveal_strlit("7");
        reveal_strlit("8");
        reveal_strlit("9");
    }
    if d == 0 {
        proof { assert("0"@ =~= seq![dec_digit(0)]); }
        "0"
    } else if d == 1 {
        proof { assert("1"@ =~= seq![dec_digit(1)]); }
        "1"
    } else if d == 2 {
        proof { assert("2"@ =~= seq![dec_digit(2)]); }
        "2"
    } else if d == 3 {
        proof { assert("3"@ =~= seq![dec_digit(3)]); }
        "3"
    } else if d == 4 {
        proof { assert("4"@ =~= seq![dec_digit(4)]); }
        "4"
    } else if d == 5 {
        proof { assert("5"@ =~= seq![dec_digit(5)]); }
        "5"
    } else if d == 6 {
        proof { assert("6"@ =~= seq![dec_digit(6)]); }
        "6"
    } else if d == 7 {
        proof { assert("7"@ =~= seq![dec_digit(7)]); }
        "7"
    } else if d == 8 {
        proof { assert("8"@ =~= seq![dec_digit(8)]); }
        "8"
    } else {
        proof { assert("9"@ =~= seq![dec_digit(9)]); }
        "9"
    }
}

/// Renders an unsigned integer in decimal, exactly as `dec_str` says.
pub fn u64_to_string(n: u64) -> (r: String)
    ensures
        r@ == dec_str(n as int),
    decreases n,
{
    let d: u64 = n % 10;
    let ds: &'static str = digit_str(d);
    if n < 10 {
        let r = ds.to_owned();
        proof {
            assert(r@ =~= dec_str(n as int));
        }
        r
    } else {
        let mut r = u64_to_string(n / 10);
        r.append(ds);
        proof {
            assert(r@ =~= dec_str(n as int));
        }
        r
    }
}

/// Whether `needle` occurs contiguously somewhere in `hay`.
pub open spec fn contains_seq(hay: Seq<char>, needle: Seq<char>) -> bool {
    exists|i: int|
        0 <= i && i + needle.len() <= hay.len() && #[trigger] hay.subrange(i, i + needle.len())
            == needle
}

/// A sequence occurs in any concatenation that has it in the middle.
pub proof fn lemma_contains_middle(a: Seq<char>, b: Seq<char>, c: Seq<char>)
    ensures
        contains_seq(a + b + c, b),
{
    let hay = a + b + c;
    let i: int = a.len() as int;
    assert(hay.subrange(i, i + b.len()) =~= b);
}

/// Whether a character is a decimal digit.
pub open spec fn is_dec_digit_char(c: char) -> bool {
    c == '0' || c == '1' || c == '2' || c == '3' || c == '4' || c == '5' || c == '6' || c == '7'
        || c == '8' || c == '9'
}

/// Every character of a decimal rendering is a digit.
pub proof fn lemma_dec_str_digits(n: int)
    requires
        n >= 0,
    ensures
        forall|i: int| 0 <= i < dec_str(n).len() ==> is_dec_digit_char(#[trigger] dec_str(n)[i]),
    decreases n,
{
    if n < 10 {
        assert(dec_str(n) == seq![dec_digit(n)]);
        assert(dec_str(n)[0] == dec_digit(n));
    } else {
        lemma_dec_str_digits(n / 10);
        let prefix = dec_str(n / 10);
        assert(dec_str(n) == prefix.push(dec_digit(n % 10)));
        assert forall|i: int| 0 <= i < dec_str(n).len() implies is_dec_digit_char(
            #[trigger] dec_str(n)[i],
        ) by {
            if i < prefix.len() {
                assert(dec_str(n)[i] == prefix[i]);
            } else {
                assert(dec_str(n)[i] == dec_digit(n % 10));
            }
        }
    }
}

/// Whether a text stays on one line: it holds no line break.
pub open spec fn one_line(s: Seq<char>) -> bool {
    forall|i: int| 0 <= i < s.len() ==> #[trigger] s[i] != '\n'
}

/// A decimal rendering stays on one line.
pub proof fn lemma_dec_str_one_line(n: int)
    requires
        n >= 0,
    ensures
        one_line(dec_str(n)),
{
    lemma_dec_str_digits(n);
}

/// A concatenation of one-line texts stays on one line.
pub proof fn lemma_one_line_concat(a: Seq<char>, b: Seq<char>)
    requires
        one_line(a),
        one_line(b),
    ensures
        one_line(a + b),
{
    assert forall|i: int| 0 <= i < (a + b).len() implies #[trigger] (a + b)[i] != '\n' by {
        if i < a.len() {
            assert((a + b)[i] == a[i]);
        } else {
            assert((a + b)[i] == b[i - a.len()]);
        }
    }
}

} // verus!
