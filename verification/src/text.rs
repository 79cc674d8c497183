//! Writing numbers as text.

use std::cmp::Ordering;
use vstd::prelude::*;
use vstd::std_specs::iter::IteratorSpec;
use vstd::string::{StringExecFns, StringSliceAdditionalSpecFns};
use vstd::utf8::encode_utf8_decode_utf8;

verus! {

/// The lowercase form that `str::to_lowercase` gives a text: each character
/// replaced by its Unicode lowercase mapping.
pub uninterp spec fn lowercase(text: Seq<char>) -> Seq<char>;

/// Calls `str::to_lowercase`. Trusted: the result is the standard library's
/// lowercase form of these characters, which [`lowercase`] names.
#[verifier::external_body]
pub(crate) fn to_lowercase(text: &str) -> (lower: String)
    ensures
        lower@ == lowercase(text@),
{
    text.to_lowercase()
}

/// The character for a single decimal digit.
pub open spec fn digit_char(d: nat) -> char
    recommends
        d < 10,
{
    if d == 0 {
        '0'
    } else if d == 1 {
        '1'
    } else if d == 2 {
        '2'
    } else if d == 3 {
        '3'
    } else if d == 4 {
        '4'
    } else if d == 5 {
        '5'
    } else if d == 6 {
        '6'
    } else if d == 7 {
        '7'
    } else if d == 8 {
        '8'
    } else {
        '9'
    }
}

/// `n` in decimal, most significant digit first, without leading zeros.
pub open spec fn decimal(n: nat) -> Seq<char>
    decreases n,
{
    if n < 10 {
        seq![digit_char(n)]
    } else {
        decimal(n / 10).push(digit_char(n % 10))
    }
}

/// The one-character text of a decimal digit.
fn digit_text(d: u8) -> (text: &'static str)
    requires
        d < 10,
    ensures
        text@ == seq![digit_char(d as nat)],
{
    proof {
        reveal_strlit("0");
        reveal_strlit("1");
        reveal_strlit("2");
        reveal_strlit("3");
        reveal_strlit("4");
        reveal_strlit("5");
        reveal_strlit("6");
        reveal_strlit("7");
        reveal_strlit("8");
        reveal_strlit("9");
    }
    let text = match d {
        0 => "0",
        1 => "1",
        2 => "2",
        3 => "3",
        4 => "4",
        5 => "5",
        6 => "6",
        7 => "7",
        8 => "8",
        _ => "9",
    };
    assert(text@ =~= seq![digit_char(d as nat)]);
    text
}

/// Appends `n` in decimal to `out`.
pub fn push_decimal(out: &mut String, n: u128)
    ensures
        final(out)@ == old(out)@ + decimal(n as nat),
    decreases n,
{
    if n >= 10 {
        push_decimal(out, n / 10);
    }
    let d: u8 = (n % 10) as u8;
    out.append(digit_text(d));
    assert(final(out)@ =~= old(out)@ + decimal(n as nat));
}

/// Whether two strings hold the same characters.
pub fn str_eq(a: &str, b: &str) -> (same: bool)
    ensures
        same == (a@ == b@),
{
    let x = a.as_bytes();
    let y = b.as_bytes();
    proof {
        // Equal bytes decode to equal characters.
        encode_utf8_decode_utf8(a@);
        encode_utf8_decode_utf8(b@);
    }
    if x.len() != y.len() {
        return false;
    }
    let mut i: usize = 0;
    while i < x.len()
        invariant
            i <= x.len(),
            x.len() == y.len(),
            forall|k: int| 0 <= k < i ==> x@[k] == y@[k],
            x@ == a.spec_bytes(),
            y@ == b.spec_bytes(),
        decreases x.len() - i,
    {
        if x[i] != y[i] {
            return false;
        }
        i = i + 1;
    }
    assert(x@ =~= y@);
    true
}

/// The code point of a character.
pub open spec fn code_point(c: char) -> nat {
    c as u32 as nat
}

/// Different characters have different code points.
pub proof fn lemma_code_point_injective(x: char, y: char)
    ensures
        code_point(x) == code_point(y) ==> x == y,
{
    vstd::utf8::char_u32_cast(x, x as u32);
    vstd::utf8::char_u32_cast(y, y as u32);
}

/// Computes [`code_point`].
fn code_of(c: char) -> (code: u32)
    ensures
        code == code_point(c),
{
    c as u32
}

/// `a` sorts strictly before `b`: at the first place where they differ `a`
/// has the smaller code point, or `a` ends there and `b` goes on.
pub open spec fn lex_less(a: Seq<char>, b: Seq<char>) -> bool
    decreases a.len(),
{
    if b.len() == 0 {
        false
    } else if a.len() == 0 {
        true
    } else if a[0] != b[0] {
        code_point(a[0]) < code_point(b[0])
    } else {
        lex_less(a.drop_first(), b.drop_first())
    }
}

/// Nothing sorts before itself.
pub proof fn lemma_lex_less_irreflexive(a: Seq<char>)
    ensures
        !lex_less(a, a),
    decreases a.len(),
{
    if a.len() > 0 {
        lemma_lex_less_irreflexive(a.drop_first());
    }
}

/// Of two different texts exactly one sorts before the other.
pub proof fn lemma_lex_less_total(a: Seq<char>, b: Seq<char>)
    ensures
        a != b ==> (lex_less(a, b) <==> !lex_less(b, a)),
        a == b ==> !lex_less(a, b) && !lex_less(b, a),
    decreases a.len(),
{
    if a == b {
        lemma_lex_less_irreflexive(a);
    } else if a.len() > 0 && b.len() > 0 {
        if a[0] == b[0] {
            assert(a.drop_first() != b.drop_first()) by {
                if a.drop_first() == b.drop_first() {
                    assert(a =~= seq![a[0]] + a.drop_first());
                    assert(b =~= seq![b[0]] + b.drop_first());
                }
            }
            lemma_lex_less_total(a.drop_first(), b.drop_first());
        } else {
            lemma_code_point_injective(a[0], b[0]);
        }
    } else {
        assert(a.len() != b.len()) by {
            if a.len() == b.len() {
                assert(a =~= b);
            }
        }
    }
}

/// Sorting before is transitive.
pub proof fn lemma_lex_less_transitive(a: Seq<char>, b: Seq<char>, c: Seq<char>)
    requires
        lex_less(a, b),
        lex_less(b, c),
    ensures
        lex_less(a, c),
    decreases a.len(),
{
    if a.len() > 0 {
        if a[0] == b[0] && b[0] == c[0] {
            lemma_lex_less_transitive(a.drop_first(), b.drop_first(), c.drop_first());
        }
    }
}

/// Two texts that start with the same character are equal exactly when what
/// follows is.
pub proof fn lemma_same_head(a: Seq<char>, b: Seq<char>)
    requires
        a.len() > 0,
        b.len() > 0,
        a[0] == b[0],
    ensures
        (a == b) == (a.drop_first() == b.drop_first()),
{
    if a.drop_first() == b.drop_first() {
        assert(a =~= seq![a[0]] + a.drop_first());
        assert(b =~= seq![b[0]] + b.drop_first());
    }
}

/// Compares two strings by [`lex_less`].
pub fn str_order(a: &str, b: &str) -> (order: Ordering)
    ensures
        order == Ordering::Less <==> lex_less(a@, b@),
        order == Ordering::Greater <==> lex_less(b@, a@),
        order == Ordering::Equal <==> a@ == b@,
{
    let mut rest_a = a.chars();
    let mut rest_b = b.chars();
    loop
        invariant
            lex_less(a@, b@) == lex_less(rest_a.remaining(), rest_b.remaining()),
            lex_less(b@, a@) == lex_less(rest_b.remaining(), rest_a.remaining()),
            (a@ == b@) == (rest_a.remaining() == rest_b.remaining()),
            rest_a.decrease() is Some,
        decreases rest_a.decrease()->0,
    {
        assert(rest_a.remaining() != rest_b.remaining() ==> (lex_less(
            rest_a.remaining(),
            rest_b.remaining(),
        ) <==> !lex_less(rest_b.remaining(), rest_a.remaining()))) by {
            lemma_lex_less_total(rest_a.remaining(), rest_b.remaining());
        }
        assert(rest_a.remaining().len() > 0 && rest_b.remaining().len() > 0
            && rest_a.remaining()[0] == rest_b.remaining()[0] ==> ((rest_a.remaining()
            == rest_b.remaining()) == (rest_a.remaining().drop_first()
            == rest_b.remaining().drop_first()))) by {
            if rest_a.remaining().len() > 0 && rest_b.remaining().len() > 0
                && rest_a.remaining()[0] == rest_b.remaining()[0] {
                lemma_same_head(rest_a.remaining(), rest_b.remaining());
            }
        }
        assert(rest_a.remaining().len() == 0 && rest_b.remaining().len() == 0
            ==> rest_a.remaining() =~= rest_b.remaining());
        let next_a = rest_a.next();
        let next_b = rest_b.next();
        match (next_a, next_b) {
            (None, None) => {
                return Ordering::Equal;
            },
            (None, Some(_)) => {
                return Ordering::Less;
            },
            (Some(_), None) => {
                return Ordering::Greater;
            },
            (Some(x), Some(y)) => {
                let cx = code_of(x);
                let cy = code_of(y);
                assert(cx == cy ==> x == y) by {
                    lemma_code_point_injective(x, y);
                }
                if cx < cy {
                    return Ordering::Less;
                } else if cx > cy {
                    return Ordering::Greater;
                }
            },
        }
    }
}

} // verus!
