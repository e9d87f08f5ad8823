//! Decimal rendering of counters and simple padding, the building blocks of
//! every line this library produces.

use vstd::prelude::*;

verus! {

use vstd::string::StringExecFns;

/// The digit character for one decimal digit value.
pub open spec fn digit_char(d: int) -> char {
    if d == 0 {
        '0'
    } else if d == 1 {
        '1'
    } else if d == 2 {
        '2'
    } else if d == 3 {
        '3'
    } else if d == 4 {
        '4'
    } else if d == 5 {
        '5'
    } else if d == 6 {
        '6'
    } else if d == 7 {
        '7'
    } else if d == 8 {
        '8'
    } else {
        '9'
    }
}

/// The decimal representation of a number, most significant digit first,
/// with no leading zeros (a single `'0'` for zero).
pub open spec fn dec_rep(n: nat) -> Seq<char>
    decreases n,
{
    if n < 10 {
        seq![digit_char(n as int)]
    } else {
        dec_rep(n / 10) + seq![digit_char((n % 10) as int)]
    }
}

/// A decimal representation zero-padded on the left to at least two digits.
pub open spec fn pad2(n: nat) -> Seq<char> {
    if n < 10 {
        seq!['0'] + dec_rep(n)
    } else {
        dec_rep(n)
    }
}

/// A run of space characters.
pub open spec fn spaces(n: nat) -> Seq<char> {
    Seq::new(n, |i: int| ' ')
}

/// Powers of ten, for bounding digit counts.
pub open spec fn pow10(k: nat) -> nat
    decreases k,
{
    if k == 0 {
        1
    } else {
        10 * pow10((k - 1) as nat)
    }
}

/// A number below the `k`-th power of ten has at most `k` decimal digits,
/// and every number has at least one.
pub proof fn lemma_dec_rep_len_bound(n: nat, k: nat)
    requires
        1 <= k,
        n < pow10(k),
    ensures
        1 <= dec_rep(n).len() <= k,
    decreases k,
{
    if n < 10 {
    } else {
        assert(k >= 2) by {
            if k == 1 {
                assert(pow10(1) == 10);
            }
        }
        assert(pow10(k) == 10 * pow10((k - 1) as nat));
        assert(n / 10 < pow10((k - 1) as nat)) by {
            vstd::arithmetic::div_mod::lemma_multiply_divide_lt(
                n as int,
                10,
                pow10((k - 1) as nat) as int,
            );
        }
        lemma_dec_rep_len_bound(n / 10, (k - 1) as nat);
    }
}

/// True when the text holds no newline character.
pub open spec fn newline_free(s: Seq<char>) -> bool {
    forall|i: int| 0 <= i < s.len() ==> s[i] != '\n'
}

/// Concatenating newline-free texts yields a newline-free text.
pub proof fn lemma_newline_free_concat(a: Seq<char>, b: Seq<char>)
    requires
        newline_free(a),
        newline_free(b),
    ensures
        newline_free(a + b),
{
    assert forall|i: int| 0 <= i < (a + b).len() implies (a + b)[i] != '\n' by {
        if i < a.len() {
            assert((a + b)[i] == a[i]);
        } else {
            assert((a + b)[i] == b[i - a.len()]);
        }
    }
}

/// A run of spaces holds no newline.
pub proof fn lemma_spaces_newline_free(n: nat)
    ensures
        newline_free(spaces(n)),
{
}

/// A decimal representation holds only digit characters, never a newline.
pub proof fn lemma_dec_rep_newline_free(n: nat)
    ensures
        newline_free(dec_rep(n)),
    decreases n,
{
    if n < 10 {
    } else {
        lemma_dec_rep_newline_free(n / 10);
        lemma_newline_free_concat(dec_rep(n / 10), seq![digit_char((n % 10) as int)]);
    }
}

/// A zero-padded decimal representation holds no newline.
pub proof fn lemma_pad2_newline_free(n: nat)
    ensures
        newline_free(pad2(n)),
{
    lemma_dec_rep_newline_free(n);
    if n < 10 {
        lemma_newline_free_concat(seq!['0'], dec_rep(n));
    }
}

/// One-character string for one decimal digit value.
fn digit_str(d: usize) -> (r: &'static str)
    requires
        d < 10,
    ensures
        r@ =~= seq![digit_char(d as int)],
{
    proof {
        reveal_strlit("0");
        reveal_strlit("1");
        reveal_strlit("2");
        reveal_strlit("3");
        reveal_strlit("4");
        reveal_strlit("5");
        reveal_strlit("6");
        reveal_strlit("7");
        reveal_strlit("8");
        reveal_strlit("9");
    }
    match d {
        0 => "0",
        1 => "1",
        2 => "2",
        3 => "3",
        4 => "4",
        5 => "5",
        6 => "6",
        7 => "7",
        8 => "8",
        _ => "9",
    }
}

/// The decimal text of a number, as `to_string` would print it.
pub fn dec_string(n: usize) -> (r: String)
    ensures
        r@ == dec_rep(n as nat),
    decreases n,
{
    if n < 10 {
        String::from_str(digit_str(n))
    } else {
        let mut s = dec_string(n / 10);
        s.append(digit_str(n % 10));
        s
    }
}

/// The decimal text of a number, zero-padded on the left to at least two
/// digits, as `{:02}` formatting would print it.
pub fn pad2_string(n: usize) -> (r: String)
    ensures
        r@ == pad2(n as nat),
{
    if n < 10 {
        proof {
            reveal_strlit("0");
        }
        let mut s = String::from_str("0");
        s.append(digit_str(n));
        proof {
            assert(s@ =~= pad2(n as nat));
        }
        s
    } else {
        dec_string(n)
    }
}

/// A string of `n` space characters.
pub fn space_string(n: usize) -> (r: String)
    ensures
        r@ == spaces(n as nat),
{
    proof {
        reveal_strlit(" ");
    }
    let mut s = String::new();
    let mut i: usize = 0;
    while i < n
        invariant
            i <= n,
            s@ =~= spaces(i as nat),
        decreases n - i,
    {
        s.append(" ");
        i = i + 1;
        proof {
            reveal_strlit(" ");
            assert(s@ =~= spaces(i as nat));
        }
    }
    s
}

} // verus!
