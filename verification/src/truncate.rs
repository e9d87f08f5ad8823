//! Encoding-safe truncation of text to a byte budget.
//!
//! Truncating a string to at most `max` bytes can cut through the middle of a
//! multi-byte character. The policy here is lossy and total: every whole
//! character whose encoding fits within the budget is kept, and if the cut
//! lands strictly inside the next character's encoding, that partial trailing
//! sequence is replaced by the replacement character `U+FFFD` instead of
//! failing.

use vstd::prelude::*;
use vstd::utf8::{encode_scalar, encode_utf8};

verus! {

use vstd::string::StrSliceExecFns;
use vstd::string::StringExecFns;

/// Number of bytes in the UTF-8 encoding of one character.
pub open spec fn char_utf8_len(c: char) -> nat {
    encode_scalar(c as u32).len()
}

/// The result of truncating a character sequence to at most `max` bytes of
/// UTF-8 and decoding the cut byte string lossily: the longest prefix of
/// whole characters that fits, followed by one `U+FFFD` exactly when the cut
/// lands strictly inside the encoding of the next character.
pub open spec fn lossy_truncated(s: Seq<char>, max: nat) -> Seq<char>
    decreases s.len(),
{
    if s.len() == 0 {
        Seq::<char>::empty()
    } else if char_utf8_len(s[0]) <= max {
        seq![s[0]] + lossy_truncated(s.drop_first(), (max - char_utf8_len(s[0])) as nat)
    } else if max > 0 {
        seq!['\u{fffd}']
    } else {
        Seq::<char>::empty()
    }
}

/// Byte length of one character's UTF-8 encoding.
fn char_len(c: char) -> (r: usize)
    ensures
        r as nat == char_utf8_len(c),
        1 <= r <= 4,
{
    proof {
        vstd::utf8::char_is_scalar(c);
    }
    let u = c as u32;
    if u < 0x80 {
        1
    } else if u < 0x800 {
        2
    } else if u < 0x10000 {
        3
    } else {
        4
    }
}

/// Truncates `text` to at most `maxsize` bytes of UTF-8 without ever
/// splitting a multi-byte character: whole characters that fit are kept, and
/// a partial trailing character at the cut is replaced by `U+FFFD`. Total for
/// every text and every budget, including zero.
pub fn truncate_lossy(text: &str, maxsize: usize) -> (r: String)
    ensures
        r@ == lossy_truncated(text@, maxsize as nat),
{
    let n = text.unicode_len();
    let mut k: usize = 0;
    let mut rem: usize = maxsize;
    proof {
        assert(text@.skip(0) =~= text@);
        assert(text@.subrange(0, 0) + lossy_truncated(text@, maxsize as nat) =~= lossy_truncated(
            text@,
            maxsize as nat,
        ));
    }
    loop
        invariant
            k <= n,
            n == text@.len(),
            rem <= maxsize,
            lossy_truncated(text@, maxsize as nat) == text@.subrange(0, k as int)
                + lossy_truncated(text@.skip(k as int), rem as nat),
        ensures
            k <= n,
            n == text@.len(),
            lossy_truncated(text@, maxsize as nat) == text@.subrange(0, k as int)
                + lossy_truncated(text@.skip(k as int), rem as nat),
            k == n || rem < char_utf8_len(text@[k as int]),
        decreases n - k,
    {
        if k >= n {
            break;
        }
        let c = text.get_char(k);
        let cl = char_len(c);
        if cl > rem {
            break;
        }
        proof {
            let tail = text@.skip(k as int);
            assert(tail[0] == c);
            assert(lossy_truncated(tail, rem as nat) == seq![c] + lossy_truncated(
                tail.drop_first(),
                (rem - cl) as nat,
            ));
            assert(tail.drop_first() =~= text@.skip(k as int + 1));
            assert(text@.subrange(0, k as int) + seq![c] =~= text@.subrange(0, k as int + 1));
            assert(text@.subrange(0, k as int) + (seq![c] + lossy_truncated(
                text@.skip(k as int + 1),
                (rem - cl) as nat,
            )) =~= text@.subrange(0, k as int + 1) + lossy_truncated(
                text@.skip(k as int + 1),
                (rem - cl) as nat,
            ));
        }
        k = k + 1;
        rem = rem - cl;
    }
    let prefix = text.substring_char(0, k);
    let mut out = String::from_str(prefix);
    if k < n && rem > 0 {
        proof {
            let tail = text@.skip(k as int);
            assert(tail.len() > 0);
            assert(tail[0] == text@[k as int]);
            assert(lossy_truncated(tail, rem as nat) =~= seq!['\u{fffd}']);
        }
        out.append("\u{fffd}");
        proof {
            reveal_strlit("\u{fffd}");
            assert(out@ =~= lossy_truncated(text@, maxsize as nat));
        }
    } else {
        proof {
            let tail = text@.skip(k as int);
            if k == n {
                assert(tail.len() == 0);
            }
            assert(lossy_truncated(tail, rem as nat) =~= Seq::<char>::empty());
            assert(out@ =~= lossy_truncated(text@, maxsize as nat));
        }
    }
    out
}

/// Truncation can only shorten: the result never holds more characters than
/// the byte budget allows, since every character takes at least one byte.
pub proof fn lemma_truncate_char_count(s: Seq<char>, max: nat)
    ensures
        lossy_truncated(s, max).len() <= max,
    decreases s.len(),
{
    if s.len() == 0 {
    } else if char_utf8_len(s[0]) <= max {
        lemma_truncate_char_count(s.drop_first(), (max - char_utf8_len(s[0])) as nat);
    }
}

// The result never holds more characters than the input.
proof fn lemma_truncate_len_le_input(s: Seq<char>, max: nat)
    ensures
        lossy_truncated(s, max).len() <= s.len(),
    decreases s.len(),
{
    if s.len() == 0 {
    } else if char_utf8_len(s[0]) <= max {
        lemma_truncate_len_le_input(s.drop_first(), (max - char_utf8_len(s[0])) as nat);
    }
}

/// True when truncating `s` to `max` bytes cuts at a character boundary:
/// the budget either covers the whole text or is exhausted exactly at the
/// edge of a whole character, severing none.
pub open spec fn cuts_at_char_boundary(s: Seq<char>, max: nat) -> bool
    decreases s.len(),
{
    if s.len() == 0 {
        true
    } else if char_utf8_len(s[0]) <= max {
        cuts_at_char_boundary(s.drop_first(), (max - char_utf8_len(s[0])) as nat)
    } else {
        max == 0
    }
}

/// Truncation safety at character boundaries: when the byte budget does not
/// sever a character, the result is a plain prefix of the text — exactly the
/// whole characters that fit — and its UTF-8 encoding stays within the
/// budget. (A budget that lands strictly inside a character instead yields
/// that prefix plus one three-byte replacement character, whose encoding can
/// exceed a smaller budget.)
pub proof fn lemma_truncate_byte_budget(s: Seq<char>, max: nat)
    requires
        cuts_at_char_boundary(s, max),
    ensures
        lossy_truncated(s, max) =~= s.subrange(0, lossy_truncated(s, max).len() as int),
        encode_utf8(lossy_truncated(s, max)).len() <= max,
    decreases s.len(),
{
    if s.len() == 0 {
    } else if char_utf8_len(s[0]) <= max {
        let l = char_utf8_len(s[0]);
        let rest = lossy_truncated(s.drop_first(), (max - l) as nat);
        lemma_truncate_byte_budget(s.drop_first(), (max - l) as nat);
        lemma_truncate_len_le_input(s.drop_first(), (max - l) as nat);
        let whole = seq![s[0]] + rest;
        assert(whole.drop_first() =~= rest);
        assert(encode_utf8(whole) == encode_scalar(whole[0] as u32) + encode_utf8(
            whole.drop_first(),
        ));
        assert(encode_utf8(whole).len() <= max);
        assert(whole =~= s.subrange(0, whole.len() as int));
    }
}

/// Without the boundary condition the budget still cannot be exceeded by
/// much: the kept characters fit strictly under it, and the only overshoot
/// is the three-byte replacement character standing in for at least one cut
/// byte — two bytes beyond the budget at worst.
pub proof fn lemma_truncate_byte_budget_slack(s: Seq<char>, max: nat)
    ensures
        encode_utf8(lossy_truncated(s, max)).len() <= max + 2,
    decreases s.len(),
{
    if s.len() == 0 {
    } else if char_utf8_len(s[0]) <= max {
        let l = char_utf8_len(s[0]);
        let rest = lossy_truncated(s.drop_first(), (max - l) as nat);
        lemma_truncate_byte_budget_slack(s.drop_first(), (max - l) as nat);
        let whole = seq![s[0]] + rest;
        assert(whole.drop_first() =~= rest);
        assert(encode_utf8(whole) == encode_scalar(whole[0] as u32) + encode_utf8(
            whole.drop_first(),
        ));
    } else if max > 0 {
        let whole = seq!['\u{fffd}'];
        assert(whole.drop_first() =~= Seq::<char>::empty());
        assert(encode_utf8(whole) == encode_scalar(whole[0] as u32) + encode_utf8(
            whole.drop_first(),
        ));
        assert(encode_scalar('\u{fffd}' as u32).len() == 3);
    }
}

/// Truncating newline-free text yields newline-free text: kept characters
/// come from the text, and the only substituted character is the
/// replacement character.
pub proof fn lemma_truncate_newline_free(s: Seq<char>, max: nat)
    requires
        crate::text::newline_free(s),
    ensures
        crate::text::newline_free(lossy_truncated(s, max)),
    decreases s.len(),
{
    if s.len() == 0 {
    } else if char_utf8_len(s[0]) <= max {
        assert(crate::text::newline_free(s.drop_first()));
        lemma_truncate_newline_free(s.drop_first(), (max - char_utf8_len(s[0])) as nat);
        crate::text::lemma_newline_free_concat(
            seq![s[0]],
            lossy_truncated(s.drop_first(), (max - char_utf8_len(s[0])) as nat),
        );
    }
}

/// The truncation never invents or reorders text: the result is a prefix of
/// the input, or such a prefix followed by one replacement character where
/// the cut severed the character after it.
pub proof fn lemma_truncate_shape(s: Seq<char>, max: nat)
    ensures
        lossy_truncated(s, max) =~= s.subrange(0, lossy_truncated(s, max).len() as int)
            || (lossy_truncated(s, max).len() >= 1 && lossy_truncated(s, max).last() == '\u{fffd}'
                && lossy_truncated(s, max).drop_last() =~= s.subrange(
                0,
                lossy_truncated(s, max).len() - 1,
            )),
    decreases s.len(),
{
    if s.len() == 0 {
    } else if char_utf8_len(s[0]) <= max {
        let l = char_utf8_len(s[0]);
        let rest = lossy_truncated(s.drop_first(), (max - l) as nat);
        lemma_truncate_shape(s.drop_first(), (max - l) as nat);
        lemma_truncate_len_le_input(s.drop_first(), (max - l) as nat);
        let whole = seq![s[0]] + rest;
        if rest =~= s.drop_first().subrange(0, rest.len() as int) {
            assert(whole =~= s.subrange(0, whole.len() as int));
        } else {
            assert(whole.last() == rest.last());
            assert(whole.drop_last() =~= seq![s[0]] + rest.drop_last());
            assert(whole.drop_last() =~= s.subrange(0, whole.len() - 1));
        }
    }
}

} // verus!
