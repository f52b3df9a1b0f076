//! String helpers: decimal formatting and parsing, comparison, splitting
//! and joining, as the query strings and the command line need them.

use vstd::prelude::*;
use vstd::string::*;

verus! {

/// Relies on String::push: appends the one character to the string.
#[verifier::external_body]
pub(crate) fn push_char(s: &mut String, c: char)
    ensures
        final(s)@ == old(s)@.push(c),
{
    s.push(c);
}

/// The character for one decimal digit.
pub open spec fn dec_digit_char(d: int) -> char {
    ((d + 48) as u8) as char
}

/// The decimal numeral of `n`, most significant digit first, without
/// leading zeros (`0` itself is "0").
pub open spec fn dec_str_of(n: nat) -> Seq<char>
    decreases n,
{
    if n < 10 {
        seq![dec_digit_char(n as int)]
    } else {
        dec_str_of(n / 10).push(dec_digit_char((n % 10) as int))
    }
}

fn push_dec(out: &mut String, n: u64)
    ensures
        final(out)@ == old(out)@ + dec_str_of(n as nat),
    decreases n,
{
    if n >= 10 {
        push_dec(out, n / 10);
    }
    let d: u8 = (n % 10) as u8 + 48;
    push_char(out, d as char);
    proof {
        assert(d as char == dec_digit_char((n % 10) as int));
        if n < 10 {
            assert(old(out)@.push(d as char) =~= old(out)@ + dec_str_of(n as nat));
        } else {
            assert((old(out)@ + dec_str_of((n / 10) as nat)).push(d as char) =~= old(out)@
                + dec_str_of(n as nat));
        }
    }
}

/// The decimal numeral of `n` as a string.
pub fn u64_to_dec(n: u64) -> (r: String)
    ensures
        r@ == dec_str_of(n as nat),
{
    let mut s = String::new();
    push_dec(&mut s, n);
    proof {
        assert(Seq::<char>::empty() + dec_str_of(n as nat) =~= dec_str_of(n as nat));
    }
    s
}

/// Character-for-character equality of two string slices.
pub fn str_eq(a: &str, b: &str) -> (r: bool)
    ensures
        r == (a@ == b@),
{
    let alen = a.unicode_len();
    let blen = b.unicode_len();
    if alen != blen {
        return false;
    }
    let mut i: usize = 0;
    while i < alen
        invariant
            i <= alen,
            alen == a@.len(),
            blen == b@.len(),
            alen == blen,
            forall|j: int| 0 <= j < i ==> a@[j] == b@[j],
        decreases alen - i,
    {
        if a.get_char(i) != b.get_char(i) {
            return false;
        }
        i += 1;
    }
    proof {
        assert(a@ =~= b@);
    }
    true
}

/// The segments of `s` between occurrences of `sep`, in order; always at
/// least one segment, and empty segments are kept.
pub open spec fn split_char(s: Seq<char>, sep: char) -> Seq<Seq<char>>
    decreases s.len(),
{
    if s.len() == 0 {
        seq![Seq::<char>::empty()]
    } else if s[0] == sep {
        seq![Seq::<char>::empty()] + split_char(s.drop_first(), sep)
    } else {
        let rest = split_char(s.drop_first(), sep);
        rest.update(0, seq![s[0]] + rest[0])
    }
}

pub proof fn lemma_split_char_len(s: Seq<char>, sep: char)
    ensures
        split_char(s, sep).len() >= 1,
    decreases s.len(),
{
    if s.len() > 0 {
        lemma_split_char_len(s.drop_first(), sep);
    }
}

/// `ss` with `p` prefixed onto its first segment.
pub open spec fn prepend_first(p: Seq<char>, ss: Seq<Seq<char>>) -> Seq<Seq<char>> {
    ss.update(0, p + ss[0])
}

/// Splits `s` at every occurrence of `sep`.
pub fn split_on(s: &str, sep: char) -> (r: Vec<String>)
    ensures
        r.deep_view() == split_char(s@, sep),
{
    let len = s.unicode_len();
    let mut out: Vec<String> = Vec::new();
    let mut cur = String::new();
    let mut i: usize = 0;
    proof {
        assert(s@.skip(0) =~= s@);
        lemma_split_char_len(s@, sep);
        assert(prepend_first(Seq::<char>::empty(), split_char(s@, sep)) =~= split_char(s@, sep))
            by {
            assert(Seq::<char>::empty() + split_char(s@, sep)[0] =~= split_char(s@, sep)[0]);
        }
        assert(out.deep_view() =~= Seq::<Seq<char>>::empty());
        assert(Seq::<Seq<char>>::empty() + split_char(s@, sep) =~= split_char(s@, sep));
    }
    while i < len
        invariant
            i <= len,
            len == s@.len(),
            split_char(s@, sep) == out.deep_view() + prepend_first(
                cur@,
                split_char(s@.skip(i as int), sep),
            ),
        decreases len - i,
    {
        let ghost prev_out = out.deep_view();
        let ghost prev_cur = cur@;
        let ghost tail = s@.skip(i as int);
        let c = s.get_char(i);
        proof {
            assert(tail.len() > 0 && tail[0] == s@[i as int]);
            assert(tail.drop_first() =~= s@.skip(i as int + 1));
            lemma_split_char_len(s@.skip(i as int + 1), sep);
        }
        if c == sep {
            out.push(cur);
            cur = String::new();
            proof {
                let rest = split_char(s@.skip(i as int + 1), sep);
                assert(split_char(tail, sep) == seq![Seq::<char>::empty()] + rest);
                assert(prepend_first(prev_cur, split_char(tail, sep)) =~= seq![prev_cur] + rest);
                assert(prepend_first(Seq::<char>::empty(), rest) =~= rest) by {
                    assert(Seq::<char>::empty() + rest[0] =~= rest[0]);
                }
                assert(out.deep_view() =~= prev_out.push(prev_cur));
                assert(prev_out + prepend_first(prev_cur, split_char(tail, sep)) =~= out.deep_view()
                    + prepend_first(cur@, rest));
            }
        } else {
            push_char(&mut cur, c);
            proof {
                let rest = split_char(s@.skip(i as int + 1), sep);
                assert(split_char(tail, sep) == prepend_first(seq![c], rest));
                assert(prepend_first(prev_cur, prepend_first(seq![c], rest)) =~= prepend_first(
                    cur@,
                    rest,
                )) by {
                    assert(cur@ =~= prev_cur + seq![c]);
                    assert(prev_cur + (seq![c] + rest[0]) =~= (prev_cur + seq![c]) + rest[0]);
                }
            }
        }
        i += 1;
    }
    proof {
        assert(s@.skip(len as int) =~= Seq::<char>::empty());
        assert(split_char(Seq::<char>::empty(), sep) == seq![Seq::<char>::empty()]);
        assert(prepend_first(cur@, seq![Seq::<char>::empty()]) =~= seq![cur@]) by {
            assert(cur@ + Seq::<char>::empty() =~= cur@);
        }
    }
    let ghost prev_out = out.deep_view();
    let ghost last = cur@;
    out.push(cur);
    proof {
        assert(out.deep_view() =~= prev_out.push(last));
        assert(prev_out + seq![last] =~= prev_out.push(last));
    }
    out
}

/// The segments joined with `+` between them; empty for no segments.
pub open spec fn plus_joined(parts: Seq<Seq<char>>) -> Seq<char>
    decreases parts.len(),
{
    if parts.len() == 0 {
        Seq::<char>::empty()
    } else if parts.len() == 1 {
        parts[0]
    } else {
        parts[0] + seq!['+'] + plus_joined(parts.drop_first())
    }
}

pub proof fn lemma_plus_joined_push(parts: Seq<Seq<char>>, x: Seq<char>)
    ensures
        plus_joined(parts.push(x)) == if parts.len() == 0 {
            x
        } else {
            plus_joined(parts) + seq!['+'] + x
        },
    decreases parts.len(),
{
    if parts.len() == 0 {
        assert(parts.push(x)[0] == x);
    } else if parts.len() == 1 {
        assert(parts.push(x).drop_first() =~= seq![x]);
        assert(plus_joined(seq![x]) == x);
        assert(plus_joined(parts.push(x)) == parts[0] + seq!['+'] + x);
    } else {
        assert(parts.push(x).drop_first() =~= parts.drop_first().push(x));
        lemma_plus_joined_push(parts.drop_first(), x);
        assert(parts[0] + seq!['+'] + (plus_joined(parts.drop_first()) + seq!['+'] + x) =~= (
        parts[0] + seq!['+'] + plus_joined(parts.drop_first())) + seq!['+'] + x);
    }
}

/// Joins the parts with `+` between them, as a query parameter wants a
/// space-joined, URL-encoded list.
pub fn join_plus(parts: &Vec<String>) -> (r: String)
    ensures
        r@ == plus_joined(parts.deep_view()),
{
    let mut out = String::new();
    let mut i: usize = 0;
    while i < parts.len()
        invariant
            i <= parts@.len(),
            out@ == plus_joined(parts.deep_view().take(i as int)),
        decreases parts@.len() - i,
    {
        let ghost prev = out@;
        if i > 0 {
            push_char(&mut out, '+');
        }
        out.append(parts[i].as_str());
        proof {
            let dv = parts.deep_view();
            assert(dv.take(i as int + 1) =~= dv.take(i as int).push(dv[i as int]));
            lemma_plus_joined_push(dv.take(i as int), dv[i as int]);
            if i == 0 {
                assert(out@ =~= dv[0]);
            } else {
                assert(prev.push('+') + dv[i as int] =~= prev + seq!['+'] + dv[i as int]);
            }
        }
        i += 1;
    }
    proof {
        assert(parts.deep_view().take(parts@.len() as int) =~= parts.deep_view());
    }
    out
}

/// A decimal digit character.
pub open spec fn is_dec_digit(c: char) -> bool {
    48 <= c as u32 <= 57
}

/// The value of one decimal digit character.
pub open spec fn dec_digit_val(c: char) -> int {
    c as u32 - 48
}

/// Every character of `s` is a decimal digit.
pub open spec fn all_dec_digits(s: Seq<char>) -> bool {
    forall|i: int| 0 <= i < s.len() ==> is_dec_digit(#[trigger] s[i])
}

/// The value of the decimal numeral `s`; meaningful where every character
/// is a digit.
pub open spec fn dec_value(s: Seq<char>) -> int
    decreases s.len(),
{
    if s.len() == 0 {
        0
    } else {
        dec_value(s.drop_last()) * 10 + dec_digit_val(s.last())
    }
}

pub proof fn lemma_dec_value_nonneg(s: Seq<char>)
    requires
        all_dec_digits(s),
    ensures
        dec_value(s) >= 0,
    decreases s.len(),
{
    if s.len() > 0 {
        assert(all_dec_digits(s.drop_last()));
        lemma_dec_value_nonneg(s.drop_last());
    }
}

pub proof fn lemma_dec_value_extend(s: Seq<char>, i: int)
    requires
        all_dec_digits(s),
        0 <= i <= s.len(),
    ensures
        dec_value(s.take(i)) <= dec_value(s),
    decreases s.len() - i,
{
    if i < s.len() {
        assert(s.take(i + 1).drop_last() =~= s.take(i));
        assert(s.take(i + 1).last() == s[i]);
        assert(all_dec_digits(s.take(i)));
        lemma_dec_value_nonneg(s.take(i));
        lemma_dec_value_extend(s, i + 1);
    } else {
        assert(s.take(i) =~= s);
    }
}

/// The decimal numeral of `n` is made of digits and reads back as `n`:
/// what `u64_to_dec` writes, `parse_u64` accepts and returns unchanged.
pub proof fn lemma_dec_round_trip(n: nat)
    ensures
        dec_str_of(n).len() >= 1,
        all_dec_digits(dec_str_of(n)),
        dec_value(dec_str_of(n)) == n,
    decreases n,
{
    if n < 10 {
        assert(dec_digit_char(n as int) as u32 == n + 48);
        assert(seq![dec_digit_char(n as int)].drop_last() =~= Seq::<char>::empty());
        assert(dec_value(Seq::<char>::empty()) == 0);
    } else {
        lemma_dec_round_trip(n / 10);
        let prev = dec_str_of(n / 10);
        let c = dec_digit_char((n % 10) as int);
        assert(c as u32 == n % 10 + 48);
        assert(prev.push(c).drop_last() =~= prev);
        assert(prev.push(c).last() == c);
        assert(all_dec_digits(prev.push(c))) by {
            assert(forall|i: int|
                0 <= i < prev.len() ==> prev.push(c)[i] == #[trigger] prev[i]);
        }
        assert(dec_value(prev.push(c)) == dec_value(prev) * 10 + dec_digit_val(c));
    }
}

/// Reads an unsigned decimal numeral; `None` for an empty string, a
/// non-digit character, or a value over `u64::MAX`.
pub fn parse_u64(s: &str) -> (r: Option<u64>)
    ensures
        r is Some <==> (s@.len() > 0 && all_dec_digits(s@) && dec_value(s@) <= u64::MAX),
        r matches Some(n) ==> n as int == dec_value(s@),
{
    let len = s.unicode_len();
    if len == 0 {
        return None;
    }
    let mut acc: u64 = 0;
    let mut i: usize = 0;
    while i < len
        invariant
            0 < len == s@.len(),
            i <= len,
            all_dec_digits(s@.take(i as int)),
            acc as int == dec_value(s@.take(i as int)),
        decreases len - i,
    {
        let c = s.get_char(i);
        let u = c as u32;
        if u < 48 || u > 57 {
            proof {
                assert(!is_dec_digit(s@[i as int]));
            }
            return None;
        }
        let d: u64 = (u - 48) as u64;
        proof {
            assert(s@.take(i as int + 1).drop_last() =~= s@.take(i as int));
            assert(s@.take(i as int + 1).last() == s@[i as int]);
            assert(all_dec_digits(s@.take(i as int + 1)));
        }
        let scaled = match acc.checked_mul(10) {
            Some(x) => x,
            None => {
                proof {
                    if all_dec_digits(s@) {
                        lemma_dec_value_extend(s@, i as int + 1);
                    }
                }
                return None;
            },
        };
        let next = match scaled.checked_add(d) {
            Some(x) => x,
            None => {
                proof {
                    if all_dec_digits(s@) {
                        lemma_dec_value_extend(s@, i as int + 1);
                    }
                }
                return None;
            },
        };
        acc = next;
        i += 1;
    }
    proof {
        assert(s@.take(len as int) =~= s@);
    }
    Some(acc)
}

} // verus!
