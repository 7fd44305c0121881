//! Small text helpers: decimal rendering of integers, prefix tests and
//! truncation by characters.

use vstd::prelude::*;

verus! {

/// The character of the decimal digit `d`.
pub open spec fn digit_char(d: int) -> char {
    if d == 0 {
        '0'
    } else if d == 1 {
        '1'
    } else if d == 2 {
        '2'
    } else if d == 3 {
        '3'
    } else if d == 4 {
        '4'
    } else if d == 5 {
        '5'
    } else if d == 6 {
        '6'
    } else if d == 7 {
        '7'
    } else if d == 8 {
        '8'
    } else {
        '9'
    }
}

/// The decimal digits of `n`, most significant first, with no leading
/// zero.
pub open spec fn decimal(n: nat) -> Seq<char>
    decreases n,
{
    if n < 10 {
        seq![digit_char(n as int)]
    } else {
        decimal(n / 10).push(digit_char((n % 10) as int))
    }
}

/// The decimal text of `n`, with a leading minus sign when it is negative.
pub open spec fn signed_decimal(n: int) -> Seq<char> {
    if n < 0 {
        seq!['-'] + decimal((-n) as nat)
    } else {
        decimal(n as nat)
    }
}

fn digit_str(d: u64) -> (r: &'static str)
    requires
        d < 10,
    ensures
        r@ == seq![digit_char(d as int)],
{
    proof {
        reveal_strlit("0");
        reveal_strlit("1");
        reveal_strlit("2");
        reveal_strlit("3");
        reveal_strlit("4");
        reveal_strlit("5");
        reveal_strlit("6");
        reveal_strlit("7");
        reveal_strlit("8");
        reveal_strlit("9");
    }
    let r = if d == 0 {
        "0"
    } else if d == 1 {
        "1"
    } else if d == 2 {
        "2"
    } else if d == 3 {
        "3"
    } else if d == 4 {
        "4"
    } else if d == 5 {
        "5"
    } else if d == 6 {
        "6"
    } else if d == 7 {
        "7"
    } else if d == 8 {
        "8"
    } else {
        "9"
    };
    assert(r@ =~= seq![digit_char(d as int)]);
    r
}

/// Appends the decimal digits of `n` to `out`.
pub fn push_decimal(out: &mut String, n: u64)
    ensures
        final(out)@ == old(out)@ + decimal(n as nat),
    decreases n,
{
    if n >= 10 {
        push_decimal(out, n / 10);
    }
    out.append(digit_str(n % 10));
    assert(out@ =~= old(out)@ + decimal(n as nat));
}

/// Appends the decimal text of `n` to `out`, with a minus sign when `n` is
/// negative.
pub fn push_signed_decimal(out: &mut String, n: i64)
    ensures
        final(out)@ == old(out)@ + signed_decimal(n as int),
{
    if n < 0 {
        proof {
            reveal_strlit("-");
        }
        out.append("-");
        let magnitude: u64 = if n == i64::MIN {
            9223372036854775808u64
        } else {
            (-n) as u64
        };
        push_decimal(out, magnitude);
        assert(out@ =~= old(out)@ + signed_decimal(n as int));
    } else {
        push_decimal(out, n as u64);
    }
}

/// The decimal text of `n`.
pub fn u64_to_string(n: u64) -> (s: String)
    ensures
        s@ == decimal(n as nat),
{
    let mut s = String::new();
    push_decimal(&mut s, n);
    assert(s@ =~= decimal(n as nat));
    s
}

/// The decimal text of `n`, with a leading minus sign when it is negative.
pub fn i64_to_string(n: i64) -> (s: String)
    ensures
        s@ == signed_decimal(n as int),
{
    let mut s = String::new();
    push_signed_decimal(&mut s, n);
    assert(s@ =~= signed_decimal(n as int));
    s
}

/// Whether `s` begins with `prefix`, character by character.
pub fn starts_with(s: &str, prefix: &str) -> (b: bool)
    ensures
        b == prefix@.is_prefix_of(s@),
{
    let n = prefix.unicode_len();
    if s.unicode_len() < n {
        return false;
    }
    let head = String::from_str(s.substring_char(0, n));
    let wanted = String::from_str(prefix);
    assert(prefix@.subrange(0, n as int) =~= prefix@);
    head == wanted
}

/// The text of `s` cut to its first `max_chars` characters and followed by
/// three dots; `s` itself where it is no longer than that.
pub open spec fn truncated(s: Seq<char>, max_chars: int) -> Seq<char> {
    if s.len() > max_chars {
        s.take(max_chars) + "..."@
    } else {
        s
    }
}

/// Cuts a text to at most `max_chars` characters, counting characters and
/// not bytes, and marks the cut with three dots.
pub fn truncate_str(s: &str, max_chars: usize) -> (t: String)
    ensures
        t@ == truncated(s@, max_chars as int),
{
    let char_count = s.unicode_len();
    if char_count > max_chars {
        let mut t = String::from_str(s.substring_char(0, max_chars));
        t.append("...");
        t
    } else {
        String::from_str(s)
    }
}

/// A white-space character, as Unicode defines white space.
pub open spec fn is_space(c: char) -> bool {
    let u = c as u32;
    ||| 0x09 <= u <= 0x0D
    ||| u == 0x20
    ||| u == 0x85
    ||| u == 0xA0
    ||| u == 0x1680
    ||| 0x2000 <= u <= 0x200A
    ||| u == 0x2028
    ||| u == 0x2029
    ||| u == 0x202F
    ||| u == 0x205F
    ||| u == 0x3000
}

/// Whether `c` is a white-space character.
pub fn char_is_space(c: char) -> (b: bool)
    ensures
        b == is_space(c),
{
    let u = c as u32;
    (0x09 <= u && u <= 0x0D) || u == 0x20 || u == 0x85 || u == 0xA0 || u == 0x1680 || (0x2000
        <= u && u <= 0x200A) || u == 0x2028 || u == 0x2029 || u == 0x202F || u == 0x205F || u
        == 0x3000
}

/// How many white-space characters `s` begins with.
pub open spec fn leading_spaces(s: Seq<char>) -> nat
    decreases s.len(),
{
    if s.len() > 0 && is_space(s[0]) {
        1 + leading_spaces(s.skip(1))
    } else {
        0
    }
}

/// `s` without the white space it begins with.
pub open spec fn trimmed_start(s: Seq<char>) -> Seq<char> {
    s.skip(leading_spaces(s) as int)
}

/// If the first `n` characters of `s` are white space and the next one, if
/// there is one, is not, then `s` begins with exactly `n` white-space
/// characters.
pub proof fn lemma_leading_spaces(s: Seq<char>, n: int)
    requires
        0 <= n <= s.len(),
        forall|i: int| 0 <= i < n ==> is_space(#[trigger] s[i]),
        n < s.len() ==> !is_space(s[n]),
    ensures
        leading_spaces(s) == n,
    decreases n,
{
    if n > 0 {
        let _ = s[0];
        let rest = s.skip(1);
        assert forall|i: int| 0 <= i < n - 1 implies is_space(#[trigger] rest[i]) by {
            let _ = s[i + 1];
        }
        lemma_leading_spaces(rest, n - 1);
    }
}

/// `s` without the white space it begins with.
pub fn trim_start(s: &str) -> (r: &str)
    ensures
        r@ == trimmed_start(s@),
{
    let len = s.unicode_len();
    let mut n: usize = 0;
    let mut done = false;
    for c in it: s.chars()
        invariant
            it.seq() == s@,
            len == s@.len(),
            n <= it.index(),
            done ==> n < s@.len() && !is_space(s@[n as int]),
            !done ==> n == it.index(),
            forall|i: int| 0 <= i < n ==> is_space(#[trigger] s@[i]),
    {
        if !done {
            if char_is_space(c) {
                n = n + 1;
            } else {
                done = true;
            }
        }
    }
    proof {
        lemma_leading_spaces(s@, n as int);
    }
    s.substring_char(n, len)
}

/// `s` with every occurrence of `pat` taken out, found from left to right,
/// each search going on after the last occurrence taken. An empty `pat`
/// takes nothing out.
pub open spec fn without(s: Seq<char>, pat: Seq<char>) -> Seq<char>
    decreases s.len(),
{
    if pat.len() == 0 || s.len() == 0 {
        s
    } else if pat.is_prefix_of(s) {
        without(s.skip(pat.len() as int), pat)
    } else {
        seq![s[0]] + without(s.skip(1), pat)
    }
}

/// Takes every occurrence of `pat` out of `s`.
pub fn remove_all(s: &str, pat: &str) -> (r: String)
    ensures
        r@ == without(s@, pat@),
{
    let m = pat.unicode_len();
    if m == 0 {
        return String::from_str(s);
    }
    let n = s.unicode_len();
    let mut out = String::new();
    let mut i: usize = 0;
    assert(s@.skip(0) =~= s@);
    while i < n
        invariant
            i <= n,
            n == s@.len(),
            m == pat@.len(),
            m > 0,
            out@ + without(s@.skip(i as int), pat@) == without(s@, pat@),
        decreases n - i,
    {
        let rest = s.substring_char(i, n);
        assert(rest@ =~= s@.skip(i as int));
        if starts_with(rest, pat) {
            assert(rest@.skip(m as int) =~= s@.skip(i + m));
            i = i + m;
        } else {
            let one = s.substring_char(i, i + 1);
            assert(one@ =~= seq![rest@[0]]);
            assert(rest@.skip(1) =~= s@.skip(i + 1));
            let ghost before = out@;
            out.append(one);
            assert(out@ + without(s@.skip(i + 1), pat@) =~= before + (seq![rest@[0]] + without(
                rest@.skip(1),
                pat@,
            )));
            i = i + 1;
        }
    }
    assert(s@.skip(n as int) =~= Seq::<char>::empty());
    assert(out@ + Seq::<char>::empty() =~= out@);
    out
}

/// A decimal digit.
pub open spec fn is_digit(c: char) -> bool {
    48 <= c as u32 <= 57
}

/// The number that a decimal digit stands for.
pub open spec fn digit_value(c: char) -> nat {
    (c as u32 - 48) as nat
}

/// The number that a run of decimal digits stands for; zero for none.
pub open spec fn digits_value(s: Seq<char>) -> nat
    decreases s.len(),
{
    if s.len() == 0 {
        0
    } else {
        digits_value(s.drop_last()) * 10 + digit_value(s.last())
    }
}

/// Every character is a decimal digit.
pub open spec fn all_digits(s: Seq<char>) -> bool {
    forall|i: int| 0 <= i < s.len() ==> is_digit(#[trigger] s[i])
}

/// What is left of `s` after one leading plus sign, if it has one.
pub open spec fn after_plus(s: Seq<char>) -> Seq<char> {
    if s.len() > 0 && s[0] == '+' {
        s.skip(1)
    } else {
        s
    }
}

/// The unsigned number that `s` is the decimal text of: an optional plus
/// sign and then at least one digit, nothing else, and a value that a
/// `u64` can hold. Any other text stands for no number.
pub open spec fn unsigned_of(s: Seq<char>) -> Option<u64> {
    let body = after_plus(s);
    if body.len() > 0 && all_digits(body) && digits_value(body) <= u64::MAX {
        Some(digits_value(body) as u64)
    } else {
        None
    }
}

/// A run of digits stands for no less than any run it begins with.
pub proof fn lemma_digits_value_grows(s: Seq<char>, k: int)
    requires
        0 <= k <= s.len(),
    ensures
        digits_value(s.take(k)) <= digits_value(s),
    decreases s.len() - k,
{
    if k < s.len() {
        lemma_digits_value_grows(s.drop_last(), k);
        assert(s.drop_last().take(k) =~= s.take(k));
    } else {
        assert(s.take(k) =~= s);
    }
}

/// Reads `s` as an unsigned decimal number.
pub fn parse_u64(s: &str) -> (r: Option<u64>)
    ensures
        r == unsigned_of(s@),
{
    let len = s.unicode_len();
    let mut acc: u64 = 0;
    let mut bad = false;
    let mut signed = false;
    let mut seen: usize = 0;
    for c in it: s.chars()
        invariant
            it.seq() == s@,
            len == s@.len(),
            seen == it.index(),
            signed <==> (s@.len() > 0 && s@[0] == '+' && it.index() > 0),
            bad ==> unsigned_of(s@) is None,
            !bad ==> {
                let start: int = if signed {
                    1
                } else {
                    0
                };
                &&& all_digits(s@.subrange(start, it.index() as int))
                &&& digits_value(s@.subrange(start, it.index() as int)) == acc
            },
    {
        let ghost i = it.index() as int;
        let ghost body = after_plus(s@);
        if seen == 0 && c == '+' {
            signed = true;
            assert(s@.subrange(1, 1) =~= Seq::<char>::empty());
        } else if !bad {
            let ghost start: int = if signed {
                1
            } else {
                0
            };
            let ghost prefix = s@.subrange(start, i);
            let ghost next = s@.subrange(start, i + 1);
            proof {
                assert(next.drop_last() =~= prefix);
                assert(next.last() == c);
                assert(body =~= s@.skip(start));
                assert(body.take(i + 1 - start) =~= next);
                assert(body[i - start] == c);
            }
            let u = c as u32;
            if 48 <= u && u <= 57 {
                let d = (u - 48) as u64;
                match acc.checked_mul(10) {
                    Some(tens) => match tens.checked_add(d) {
                        Some(value) => {
                            acc = value;
                        },
                        None => {
                            proof {
                                lemma_digits_value_grows(body, i + 1 - start);
                            }
                            bad = true;
                        },
                    },
                    None => {
                        proof {
                            lemma_digits_value_grows(body, i + 1 - start);
                        }
                        bad = true;
                    },
                }
            } else {
                bad = true;
            }
        }
        seen = seen + 1;
    }
    proof {
        let start: int = if signed {
            1
        } else {
            0
        };
        assert(after_plus(s@) =~= s@.subrange(start, s@.len() as int));
    }
    if bad || (signed && len == 1) || len == 0 {
        None
    } else {
        Some(acc)
    }
}

} // verus!
