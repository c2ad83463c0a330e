//! Small verified helpers over strings: equality and decimal conversion.

use vstd::prelude::*;

verus! {

/// Exact string equality, stated over the character views.
pub fn str_equal(a: &str, b: &str) -> (r: bool)
    ensures
        r == (a@ == b@),
{
    let sa = a.to_owned();
    let sb = b.to_owned();
    sa == sb
}

pub open spec fn is_dec_digit(c: char) -> bool {
    '0' <= c && c <= '9'
}

pub open spec fn digit_val(c: char) -> int {
    c as u32 - '0' as u32
}

/// The numeric value of a sequence of decimal digits, most significant first.
pub open spec fn digits_value(s: Seq<char>) -> int
    decreases s.len(),
{
    if s.len() == 0 {
        0
    } else {
        digits_value(s.drop_last()) * 10 + digit_val(s.last())
    }
}

pub open spec fn all_dec_digits(s: Seq<char>) -> bool {
    forall|i: int| 0 <= i < s.len() ==> is_dec_digit(s[i])
}

/// The digits of a decimal number, optionally preceded by a plus sign.
pub open spec fn numeric_body(s: Seq<char>) -> Seq<char> {
    if s.len() > 0 && s[0] == '+' {
        s.subrange(1, s.len() as int)
    } else {
        s
    }
}

/// Whether `s` is a well-formed decimal rendering of a value that fits in
/// `u64`: an optional plus sign, then at least one digit, no other text.
pub open spec fn parses_as_u64(s: Seq<char>) -> bool {
    let b = numeric_body(s);
    b.len() > 0 && all_dec_digits(b) && digits_value(b) <= u64::MAX
}

pub open spec fn parsed_u64(s: Seq<char>) -> u64 {
    digits_value(numeric_body(s)) as u64
}

proof fn lemma_digits_value_nonneg(s: Seq<char>)
    requires
        all_dec_digits(s),
    ensures
        digits_value(s) >= 0,
    decreases s.len(),
{
    if s.len() > 0 {
        assert(all_dec_digits(s.drop_last()));
        lemma_digits_value_nonneg(s.drop_last());
    }
}

/// A longer digit prefix never has a smaller value.
proof fn lemma_digits_prefix_mono(s: Seq<char>, j: int, k: int)
    requires
        all_dec_digits(s),
        0 <= j <= k <= s.len(),
    ensures
        digits_value(s.take(j)) <= digits_value(s.take(k)),
    decreases k - j,
{
    if j < k {
        lemma_digits_prefix_mono(s, j, k - 1);
        assert(s.take(k).drop_last() =~= s.take(k - 1));
        assert(all_dec_digits(s.take(k - 1)));
        lemma_digits_value_nonneg(s.take(k - 1));
        assert(digits_value(s.take(k)) == digits_value(s.take(k - 1)) * 10 + digit_val(
            s.take(k).last(),
        ));
    }
}

/// Reads a decimal `u64`, accepting exactly what `str::parse::<u64>` accepts
/// on plain text: an optional leading plus sign followed by one or more
/// digits, with the value in range. Anything else gives `None`.
pub fn parse_u64(s: &str) -> (r: Option<u64>)
    ensures
        r is Some <==> parses_as_u64(s@),
        r matches Some(v) ==> v == parsed_u64(s@),
{
    let n = s.unicode_len();
    let mut i: usize = 0;
    if n > 0 && s.get_char(0) == '+' {
        i = 1;
    }
    let ghost start = i as int;
    let ghost body = s@.subrange(start, n as int);
    assert(body =~= numeric_body(s@));
    if i == n {
        return None;
    }
    let mut acc: u64 = 0;
    while i < n
        invariant
            0 <= start <= i <= n,
            n == s@.len(),
            body == s@.subrange(start, n as int),
            body =~= numeric_body(s@),
            all_dec_digits(s@.subrange(start, i as int)),
            acc == digits_value(s@.subrange(start, i as int)),
        decreases n - i,
    {
        let c = s.get_char(i);
        proof {
            assert(s@.subrange(start, i + 1).drop_last() =~= s@.subrange(start, i as int));
            assert(s@.subrange(start, i + 1).last() == s@[i as int]);
        }
        if !(c >= '0' && c <= '9') {
            assert(!all_dec_digits(body)) by {
                assert(body[i - start] == s@[i as int]);
            }
            return None;
        }
        let d: u64 = (c as u32 - 48) as u64;
        let overflow = acc > u64::MAX / 10 || (acc == u64::MAX / 10 && d > u64::MAX % 10);
        if overflow {
            proof {
                assert(digits_value(s@.subrange(start, i + 1)) > u64::MAX);
                assert(body.take(i + 1 - start) =~= s@.subrange(start, i + 1));
                assert(body.take(body.len() as int) =~= body);
                if all_dec_digits(body) {
                    lemma_digits_prefix_mono(body, i + 1 - start, body.len() as int);
                }
            }
            return None;
        }
        acc = acc * 10 + d;
        i = i + 1;
    }
    proof {
        assert(s@.subrange(start, n as int) =~= body);
    }
    Some(acc)
}

pub open spec fn digit_char(d: int) -> char {
    if d == 0 {
        '0'
    } else if d == 1 {
        '1'
    } else if d == 2 {
        '2'
    } else if d == 3 {
        '3'
    } else if d == 4 {
        '4'
    } else if d == 5 {
        '5'
    } else if d == 6 {
        '6'
    } else if d == 7 {
        '7'
    } else if d == 8 {
        '8'
    } else {
        '9'
    }
}

/// The decimal rendering of `n`, most significant digit first.
pub open spec fn dec_chars(n: nat) -> Seq<char>
    decreases n,
{
    if n < 10 {
        seq![digit_char(n as int)]
    } else {
        dec_chars(n / 10).push(digit_char((n % 10) as int))
    }
}

pub(crate) fn digit_str(d: u64) -> (r: &'static str)
    requires
        d < 10,
    ensures
        r@ == seq![digit_char(d as int)],
{
    proof {
        reveal_strlit("0");
        reveal_strlit("1");
        reveal_strlit("2");
        reveal_strlit("3");
        reveal_strlit("4");
        reveal_strlit("5");
        reveal_strlit("6");
        reveal_strlit("7");
        reveal_strlit("8");
        reveal_strlit("9");
    }
    let r = if d == 0 {
        "0"
    } else if d == 1 {
        "1"
    } else if d == 2 {
        "2"
    } else if d == 3 {
        "3"
    } else if d == 4 {
        "4"
    } else if d == 5 {
        "5"
    } else if d == 6 {
        "6"
    } else if d == 7 {
        "7"
    } else if d == 8 {
        "8"
    } else {
        "9"
    };
    proof {
        assert(r@ =~= seq![digit_char(d as int)]);
    }
    r
}

/// Index of the last path separator in `s`, or -1 where there is none.
pub open spec fn last_slash(s: Seq<char>) -> int
    decreases s.len(),
{
    if s.len() == 0 {
        -1
    } else if s.last() == '/' {
        s.len() - 1
    } else {
        last_slash(s.drop_last())
    }
}

/// The file name a path denotes: everything after the last separator.
pub open spec fn base_name_spec(s: Seq<char>) -> Seq<char> {
    s.subrange(last_slash(s) + 1, s.len() as int)
}

proof fn lemma_last_slash_in_range(s: Seq<char>)
    ensures
        -1 <= last_slash(s) < s.len(),
    decreases s.len(),
{
    if s.len() > 0 && s.last() != '/' {
        lemma_last_slash_in_range(s.drop_last());
    }
}

/// Extracts the file name from a `/`-separated path.
pub fn base_name(path: &str) -> (r: String)
    ensures
        r@ == base_name_spec(path@),
{
    let n = path.unicode_len();
    proof {
        lemma_last_slash_in_range(path@);
        assert(path@.take(n as int) =~= path@);
    }
    let mut i: usize = n;
    while i > 0
        invariant
            0 <= i <= n,
            n == path@.len(),
            last_slash(path@) == last_slash(path@.take(i as int)),
        decreases i,
    {
        let c = path.get_char(i - 1);
        proof {
            assert(path@.take(i as int).drop_last() =~= path@.take(i - 1));
            assert(path@.take(i as int).last() == path@[i - 1]);
        }
        if c == '/' {
            let r = path.substring_char(i, n);
            return r.to_owned();
        }
        i = i - 1;
    }
    proof {
        assert(path@.take(0).len() == 0);
        assert(path@.subrange(0, n as int) =~= path@);
    }
    path.to_owned()
}

/// Renders `n` in decimal.
pub fn u64_to_string(n: u64) -> (r: String)
    ensures
        r@ == dec_chars(n as nat),
    decreases n,
{
    if n < 10 {
        digit_str(n).to_owned()
    } else {
        let mut s = u64_to_string(n / 10);
        s.append(digit_str(n % 10));
        proof {
            assert(s@ =~= dec_chars((n / 10) as nat).push(digit_char((n % 10) as int)));
        }
        s
    }
}

} // verus!
