use vstd::prelude::*;
use vstd::string::StrSliceExecFns;
use vstd::string::StringExecFns;

verus! {

/// Whether `c` is an ASCII decimal digit.
pub open spec fn spec_is_digit(c: char) -> bool {
    48 <= c as u32 && c as u32 <= 57
}

/// Numeric value of a digit character; zero on anything else.
pub open spec fn spec_digit_val(c: char) -> nat {
    if spec_is_digit(c) {
        (c as u32 - 48) as nat
    } else {
        0
    }
}

/// The digit character for `d` below ten.
pub open spec fn spec_digit_char(d: nat) -> char {
    if d == 0 {
        '0'
    } else if d == 1 {
        '1'
    } else if d == 2 {
        '2'
    } else if d == 3 {
        '3'
    } else if d == 4 {
        '4'
    } else if d == 5 {
        '5'
    } else if d == 6 {
        '6'
    } else if d == 7 {
        '7'
    } else if d == 8 {
        '8'
    } else {
        '9'
    }
}

/// Decimal rendering of `n`, most significant digit first, no leading zeros
/// except for zero itself.
pub open spec fn spec_dec_digits(n: nat) -> Seq<char>
    decreases n,
{
    if n < 10 {
        seq![spec_digit_char(n)]
    } else {
        spec_dec_digits(n / 10).push(spec_digit_char(n % 10))
    }
}

/// Whether every character of `s` is a decimal digit.
pub open spec fn spec_all_digits(s: Seq<char>) -> bool {
    forall|i: int| 0 <= i < s.len() ==> spec_is_digit(#[trigger] s[i])
}

/// The number a digit sequence denotes, most significant digit first.
pub open spec fn spec_dec_val(s: Seq<char>) -> nat
    decreases s.len(),
{
    if s.len() == 0 {
        0
    } else {
        spec_dec_val(s.drop_last()) * 10 + spec_digit_val(s.last())
    }
}

/// Decimal rendering is faithful: it is non-empty, made of digits alone,
/// and denotes the number it was made from.
pub proof fn lemma_dec_digits_props(n: nat)
    ensures
        spec_dec_digits(n).len() >= 1,
        spec_all_digits(spec_dec_digits(n)),
        spec_dec_val(spec_dec_digits(n)) == n,
    decreases n,
{
    if n < 10 {
        let s = spec_dec_digits(n);
        assert(spec_is_digit(spec_digit_char(n)));
        assert(spec_digit_val(spec_digit_char(n)) == n);
        assert(s.len() == 1);
        assert(s.last() == spec_digit_char(n));
        assert(s.drop_last() =~= Seq::<char>::empty());
        assert(spec_dec_val(Seq::<char>::empty()) == 0);
        assert(spec_dec_val(s) == n);
    } else {
        lemma_dec_digits_props(n / 10);
        vstd::arithmetic::div_mod::lemma_fundamental_div_mod(n as int, 10);
        let s = spec_dec_digits(n / 10);
        let c = spec_digit_char(n % 10);
        assert(spec_is_digit(c));
        assert(spec_digit_val(c) == n % 10);
        assert(s.push(c).drop_last() =~= s);
        assert(s.push(c).last() == c);
        assert(spec_dec_val(s.push(c)) == (n / 10) * 10 + n % 10);
        assert(spec_all_digits(s.push(c))) by {
            assert(forall|i: int|
                0 <= i < s.push(c).len() ==> spec_is_digit(#[trigger] s.push(c)[i]));
        }
    }
}

/// A prefix of a digit sequence never denotes more than the whole.
pub proof fn lemma_dec_val_prefix(s: Seq<char>, i: int)
    requires
        0 <= i <= s.len(),
    ensures
        spec_dec_val(s.subrange(0, i)) <= spec_dec_val(s),
    decreases s.len() - i,
{
    if i == s.len() {
        assert(s.subrange(0, i) =~= s);
    } else {
        let t = s.subrange(0, i + 1);
        assert(t.drop_last() =~= s.subrange(0, i));
        assert(spec_dec_val(s.subrange(0, i)) * 10 >= spec_dec_val(s.subrange(0, i)));
        assert(spec_dec_val(s.subrange(0, i)) <= spec_dec_val(t));
        lemma_dec_val_prefix(s, i + 1);
    }
}

/// Appends one digit character to `s`.
fn push_digit(s: &mut String, d: u32)
    requires
        d < 10,
    ensures
        final(s)@ == old(s)@ + seq![spec_digit_char(d as nat)],
{
    proof {
        reveal_strlit("0");
        reveal_strlit("1");
        reveal_strlit("2");
        reveal_strlit("3");
        reveal_strlit("4");
        reveal_strlit("5");
        reveal_strlit("6");
        reveal_strlit("7");
        reveal_strlit("8");
        reveal_strlit("9");
    }
    if d == 0 {
        s.append("0");
        assert(s@ =~= old(s)@ + seq![spec_digit_char(d as nat)]);
    } else if d == 1 {
        s.append("1");
        assert(s@ =~= old(s)@ + seq![spec_digit_char(d as nat)]);
    } else if d == 2 {
        s.append("2");
        assert(s@ =~= old(s)@ + seq![spec_digit_char(d as nat)]);
    } else if d == 3 {
        s.append("3");
        assert(s@ =~= old(s)@ + seq![spec_digit_char(d as nat)]);
    } else if d == 4 {
        s.append("4");
        assert(s@ =~= old(s)@ + seq![spec_digit_char(d as nat)]);
    } else if d == 5 {
        s.append("5");
        assert(s@ =~= old(s)@ + seq![spec_digit_char(d as nat)]);
    } else if d == 6 {
        s.append("6");
        assert(s@ =~= old(s)@ + seq![spec_digit_char(d as nat)]);
    } else if d == 7 {
        s.append("7");
        assert(s@ =~= old(s)@ + seq![spec_digit_char(d as nat)]);
    } else if d == 8 {
        s.append("8");
        assert(s@ =~= old(s)@ + seq![spec_digit_char(d as nat)]);
    } else {
        s.append("9");
        assert(s@ =~= old(s)@ + seq![spec_digit_char(d as nat)]);
    }
}

/// Appends the decimal rendering of `n` to `s`.
pub fn push_decimal(s: &mut String, n: u32)
    ensures
        final(s)@ == old(s)@ + spec_dec_digits(n as nat),
    decreases n,
{
    if n >= 10 {
        push_decimal(s, n / 10);
    }
    push_digit(s, n % 10);
    proof {
        if n < 10 {
            assert(s@ =~= old(s)@ + spec_dec_digits(n as nat));
        } else {
            assert(s@ =~= old(s)@ + spec_dec_digits(n as nat));
        }
    }
}

/// Decimal rendering of `n` as a fresh string.
pub fn u32_to_decimal(n: u32) -> (s: String)
    ensures
        s@ == spec_dec_digits(n as nat),
{
    let mut s = String::new();
    push_decimal(&mut s, n);
    proof {
        assert(s@ =~= spec_dec_digits(n as nat));
    }
    s
}

/// Parses `s[from..to]` as an unsigned decimal number of at most `max`.
/// Returns the value exactly when that range is a non-empty run of digits
/// denoting a number within the bound.
pub fn parse_decimal_range(s: &str, from: usize, to: usize, max: u64) -> (r: Option<u64>)
    requires
        from <= to <= s@.len(),
        max <= u32::MAX as u64,
    ensures
        ({
            let digits = s@.subrange(from as int, to as int);
            r == if from < to && spec_all_digits(digits) && spec_dec_val(digits) <= max {
                Some(spec_dec_val(digits) as u64)
            } else {
                None::<u64>
            }
        }),
{
    let ghost digits = s@.subrange(from as int, to as int);
    if from == to {
        return None;
    }
    let mut acc: u64 = 0;
    let mut i: usize = from;
    while i < to
        invariant
            from <= i <= to <= s@.len(),
            max <= u32::MAX as u64,
            digits == s@.subrange(from as int, to as int),
            spec_all_digits(s@.subrange(from as int, i as int)),
            acc as nat == spec_dec_val(s@.subrange(from as int, i as int)),
            acc <= max,
        decreases to - i,
    {
        let c = s.get_char(i);
        let cv = c as u32;
        proof {
            assert(s@.subrange(from as int, i as int + 1).drop_last() =~= s@.subrange(
                from as int,
                i as int,
            ));
            assert(s@.subrange(from as int, i as int + 1).last() == s@[i as int]);
        }
        if cv < 48 || cv > 57 {
            proof {
                assert(digits[i - from] == s@[i as int]);
                assert(!spec_all_digits(digits));
            }
            return None;
        }
        let d = (cv - 48) as u64;
        let next: u64 = acc * 10 + d;
        if next > max {
            proof {
                let upto = s@.subrange(from as int, i as int + 1);
                assert(spec_dec_val(upto) == next as nat);
                assert(upto =~= digits.subrange(0, i - from + 1));
                lemma_dec_val_prefix(digits, i - from + 1);
                assert(spec_dec_val(digits) > max);
            }
            return None;
        }
        acc = next;
        i += 1;
    }
    proof {
        assert(s@.subrange(from as int, i as int) =~= digits);
    }
    Some(acc)
}

/// Character-for-character string equality.
pub fn str_eq(a: &str, b: &str) -> (r: bool)
    ensures
        r == (a@ == b@),
{
    let alen = a.unicode_len();
    let blen = b.unicode_len();
    if alen != blen {
        return false;
    }
    let mut i: usize = 0;
    while i < alen
        invariant
            i <= alen,
            alen == a@.len(),
            alen == b@.len(),
            forall|k: int| 0 <= k < i ==> a@[k] == b@[k],
        decreases alen - i,
    {
        if a.get_char(i) != b.get_char(i) {
            return false;
        }
        i += 1;
    }
    proof {
        assert(a@ =~= b@);
    }
    true
}

/// Whether `n` occurs in `h` starting at position `i`.
pub open spec fn spec_contains_at(h: Seq<char>, n: Seq<char>, i: int) -> bool {
    0 <= i && i + n.len() <= h.len() && h.subrange(i, i + n.len() as int) == n
}

/// Whether `n` occurs somewhere in `h`.
pub open spec fn spec_contains(h: Seq<char>, n: Seq<char>) -> bool {
    exists|i: int| spec_contains_at(h, n, i)
}

/// Whether `needle` occurs in `haystack` starting at character `i`.
fn match_at(haystack: &str, needle: &str, i: usize) -> (r: bool)
    requires
        i + needle@.len() <= haystack@.len(),
    ensures
        r == spec_contains_at(haystack@, needle@, i as int),
{
    let hlen = haystack.unicode_len();
    let nlen = needle.unicode_len();
    let mut j: usize = 0;
    while j < nlen
        invariant
            j <= nlen,
            nlen == needle@.len(),
            hlen == haystack@.len(),
            i + nlen <= hlen,
            forall|k: int| 0 <= k < j ==> haystack@[i + k] == needle@[k],
        decreases nlen - j,
    {
        if haystack.get_char(i + j) != needle.get_char(j) {
            proof {
                let sub = haystack@.subrange(i as int, i as int + nlen as int);
                assert(sub[j as int] != needle@[j as int]);
            }
            return false;
        }
        j += 1;
    }
    proof {
        assert(haystack@.subrange(i as int, i as int + nlen as int) =~= needle@);
    }
    true
}

/// Substring search: whether `needle` occurs anywhere in `haystack`.
pub fn str_contains(haystack: &str, needle: &str) -> (r: bool)
    ensures
        r == spec_contains(haystack@, needle@),
{
    let hlen = haystack.unicode_len();
    let nlen = needle.unicode_len();
    if nlen > hlen {
        proof {
            assert(forall|i: int| !spec_contains_at(haystack@, needle@, i));
        }
        return false;
    }
    if nlen == 0 {
        proof {
            assert(haystack@.subrange(0, 0) =~= needle@);
            assert(spec_contains_at(haystack@, needle@, 0));
        }
        return true;
    }
    let mut i: usize = 0;
    while i <= hlen - nlen
        invariant
            1 <= nlen <= hlen,
            hlen == haystack@.len(),
            nlen == needle@.len(),
            i <= hlen - nlen + 1,
            forall|j: int| 0 <= j < i ==> !spec_contains_at(haystack@, needle@, j),
        decreases hlen - nlen + 1 - i,
    {
        if match_at(haystack, needle, i) {
            return true;
        }
        i += 1;
    }
    proof {
        assert(forall|j: int| !spec_contains_at(haystack@, needle@, j));
    }
    false
}

} // verus!
