use vstd::prelude::*;

verus! {

use vstd::arithmetic::div_mod::lemma_fundamental_div_mod;

/// The ten ASCII digits.
pub open spec fn is_digit(c: char) -> bool {
    '0' <= c && c <= '9'
}

/// Numeric value of one digit character.
pub open spec fn digit_val(c: char) -> int {
    c as int - '0' as int
}

/// Every character of the sequence is an ASCII digit.
pub open spec fn all_digits(s: Seq<char>) -> bool {
    forall|j: int| 0 <= j < s.len() ==> is_digit(#[trigger] s[j])
}

/// The number a digit sequence denotes in base ten (most significant first).
pub open spec fn digits_val(s: Seq<char>) -> int
    decreases s.len(),
{
    if s.len() == 0 {
        0
    } else {
        digits_val(s.drop_last()) * 10 + digit_val(s.last())
    }
}

/// How many characters at the front of the sequence are digits.
pub open spec fn leading_digits(s: Seq<char>) -> int
    decreases s.len(),
{
    if s.len() == 0 || !is_digit(s[0]) {
        0
    } else {
        1 + leading_digits(s.skip(1))
    }
}

proof fn lemma_digits_val_nonneg(s: Seq<char>)
    requires
        all_digits(s),
    ensures
        digits_val(s) >= 0,
    decreases s.len(),
{
    if s.len() > 0 {
        assert(all_digits(s.drop_last()));
        lemma_digits_val_nonneg(s.drop_last());
    }
}

proof fn lemma_digits_val_take_succ(s: Seq<char>, i: int)
    requires
        0 <= i < s.len(),
    ensures
        digits_val(s.take(i + 1)) == digits_val(s.take(i)) * 10 + digit_val(s[i]),
{
    assert(s.take(i + 1).drop_last() =~= s.take(i));
    assert(s.take(i + 1).last() == s[i]);
}

proof fn lemma_digits_val_prefix_le(s: Seq<char>, i: int)
    requires
        0 <= i <= s.len(),
        all_digits(s),
    ensures
        digits_val(s.take(i)) <= digits_val(s),
    decreases s.len() - i,
{
    if i == s.len() {
        assert(s.take(i) =~= s);
    } else {
        lemma_digits_val_take_succ(s, i);
        assert(all_digits(s.take(i)));
        lemma_digits_val_nonneg(s.take(i));
        lemma_digits_val_prefix_le(s, i + 1);
    }
}

proof fn lemma_leading_digits_from_scan(s: Seq<char>, i: int)
    requires
        0 <= i <= s.len(),
        forall|j: int| 0 <= j < i ==> is_digit(#[trigger] s[j]),
        i < s.len() ==> !is_digit(s[i]),
    ensures
        leading_digits(s) == i,
    decreases i,
{
    if i == 0 {
    } else {
        assert(is_digit(s[0]));
        lemma_leading_digits_from_scan(s.skip(1), i - 1);
    }
}

/// Parses a string of decimal digits into the number it denotes. Returns
/// `Some` exactly when the whole string is one or more digits and the value
/// fits in a `u64`; anything else (empty, signs, spaces, overflow) is `None`.
pub fn parse_decimal(s: &str) -> (r: Option<u64>)
    ensures
        r is Some <==> (s@.len() > 0 && all_digits(s@) && digits_val(s@) <= u64::MAX as int),
        r matches Some(v) ==> v == digits_val(s@),
{
    let n: usize = s.unicode_len();
    if n == 0 {
        return None;
    }
    let mut acc: u64 = 0;
    let mut i: usize = 0;
    while i < n
        invariant
            n == s@.len(),
            0 <= i <= n,
            forall|j: int| 0 <= j < i ==> is_digit(#[trigger] s@[j]),
            acc == digits_val(s@.take(i as int)),
        decreases n - i,
    {
        let c: char = s.get_char(i);
        let code: u32 = c as u32;
        if code < 48 || code > 57 {
            assert(!is_digit(s@[i as int]));
            return None;
        }
        let d: u64 = (code - 48) as u64;
        assert(is_digit(s@[i as int]) && d == digit_val(s@[i as int]));
        proof {
            lemma_digits_val_take_succ(s@, i as int);
        }
        if acc > (u64::MAX - d) / 10 {
            proof {
                lemma_fundamental_div_mod((u64::MAX - d) as int, 10);
                if all_digits(s@) {
                    lemma_digits_val_prefix_le(s@, i as int + 1);
                }
            }
            return None;
        }
        proof {
            lemma_fundamental_div_mod((u64::MAX - d) as int, 10);
        }
        acc = acc * 10 + d;
        i = i + 1;
    }
    proof {
        assert(s@.take(n as int) =~= s@);
    }
    Some(acc)
}

/// The digit part of a pid string: an optional leading '+', which the
/// native integer parses accept, is dropped.
pub open spec fn pid_digits(s: Seq<char>) -> Seq<char> {
    if s.len() > 0 && s[0] == '+' {
        s.skip(1)
    } else {
        s
    }
}

/// A syntactically valid process identifier: an optional '+', then one or
/// more digits denoting a number that every platform's native pid type
/// can hold (the narrowest is a 32-bit signed id on unix, so the bound is
/// `i32::MAX`; a wider string would not parse as a native pid there).
pub open spec fn valid_pid_text(s: Seq<char>) -> bool {
    &&& pid_digits(s).len() > 0
    &&& all_digits(pid_digits(s))
    &&& digits_val(pid_digits(s)) <= i32::MAX as int
}

/// Parses a process identifier: optional '+', then digits, bounded by the
/// native pid range. The termination path treats any string this rejects
/// as an unknown process.
pub fn parse_pid(s: &str) -> (r: Option<usize>)
    ensures
        r is Some <==> valid_pid_text(s@),
        r matches Some(v) ==> v == digits_val(pid_digits(s@)) && v <= i32::MAX as usize,
{
    let n: usize = s.unicode_len();
    let has_plus: bool = n > 0 && s.get_char(0) as u32 == 43;
    let digits: &str = if has_plus {
        assert(s@[0] == '+');
        s.substring_char(1, n)
    } else {
        s
    };
    proof {
        assert(digits@ =~= pid_digits(s@));
    }
    match parse_decimal(digits) {
        Some(v) => {
            if v <= i32::MAX as u64 {
                Some(v as usize)
            } else {
                None
            }
        },
        None => None,
    }
}

/// One digit as a string slice, for building decimal text.
fn digit_text(d: u64) -> (r: &'static str)
    requires
        d <= 9,
    ensures
        r@.len() == 1,
        is_digit(r@[0]),
        digit_val(r@[0]) == d,
{
    match d {
        0 => {
            proof {
                reveal_strlit("0");
            }
            "0"
        },
        1 => {
            proof {
                reveal_strlit("1");
            }
            "1"
        },
        2 => {
            proof {
                reveal_strlit("2");
            }
            "2"
        },
        3 => {
            proof {
                reveal_strlit("3");
            }
            "3"
        },
        4 => {
            proof {
                reveal_strlit("4");
            }
            "4"
        },
        5 => {
            proof {
                reveal_strlit("5");
            }
            "5"
        },
        6 => {
            proof {
                reveal_strlit("6");
            }
            "6"
        },
        7 => {
            proof {
                reveal_strlit("7");
            }
            "7"
        },
        8 => {
            proof {
                reveal_strlit("8");
            }
            "8"
        },
        _ => {
            proof {
                reveal_strlit("9");
            }
            "9"
        },
    }
}

/// Renders a number as the decimal string denoting it: the exact inverse
/// of `parse_decimal` on canonical (no leading zero) digit strings.
pub fn decimal_text(n: u64) -> (r: String)
    ensures
        all_digits(r@),
        digits_val(r@) == n,
        r@.len() >= 1,
        n > 0 ==> r@[0] != '0',
        n == 0 ==> r@.len() == 1,
    decreases n,
{
    if n < 10 {
        let r = String::from_str(digit_text(n));
        proof {
            assert(r@.drop_last() =~= Seq::<char>::empty());
            assert(digits_val(Seq::<char>::empty()) == 0);
            assert(r@.last() == r@[0]);
            assert(digits_val(r@) == digits_val(r@.drop_last()) * 10 + digit_val(r@.last()));
        }
        r
    } else {
        proof {
            vstd::arithmetic::div_mod::lemma_div_pos_is_pos(n as int, 10);
            lemma_fundamental_div_mod(n as int, 10);
        }
        let mut r = decimal_text(n / 10);
        let ghost prefix = r@;
        let d: &str = digit_text(n % 10);
        r.append(d);
        proof {
            assert(r@.drop_last() =~= prefix);
            assert(r@.last() == d@[0]);
        }
        r
    }
}

/// A fraction written after the decimal point, reduced to hundredths and
/// rounded half-up at the third digit: "3" is 30, "335" is 34.
pub open spec fn frac_hundredths(f: Seq<char>) -> int {
    if f.len() == 0 {
        0
    } else if f.len() == 1 {
        digit_val(f[0]) * 10
    } else {
        digit_val(f[0]) * 10 + digit_val(f[1]) + if f.len() > 2 && digit_val(f[2]) >= 5 {
            1int
        } else {
            0int
        }
    }
}

/// The shape of a nonnegative decimal number: one or more digits,
/// optionally followed by a point and one or more digits. Anything else
/// ("NaN", "inf", a sign, an empty string) is invalid.
pub open spec fn pct_text_valid(s: Seq<char>) -> bool {
    let i = leading_digits(s);
    0 < i && (i == s.len() || (s[i] == '.' && i + 1 < s.len() && all_digits(s.skip(i + 1))))
}

/// The number a decimal string denotes, in hundredths, rounded half-up to
/// two decimal places; 0 for an invalid string, the degraded reading.
pub open spec fn pct_text_hundredths(s: Seq<char>) -> int {
    if !pct_text_valid(s) {
        0
    } else {
        let i = leading_digits(s);
        if i == s.len() {
            digits_val(s) * 100
        } else {
            digits_val(s.take(i)) * 100 + frac_hundredths(s.skip(i + 1))
        }
    }
}

/// `pct_text_hundredths`, clamped into a `u64` so an absurdly large
/// reading still yields a record.
pub open spec fn pct_text_clamped(s: Seq<char>) -> int {
    if pct_text_hundredths(s) > u64::MAX {
        u64::MAX as int
    } else {
        pct_text_hundredths(s)
    }
}

/// A fraction written after the decimal point, reduced to ten-thousandths
/// and rounded half-up at the fifth digit: "3" is 3000, "00005" is 1.
pub open spec fn frac_tenk(f: Seq<char>) -> int {
    (if f.len() == 0 {
        0
    } else if f.len() == 1 {
        digit_val(f[0]) * 1000
    } else if f.len() == 2 {
        digit_val(f[0]) * 1000 + digit_val(f[1]) * 100
    } else if f.len() == 3 {
        digit_val(f[0]) * 1000 + digit_val(f[1]) * 100 + digit_val(f[2]) * 10
    } else {
        digit_val(f[0]) * 1000 + digit_val(f[1]) * 100 + digit_val(f[2]) * 10 + digit_val(f[3])
    }) + if f.len() > 4 && digit_val(f[4]) >= 5 {
        1int
    } else {
        0int
    }
}

/// The number a decimal string denotes, in ten-thousandths, rounded
/// half-up to four decimal places; 0 for an invalid string. The higher
/// precision lets a later division round once, not twice.
pub open spec fn pct_text_tenk(s: Seq<char>) -> int {
    if !pct_text_valid(s) {
        0
    } else {
        let i = leading_digits(s);
        if i == s.len() {
            digits_val(s) * 10000
        } else {
            digits_val(s.take(i)) * 10000 + frac_tenk(s.skip(i + 1))
        }
    }
}

/// `pct_text_tenk`, clamped into a `u64`.
pub open spec fn pct_text_tenk_clamped(s: Seq<char>) -> int {
    if pct_text_tenk(s) > u64::MAX {
        u64::MAX as int
    } else {
        pct_text_tenk(s)
    }
}

/// First index at or after `from` holding a non-digit (the string's length
/// if digits run to the end).
fn scan_digits(s: &str, from: usize) -> (k: usize)
    requires
        from <= s@.len(),
    ensures
        from <= k <= s@.len(),
        forall|j: int| from <= j < k ==> is_digit(#[trigger] s@[j]),
        k < s@.len() ==> !is_digit(s@[k as int]),
{
    let n: usize = s.unicode_len();
    let mut i: usize = from;
    while i < n
        invariant
            n == s@.len(),
            from <= i <= n,
            forall|j: int| from <= j < i ==> is_digit(#[trigger] s@[j]),
        decreases n - i,
    {
        let c: char = s.get_char(i);
        let code: u32 = c as u32;
        if code < 48 || code > 57 {
            assert(!is_digit(s@[i as int]));
            return i;
        }
        i = i + 1;
    }
    i
}

/// Reads a usage figure that arrives as decimal text (the way a raw
/// floating-point counter is printed) into hundredths of a percent,
/// rounded half-up to two decimal places. An invalid string degrades to 0;
/// an overflowing value clamps to `u64::MAX`.
pub fn parse_percent_text(s: &str) -> (r: u64)
    ensures
        r == pct_text_clamped(s@),
{
    let n: usize = s.unicode_len();
    let i: usize = scan_digits(s, 0);
    proof {
        lemma_leading_digits_from_scan(s@, i as int);
    }
    if i == 0 {
        return 0;
    }
    let mut frac: u64 = 0;
    if i < n {
        let c: char = s.get_char(i);
        if c as u32 != 46 {
            assert(s@[i as int] != '.');
            return 0;
        }
        assert(s@[i as int] == '.');
        if i + 1 >= n {
            return 0;
        }
        let j: usize = scan_digits(s, i + 1);
        if j < n {
            assert(!all_digits(s@.skip(i as int + 1))) by {
                assert(s@.skip(i as int + 1)[j - i - 1] == s@[j as int]);
            }
            return 0;
        }
        assert(all_digits(s@.skip(i as int + 1))) by {
            assert(forall|j2: int|
                0 <= j2 < s@.skip(i as int + 1).len() ==> #[trigger] s@.skip(i as int + 1)[j2]
                    == s@[j2 + i + 1]);
        }
        let ghost f = s@.skip(i as int + 1);
        let d0: u64 = (s.get_char(i + 1) as u32 - 48) as u64;
        assert(d0 == digit_val(f[0]) && 0 <= digit_val(f[0]) <= 9);
        frac = d0 * 10;
        if i + 2 < n {
            let d1: u64 = (s.get_char(i + 2) as u32 - 48) as u64;
            assert(d1 == digit_val(f[1]) && 0 <= digit_val(f[1]) <= 9);
            frac = frac + d1;
            if i + 3 < n {
                let d2: u32 = s.get_char(i + 3) as u32 - 48;
                assert(d2 == digit_val(f[2]) && 0 <= digit_val(f[2]) <= 9);
                if d2 >= 5 {
                    frac = frac + 1;
                }
            }
        }
        assert(frac == frac_hundredths(f));
    }
    assert(0 <= frac <= 100);
    let whole_text: &str = s.substring_char(0, i);
    proof {
        assert(whole_text@ =~= s@.take(i as int));
        assert(all_digits(whole_text@));
    }
    assert(pct_text_valid(s@));
    proof {
        if i == n {
            assert(s@.take(i as int) =~= s@);
        }
    }
    match parse_decimal(whole_text) {
        Some(w) => {
            let v: u128 = (w as u128) * 100 + (frac as u128);
            if v > u64::MAX as u128 {
                u64::MAX
            } else {
                v as u64
            }
        },
        None => {
            assert(digits_val(s@.take(i as int)) > u64::MAX as int);
            u64::MAX
        },
    }
}

/// Reads a usage figure that arrives as decimal text into ten-thousandths
/// of a percent, rounded half-up to four decimal places. An invalid
/// string degrades to 0; an overflowing value clamps to `u64::MAX`. The
/// extra precision exists so that a later division by the core count can
/// round once, at the end.
pub fn parse_percent_tenk(s: &str) -> (r: u64)
    ensures
        r == pct_text_tenk_clamped(s@),
{
    let n: usize = s.unicode_len();
    let i: usize = scan_digits(s, 0);
    proof {
        lemma_leading_digits_from_scan(s@, i as int);
    }
    if i == 0 {
        return 0;
    }
    let mut frac: u64 = 0;
    if i < n {
        let c: char = s.get_char(i);
        if c as u32 != 46 {
            assert(s@[i as int] != '.');
            return 0;
        }
        assert(s@[i as int] == '.');
        if i + 1 >= n {
            return 0;
        }
        let j: usize = scan_digits(s, i + 1);
        if j < n {
            assert(!all_digits(s@.skip(i as int + 1))) by {
                assert(s@.skip(i as int + 1)[j - i - 1] == s@[j as int]);
            }
            return 0;
        }
        assert(all_digits(s@.skip(i as int + 1))) by {
            assert(forall|j2: int|
                0 <= j2 < s@.skip(i as int + 1).len() ==> #[trigger] s@.skip(i as int + 1)[j2]
                    == s@[j2 + i + 1]);
        }
        let ghost f = s@.skip(i as int + 1);
        let d0: u64 = (s.get_char(i + 1) as u32 - 48) as u64;
        assert(d0 == digit_val(f[0]) && 0 <= digit_val(f[0]) <= 9);
        frac = d0 * 1000;
        if i + 2 < n {
            let d1: u64 = (s.get_char(i + 2) as u32 - 48) as u64;
            assert(d1 == digit_val(f[1]) && 0 <= digit_val(f[1]) <= 9);
            frac = frac + d1 * 100;
            if i + 3 < n {
                let d2: u64 = (s.get_char(i + 3) as u32 - 48) as u64;
                assert(d2 == digit_val(f[2]) && 0 <= digit_val(f[2]) <= 9);
                frac = frac + d2 * 10;
                if i + 4 < n {
                    let d3: u64 = (s.get_char(i + 4) as u32 - 48) as u64;
                    assert(d3 == digit_val(f[3]) && 0 <= digit_val(f[3]) <= 9);
                    frac = frac + d3;
                    if i + 5 < n {
                        let d4: u32 = s.get_char(i + 5) as u32 - 48;
                        assert(d4 == digit_val(f[4]) && 0 <= digit_val(f[4]) <= 9);
                        if d4 >= 5 {
                            frac = frac + 1;
                        }
                    }
                }
            }
        }
        assert(frac == frac_tenk(f));
    }
    assert(0 <= frac <= 10000);
    let whole_text: &str = s.substring_char(0, i);
    proof {
        assert(whole_text@ =~= s@.take(i as int));
        assert(all_digits(whole_text@));
    }
    assert(pct_text_valid(s@));
    proof {
        if i == n {
            assert(s@.take(i as int) =~= s@);
        }
    }
    match parse_decimal(whole_text) {
        Some(w) => {
            let v: u128 = (w as u128) * 10000 + (frac as u128);
            if v > u64::MAX as u128 {
                u64::MAX
            } else {
                v as u64
            }
        },
        None => {
            assert(digits_val(s@.take(i as int)) > u64::MAX as int);
            u64::MAX
        },
    }
}

} // verus!
