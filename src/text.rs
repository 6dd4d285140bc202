use vstd::prelude::*;
use vstd::string::*;

verus! {

/// The character is one of the ASCII digits `0` to `9`.
pub open spec fn is_digit(c: char) -> bool {
    '0' <= c && c <= '9'
}

/// Every character is an ASCII digit, and there is at least one.
pub open spec fn all_digits(s: Seq<char>) -> bool {
    s.len() > 0 && forall|i: int| 0 <= i < s.len() ==> is_digit(#[trigger] s[i])
}

/// The value of a run of decimal digits, most significant first.
pub open spec fn digits_value(s: Seq<char>) -> int
    decreases s.len(),
{
    if s.len() == 0 {
        0
    } else {
        digits_value(s.drop_last()) * 10 + (s.last() as int - '0' as int)
    }
}

/// The integer that a decimal text denotes: an optional `+` or `-`, then digits.
pub open spec fn signed_value(s: Seq<char>) -> Option<int> {
    if s.len() > 0 && s[0] == '-' && all_digits(s.drop_first()) {
        Some(-digits_value(s.drop_first()))
    } else if s.len() > 0 && s[0] == '+' && all_digits(s.drop_first()) {
        Some(digits_value(s.drop_first()))
    } else if all_digits(s) {
        Some(digits_value(s))
    } else {
        None
    }
}

/// The non-negative integer that a decimal text denotes: an optional `+`, then digits.
pub open spec fn unsigned_value(s: Seq<char>) -> Option<int> {
    if s.len() > 0 && s[0] == '+' && all_digits(s.drop_first()) {
        Some(digits_value(s.drop_first()))
    } else if all_digits(s) {
        Some(digits_value(s))
    } else {
        None
    }
}

/// The text read as an `i32`, absent when it is no decimal integer or out of range.
pub open spec fn parse_i32_spec(s: Seq<char>) -> Option<i32> {
    match signed_value(s) {
        Some(v) => if i32::MIN <= v <= i32::MAX {
            Some(v as i32)
        } else {
            None
        },
        None => None,
    }
}

/// The text read as a `usize`, absent when it is no unsigned decimal integer or out of range.
pub open spec fn parse_usize_spec(s: Seq<char>) -> Option<usize> {
    match unsigned_value(s) {
        Some(v) => if v <= usize::MAX {
            Some(v as usize)
        } else {
            None
        },
        None => None,
    }
}

proof fn lemma_digits_value_nonneg(s: Seq<char>)
    requires
        forall|i: int| 0 <= i < s.len() ==> is_digit(#[trigger] s[i]),
    ensures
        digits_value(s) >= 0,
    decreases s.len(),
{
    if s.len() > 0 {
        lemma_digits_value_nonneg(s.drop_last());
    }
}

/// Reads `s[from..]` as a run of digits whose value is at most `limit`.
fn parse_digits(s: &str, from: usize, limit: u64) -> (r: Option<u64>)
    requires
        from <= s@.len(),
    ensures
        match r {
            Some(v) => all_digits(s@.skip(from as int)) && v as int == digits_value(s@.skip(from as int))
                && v <= limit,
            None => !all_digits(s@.skip(from as int)) || digits_value(s@.skip(from as int)) > limit,
        },
{
    let n = s.unicode_len();
    let ghost t = s@.skip(from as int);
    let mut i: usize = from;
    let mut acc: u64 = 0;
    let mut over = false;
    while i < n
        invariant
            from <= i <= n,
            n == s@.len(),
            t == s@.skip(from as int),
            forall|k: int| 0 <= k < i - from ==> is_digit(#[trigger] t[k]),
            !over ==> acc as int == digits_value(t.take(i - from)) && acc <= limit,
            over ==> digits_value(t.take(i - from)) > limit,
        decreases n - i,
    {
        let c = s.get_char(i);
        if !('0' <= c && c <= '9') {
            assert(!is_digit(t[i - from]));
            return None;
        }
        let d = (c as u32 - '0' as u32) as u64;
        let ghost p = t.take(i - from);
        let ghost q = t.take(i + 1 - from);
        assert(q.drop_last() =~= p);
        assert(q.last() == c);
        proof {
            lemma_digits_value_nonneg(p);
        }
        if !over {
            let too_big = if d > limit || acc > limit / 10 {
                true
            } else {
                assert(acc * 10 <= limit) by (nonlinear_arith)
                    requires
                        acc <= limit / 10,
                ;
                acc * 10 > limit - d
            };
            if too_big {
                assert(digits_value(q) > limit) by (nonlinear_arith)
                    requires
                        digits_value(q) == acc * 10 + d,
                        d > limit || acc > limit / 10 || acc * 10 > limit - d,
                        d >= 0,
                        acc >= 0,
                ;
                over = true;
            } else {
                assert(acc * 10 <= u64::MAX) by (nonlinear_arith)
                    requires
                        acc <= limit / 10,
                        limit <= u64::MAX,
                ;
                acc = acc * 10 + d;
            }
        } else {
            assert(digits_value(q) > limit) by (nonlinear_arith)
                requires
                    digits_value(q) == digits_value(p) * 10 + d,
                    digits_value(p) > limit,
                    limit >= 0,
                    d >= 0,
            ;
        }
        i = i + 1;
    }
    assert(t.take(n - from) =~= t);
    if i == from || over {
        None
    } else {
        Some(acc)
    }
}

/// Reads a decimal `i32`: an optional `+` or `-`, then ASCII digits, in range.
pub fn parse_i32(s: &str) -> (r: Option<i32>)
    ensures
        r == parse_i32_spec(s@),
{
    let n = s.unicode_len();
    if n > 0 && (s.get_char(0) == '-' || s.get_char(0) == '+') {
        let neg = s.get_char(0) == '-';
        let limit: u64 = if neg {
            2147483648
        } else {
            2147483647
        };
        assert(s@.skip(1) =~= s@.drop_first());
        match parse_digits(s, 1, limit) {
            Some(v) => {
                if neg {
                    Some((0 - v as i64) as i32)
                } else {
                    Some(v as i32)
                }
            },
            None => {
                None
            },
        }
    } else {
        assert(s@.skip(0) =~= s@);
        match parse_digits(s, 0, 2147483647) {
            Some(v) => Some(v as i32),
            None => None,
        }
    }
}

/// Reads a decimal `usize`: an optional `+`, then ASCII digits, in range.
pub fn parse_usize(s: &str) -> (r: Option<usize>)
    ensures
        r == parse_usize_spec(s@),
{
    let n = s.unicode_len();
    let from: usize = if n > 0 && s.get_char(0) == '+' {
        1
    } else {
        0
    };
    assert(s@.skip(1) =~= s@.drop_first());
    assert(s@.skip(0) =~= s@);
    match parse_digits(s, from, usize::MAX as u64) {
        Some(v) => Some(v as usize),
        None => None,
    }
}

/// The ASCII digit for a value below ten.
pub open spec fn digit_char(d: nat) -> char {
    seq!['0', '1', '2', '3', '4', '5', '6', '7', '8', '9'][d as int]
}

/// The decimal text of a natural number, without leading zeros.
pub open spec fn decimal_spec(n: nat) -> Seq<char>
    decreases n,
{
    if n < 10 {
        seq![digit_char(n)]
    } else {
        decimal_spec(n / 10).push(digit_char(n % 10))
    }
}

/// The decimal text of an integer padded with zeros to at least two characters,
/// the sign counted in the width.
pub open spec fn pad2_spec(n: int) -> Seq<char> {
    if 0 <= n < 10 {
        seq!['0'] + decimal_spec(n as nat)
    } else if n >= 10 {
        decimal_spec(n as nat)
    } else {
        seq!['-'] + decimal_spec((-n) as nat)
    }
}

fn digit_str(d: u64) -> (r: &'static str)
    requires
        d < 10,
    ensures
        r@ == seq![digit_char(d as nat)],
{
    proof {
        reveal_strlit("0");
        reveal_strlit("1");
        reveal_strlit("2");
        reveal_strlit("3");
        reveal_strlit("4");
        reveal_strlit("5");
        reveal_strlit("6");
        reveal_strlit("7");
        reveal_strlit("8");
        reveal_strlit("9");
    }
    if d == 0 {
        "0"
    } else if d == 1 {
        "1"
    } else if d == 2 {
        "2"
    } else if d == 3 {
        "3"
    } else if d == 4 {
        "4"
    } else if d == 5 {
        "5"
    } else if d == 6 {
        "6"
    } else if d == 7 {
        "7"
    } else if d == 8 {
        "8"
    } else {
        "9"
    }
}

/// The decimal text of `n`.
pub fn decimal(n: u64) -> (r: String)
    ensures
        r@ == decimal_spec(n as nat),
    decreases n,
{
    if n < 10 {
        String::from_str(digit_str(n))
    } else {
        let mut s = decimal(n / 10);
        s.append(digit_str(n % 10));
        s
    }
}

/// The decimal text of `n`, zero-padded to two characters.
pub fn pad2(n: i32) -> (r: String)
    ensures
        r@ == pad2_spec(n as int),
{
    proof {
        reveal_strlit("0");
        reveal_strlit("-");
    }
    if 0 <= n && n < 10 {
        let mut s = String::from_str("0");
        s.append(decimal(n as u64).as_str());
        s
    } else if n >= 10 {
        decimal(n as u64)
    } else {
        let mut s = String::from_str("-");
        let m: i64 = 0 - n as i64;
        s.append(decimal(m as u64).as_str());
        s
    }
}

/// Index of the last `.` in `s`, or -1 when there is none.
pub open spec fn last_dot(s: Seq<char>) -> int
    decreases s.len(),
{
    if s.len() == 0 {
        -1
    } else if s.last() == '.' {
        s.len() - 1
    } else {
        last_dot(s.drop_last())
    }
}

/// The extension of a file name: what follows its last `.`; empty when it has no
/// `.`, when its only `.` leads it, and for `..`.
pub open spec fn extension_spec(name: Seq<char>) -> Seq<char> {
    if name == seq!['.', '.'] || last_dot(name) <= 0 {
        Seq::empty()
    } else {
        name.skip(last_dot(name) + 1)
    }
}

proof fn lemma_last_dot_range(s: Seq<char>)
    ensures
        -1 <= last_dot(s) < s.len(),
        last_dot(s) >= 0 ==> s[last_dot(s)] == '.',
        forall|k: int| last_dot(s) < k < s.len() ==> s[k] != '.',
    decreases s.len(),
{
    if s.len() > 0 && s.last() != '.' {
        let t = s.drop_last();
        lemma_last_dot_range(t);
        assert forall|k: int| last_dot(s) < k < s.len() implies s[k] != '.' by {
            if k < s.len() - 1 {
                assert(s[k] == t[k]);
            }
        }
    }
}

/// The extension of a file name, as `Path::extension` finds it, or empty when it has none.
pub fn extension_of(name: &str) -> (r: String)
    ensures
        r@ == extension_spec(name@),
{
    let n = name.unicode_len();
    if n == 2 && name.get_char(0) == '.' && name.get_char(1) == '.' {
        assert(name@ =~= seq!['.', '.']);
        return String::new();
    }
    assert(n == 2 && name@[0] == '.' && name@[1] == '.' ==> name@ =~= seq!['.', '.']);
    let mut i: usize = n;
    assert(name@.take(n as int) =~= name@);
    while i > 0
        invariant
            i <= n,
            n == name@.len(),
            last_dot(name@) == last_dot(name@.take(i as int)),
            forall|k: int| i <= k < n ==> name@[k] != '.',
        decreases i,
    {
        let ghost p = name@.take(i as int);
        assert(p.last() == name@[i - 1]);
        if name.get_char(i - 1) == '.' {
            proof {
                lemma_last_dot_range(name@);
            }
            if i == 1 {
                return String::new();
            }
            return name.substring_char(i, n).to_owned();
        }
        assert(p.drop_last() =~= name@.take(i - 1));
        i = i - 1;
    }
    assert(name@.take(0) =~= Seq::<char>::empty());
    String::new()
}

/// What `str::trim` leaves of a text.
pub uninterp spec fn trim_of(s: Seq<char>) -> Seq<char>;

/// The character has the Unicode property White_Space.
pub open spec fn is_white_space(c: char) -> bool {
    ('\u{9}' <= c && c <= '\u{d}') || c == ' ' || c == '\u{85}' || c == '\u{a0}' || c
        == '\u{1680}' || ('\u{2000}' <= c && c <= '\u{200a}') || c == '\u{2028}' || c
        == '\u{2029}' || c == '\u{202f}' || c == '\u{205f}' || c == '\u{3000}'
}

/// Relies on `str::trim`: the text without leading and trailing white space
/// (Unicode White_Space), which depends on the text alone; it is a contiguous
/// part of the text, and a text that neither starts nor ends with white space
/// comes back unchanged.
#[verifier::external_body]
pub(crate) fn trimmed(s: &str) -> (r: &str)
    ensures
        r@ == trim_of(s@),
        r@.len() <= s@.len(),
        exists|i: int| 0 <= i <= s@.len() - r@.len() && #[trigger] s@.subrange(i, i + r@.len()) == r@,
        (s@.len() == 0 || (!is_white_space(s@[0]) && !is_white_space(s@.last()))) ==> r@ == s@,
{
    s.trim()
}

/// The decimal text of `n` is a run of digits that reads back as `n`.
pub proof fn lemma_decimal_reads_back(n: nat)
    ensures
        all_digits(decimal_spec(n)),
        digits_value(decimal_spec(n)) == n,
    decreases n,
{
    let d = decimal_spec(n);
    if n < 10 {
        assert(d.drop_last() =~= Seq::<char>::empty());
        assert(digits_value(Seq::<char>::empty()) == 0);
        assert(digit_char(n) as int - '0' as int == n) by {
            assert(seq!['0', '1', '2', '3', '4', '5', '6', '7', '8', '9'][n as int] as int == '0' as int + n);
        }
    } else {
        lemma_decimal_reads_back(n / 10);
        let p = decimal_spec(n / 10);
        assert(d.drop_last() =~= p);
        assert(d.last() == digit_char(n % 10));
        assert(n / 10 * 10 + n % 10 == n);
        assert(digit_char(n % 10) as int - '0' as int == n % 10) by {
            assert(seq!['0', '1', '2', '3', '4', '5', '6', '7', '8', '9'][(n % 10) as int] as int
                == '0' as int + n % 10);
        }
        assert forall|i: int| 0 <= i < d.len() implies is_digit(#[trigger] d[i]) by {
            if i < p.len() {
                assert(d[i] == p[i]);
            } else {
                assert(seq!['0', '1', '2', '3', '4', '5', '6', '7', '8', '9'][(n % 10) as int] as int
                    == '0' as int + n % 10);
            }
        }
    }
}

/// A non-negative number written with two-digit padding reads back as itself.
pub proof fn padded_number_reads_back(n: i32)
    requires
        n >= 0,
    ensures
        parse_i32_spec(pad2_spec(n as int)) == Some(n),
{
    let t = pad2_spec(n as int);
    lemma_decimal_reads_back(n as nat);
    if n < 10 {
        let d = decimal_spec(n as nat);
        assert(d.len() == 1);
        assert(t =~= seq!['0', d[0]]);
        assert(t.drop_last() =~= seq!['0']);
        assert(seq!['0'].drop_last() =~= Seq::<char>::empty());
        assert(digits_value(Seq::<char>::empty()) == 0);
        assert(digits_value(seq!['0']) == 0);
        assert(d.drop_last() =~= Seq::<char>::empty());
        assert(digits_value(t) == n);
        assert(all_digits(t)) by {
            assert(is_digit(t[0]));
            assert(is_digit(t[1]) == is_digit(d[0]));
        }
    }
}

} // verus!
