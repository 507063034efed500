//! Character-level text utilities shared by the color and stylesheet
//! parsers: whitespace trimming, ASCII case folding, splitting on a
//! separator, and numeric tokens, each with an exact specification.

use vstd::prelude::*;

verus! {

/// The whitespace characters the parsers strip.
pub open spec fn is_ws(c: char) -> bool {
    c == ' ' || c == '\t' || c == '\n' || c == '\r'
}

/// `s` without its leading whitespace.
pub open spec fn trim_start(s: Seq<char>) -> Seq<char>
    decreases s.len(),
{
    if s.len() > 0 && is_ws(s[0]) {
        trim_start(s.subrange(1, s.len() as int))
    } else {
        s
    }
}

/// `s` without its trailing whitespace.
pub open spec fn trim_end(s: Seq<char>) -> Seq<char>
    decreases s.len(),
{
    if s.len() > 0 && is_ws(s.last()) {
        trim_end(s.drop_last())
    } else {
        s
    }
}

/// `s` without leading and trailing whitespace.
pub open spec fn trim(s: Seq<char>) -> Seq<char> {
    trim_end(trim_start(s))
}

/// ASCII upper-case letters fold to lower case; everything else is itself.
pub open spec fn lower_char(c: char) -> char {
    match c {
        'A' => 'a',
        'B' => 'b',
        'C' => 'c',
        'D' => 'd',
        'E' => 'e',
        'F' => 'f',
        'G' => 'g',
        'H' => 'h',
        'I' => 'i',
        'J' => 'j',
        'K' => 'k',
        'L' => 'l',
        'M' => 'm',
        'N' => 'n',
        'O' => 'o',
        'P' => 'p',
        'Q' => 'q',
        'R' => 'r',
        'S' => 's',
        'T' => 't',
        'U' => 'u',
        'V' => 'v',
        'W' => 'w',
        'X' => 'x',
        'Y' => 'y',
        'Z' => 'z',
        _ => c,
    }
}

/// `s` with each character folded to lower case.
pub open spec fn lower(s: Seq<char>) -> Seq<char> {
    Seq::new(s.len(), |i: int| lower_char(s[i]))
}

/// The index of the first occurrence of `sep` in `s`, or `-1`.
pub open spec fn find_char(s: Seq<char>, sep: char) -> int
    decreases s.len(),
{
    if s.len() == 0 {
        -1
    } else if s[0] == sep {
        0
    } else {
        let r = find_char(s.subrange(1, s.len() as int), sep);
        if r < 0 {
            -1
        } else {
            1 + r
        }
    }
}

/// The pieces of `s` between occurrences of `sep`. A string without the
/// separator is one piece; each separator ends a piece, so `n` separators
/// give `n + 1` pieces.
pub open spec fn split_on(s: Seq<char>, sep: char) -> Seq<Seq<char>>
    decreases s.len(),
{
    let i = find_char(s, sep);
    if i < 0 || i >= s.len() {
        seq![s]
    } else {
        seq![s.subrange(0, i)] + split_on(s.subrange(i + 1, s.len() as int), sep)
    }
}

pub proof fn lemma_find_char_none(s: Seq<char>, sep: char)
    requires
        forall|j: int| 0 <= j < s.len() ==> s[j] != sep,
    ensures
        find_char(s, sep) == -1,
    decreases s.len(),
{
    if s.len() > 0 {
        lemma_find_char_none(s.subrange(1, s.len() as int), sep);
    }
}

pub proof fn lemma_find_char_at(s: Seq<char>, sep: char, k: int)
    requires
        0 <= k < s.len(),
        s[k] == sep,
        forall|j: int| 0 <= j < k ==> s[j] != sep,
    ensures
        find_char(s, sep) == k,
    decreases s.len(),
{
    if k > 0 {
        lemma_find_char_at(s.subrange(1, s.len() as int), sep, k - 1);
    }
}

/// Copies the characters of `v` between `from` and `to`.
pub fn subrange_chars(v: &Vec<char>, from: usize, to: usize) -> (r: Vec<char>)
    requires
        from <= to <= v@.len(),
    ensures
        r@ == v@.subrange(from as int, to as int),
{
    let mut r: Vec<char> = Vec::new();
    let mut i: usize = from;
    while i < to
        invariant
            from <= i <= to <= v@.len(),
            r@ == v@.subrange(from as int, i as int),
        decreases to - i,
    {
        r.push(v[i]);
        i = i + 1;
        proof {
            assert(r@ =~= v@.subrange(from as int, i as int));
        }
    }
    r
}

/// The bounds of `v` with leading and trailing whitespace shaved off:
/// `v@.subrange(r.0, r.1) == trim(v@)`.
pub fn trim_bounds(v: &Vec<char>) -> (r: (usize, usize))
    ensures
        r.0 <= r.1 <= v@.len(),
        v@.subrange(r.0 as int, r.1 as int) == trim(v@),
{
    let n: usize = v.len();
    proof {
        assert(v@.subrange(0, n as int) =~= v@);
    }
    let mut i: usize = 0;
    while i < n && is_ws_exec(v[i])
        invariant
            0 <= i <= n == v@.len(),
            trim_start(v@) == trim_start(v@.subrange(i as int, n as int)),
        decreases n - i,
    {
        proof {
            assert(v@.subrange(i as int, n as int).subrange(1, (n - i) as int)
                =~= v@.subrange(i + 1, n as int));
        }
        i = i + 1;
    }
    proof {
        assert(trim_start(v@) == v@.subrange(i as int, n as int));
    }
    let mut j: usize = n;
    while j > i && is_ws_exec(v[j - 1])
        invariant
            i <= j <= n == v@.len(),
            trim_end(v@.subrange(i as int, n as int))
                == trim_end(v@.subrange(i as int, j as int)),
        decreases j,
    {
        proof {
            assert(v@.subrange(i as int, j as int).drop_last()
                =~= v@.subrange(i as int, j - 1));
        }
        j = j - 1;
    }
    proof {
        assert(trim_end(v@.subrange(i as int, j as int)) == v@.subrange(i as int, j as int));
    }
    (i, j)
}

/// Copies `v` with whitespace trimmed from both ends.
pub fn trim_chars(v: &Vec<char>) -> (r: Vec<char>)
    ensures
        r@ == trim(v@),
{
    let b = trim_bounds(v);
    subrange_chars(v, b.0, b.1)
}

/// Whether `c` is one of the whitespace characters the parsers strip.
pub fn is_ws_exec(c: char) -> (r: bool)
    ensures
        r == is_ws(c),
{
    c == ' ' || c == '\t' || c == '\n' || c == '\r'
}

/// Folds one character to lower case.
pub fn lower_char_exec(c: char) -> (r: char)
    ensures
        r == lower_char(c),
{
    match c {
        'A' => 'a',
        'B' => 'b',
        'C' => 'c',
        'D' => 'd',
        'E' => 'e',
        'F' => 'f',
        'G' => 'g',
        'H' => 'h',
        'I' => 'i',
        'J' => 'j',
        'K' => 'k',
        'L' => 'l',
        'M' => 'm',
        'N' => 'n',
        'O' => 'o',
        'P' => 'p',
        'Q' => 'q',
        'R' => 'r',
        'S' => 's',
        'T' => 't',
        'U' => 'u',
        'V' => 'v',
        'W' => 'w',
        'X' => 'x',
        'Y' => 'y',
        'Z' => 'z',
        _ => c,
    }
}

/// Copies `v` with each character folded to lower case.
pub fn lower_chars(v: &Vec<char>) -> (r: Vec<char>)
    ensures
        r@ == lower(v@),
{
    let mut r: Vec<char> = Vec::new();
    let mut i: usize = 0;
    let n: usize = v.len();
    while i < n
        invariant
            0 <= i <= n == v@.len(),
            r@.len() == i,
            forall|k: int| 0 <= k < i ==> r@[k] == lower_char(v@[k]),
        decreases n - i,
    {
        r.push(lower_char_exec(v[i]));
        i = i + 1;
    }
    proof {
        assert(r@ =~= lower(v@));
    }
    r
}

/// The index of the first occurrence of `sep` at or after `from`, if any.
pub fn find_from(v: &Vec<char>, sep: char, from: usize) -> (r: Option<usize>)
    requires
        from <= v@.len(),
    ensures
        match r {
            Some(i) => from <= i < v@.len() && v@[i as int] == sep
                && (forall|j: int| from <= j < i ==> v@[j] != sep),
            None => forall|j: int| from <= j < v@.len() ==> v@[j] != sep,
        },
{
    let n: usize = v.len();
    let mut i: usize = from;
    while i < n
        invariant
            from <= i <= n == v@.len(),
            forall|j: int| from <= j < i ==> v@[j] != sep,
        decreases n - i,
    {
        if v[i] == sep {
            return Some(i);
        }
        i = i + 1;
    }
    None
}

/// Appends to `out` the pieces of `v@.subrange(from, v@.len())` between
/// occurrences of `sep`.
fn split_into(v: &Vec<char>, sep: char, from: usize, out: &mut Vec<Vec<char>>)
    requires
        from <= v@.len(),
    ensures
        final(out).deep_view()
            == old(out).deep_view() + split_on(v@.subrange(from as int, v@.len() as int), sep),
    decreases v@.len() - from,
{
    let n: usize = v.len();
    let ghost rest = v@.subrange(from as int, v@.len() as int);
    match find_from(v, sep, from) {
        Some(i) => {
            proof {
                assert(forall|j: int| 0 <= j < i - from ==> rest[j] == v@[from + j]);
                lemma_find_char_at(rest, sep, i - from);
            }
            let piece = subrange_chars(v, from, i);
            proof {
                assert(piece@ =~= rest.subrange(0, i - from));
            }
            let ghost before = out.deep_view();
            out.push(piece);
            proof {
                assert(out.deep_view() =~~= before.push(rest.subrange(0, i - from)));
            }
            split_into(v, sep, i + 1, out);
            proof {
                assert(v@.subrange(i + 1, v@.len() as int)
                    =~= rest.subrange(i - from + 1, rest.len() as int));
                assert(out.deep_view()
                    =~~= old(out).deep_view() + split_on(rest, sep));
            }
        }
        None => {
            proof {
                assert(forall|j: int| 0 <= j < rest.len() ==> rest[j] == v@[from + j]);
                lemma_find_char_none(rest, sep);
            }
            let piece = subrange_chars(v, from, v.len());
            let ghost before = out.deep_view();
            out.push(piece);
            proof {
                assert(out.deep_view() =~~= before + split_on(rest, sep));
            }
        }
    }
}

/// Whether `c` is a decimal digit.
pub open spec fn is_digit(c: char) -> bool {
    48 <= c as u32 <= 57
}

/// The value of a decimal digit.
pub open spec fn digit_val(c: char) -> int {
    c as u32 - 48
}

/// Whether `s` consists of decimal digits alone.
pub open spec fn all_digits(s: Seq<char>) -> bool {
    forall|i: int| 0 <= i < s.len() ==> is_digit(s[i])
}

/// The value of a digit string read in base ten.
pub open spec fn digits_val(s: Seq<char>) -> int
    decreases s.len(),
{
    if s.len() == 0 {
        0
    } else {
        10 * digits_val(s.drop_last()) + digit_val(s.last())
    }
}

pub proof fn lemma_digits_val_nonneg(s: Seq<char>)
    requires
        all_digits(s),
    ensures
        digits_val(s) >= 0,
    decreases s.len(),
{
    if s.len() > 0 {
        assert(all_digits(s.drop_last()));
        lemma_digits_val_nonneg(s.drop_last());
    }
}

/// A longer digit string never has a smaller value than its prefixes.
pub proof fn lemma_digits_val_prefix(s: Seq<char>, k: int)
    requires
        all_digits(s),
        0 <= k <= s.len(),
    ensures
        digits_val(s.subrange(0, k)) <= digits_val(s),
    decreases s.len() - k,
{
    if k == s.len() {
        assert(s.subrange(0, k) =~= s);
    } else {
        assert(s.subrange(0, k + 1).drop_last() =~= s.subrange(0, k));
        assert(all_digits(s.subrange(0, k)));
        lemma_digits_val_nonneg(s.subrange(0, k));
        lemma_digits_val_prefix(s, k + 1);
    }
}

/// Ten to the `k`-th power.
pub open spec fn pow10(k: nat) -> int
    decreases k,
{
    if k == 0 {
        1
    } else {
        10 * pow10((k - 1) as nat)
    }
}

/// A run of `n` zero digits.
pub open spec fn zero_digits(n: nat) -> Seq<char> {
    Seq::new(n, |i: int| '0')
}

/// Appending `k` zero digits multiplies the value by ten to the `k`-th.
pub proof fn lemma_digits_val_zero_pad(s: Seq<char>, k: nat)
    ensures
        digits_val(s + zero_digits(k)) == digits_val(s) * pow10(k),
    decreases k,
{
    if k == 0 {
        assert(s + zero_digits(0) =~= s);
    } else {
        lemma_digits_val_zero_pad(s, (k - 1) as nat);
        let t = s + zero_digits(k);
        assert(t.last() == '0');
        assert(t.drop_last() =~= s + zero_digits((k - 1) as nat));
        assert(digits_val(t) == 10 * (digits_val(s) * pow10((k - 1) as nat)));
        assert(10 * (digits_val(s) * pow10((k - 1) as nat)) == digits_val(s) * pow10(k))
            by (nonlinear_arith)
            requires
                pow10(k) == 10 * pow10((k - 1) as nat),
        ;
    }
}

/// The fractional part of a token, scaled to micro units: the value of the
/// first six fractional digits, shorter runs padded with zeros.
pub open spec fn frac_micro(s: Seq<char>) -> int {
    if s.len() >= 6 {
        digits_val(s.subrange(0, 6))
    } else {
        digits_val(s + zero_digits((6 - s.len()) as nat))
    }
}

/// An unsigned integer token no larger than 255, as the byte it denotes.
/// Leading zeros are tolerated.
pub open spec fn byte_token(s: Seq<char>) -> Option<u8> {
    if s.len() > 0 && all_digits(s) && digits_val(s) <= 255 {
        Some(digits_val(s) as u8)
    } else {
        None
    }
}

/// An unsigned decimal token (`1`, `1.5`, `.5`, `1.`, `007`), in micro
/// units. A token needs at least one digit; its whole part must stay below
/// one million; fractional digits beyond the sixth are dropped.
pub open spec fn fixed_token(s: Seq<char>) -> Option<int> {
    let i = find_char(s, '.');
    if i < 0 || i >= s.len() {
        if s.len() > 0 && all_digits(s) && digits_val(s) <= 999_999 {
            Some(1_000_000 * digits_val(s))
        } else {
            None
        }
    } else {
        let ip = s.subrange(0, i);
        let fp = s.subrange(i + 1, s.len() as int);
        if ip.len() + fp.len() > 0 && all_digits(ip) && all_digits(fp)
            && digits_val(ip) <= 999_999 {
            Some(1_000_000 * digits_val(ip) + frac_micro(fp))
        } else {
            None
        }
    }
}

/// Reads a digit run out of `v@.subrange(from, to)`, worth at most `cap`.
/// Returns its value, or `None` on an empty run, a non-digit, or a value
/// over `cap`.
fn parse_digits(v: &Vec<char>, from: usize, to: usize, cap: u32) -> (r: Option<u32>)
    requires
        from <= to <= v@.len(),
        cap <= 1_000_000,
    ensures
        ({
            let s = v@.subrange(from as int, to as int);
            match r {
                Some(x) => s.len() > 0 && all_digits(s) && digits_val(s) == x && x <= cap,
                None => !(s.len() > 0 && all_digits(s) && digits_val(s) <= cap),
            }
        }),
{
    let ghost s = v@.subrange(from as int, to as int);
    if from == to {
        return None;
    }
    let mut acc: u32 = 0;
    let mut i: usize = from;
    while i < to
        invariant
            from <= i <= to <= v@.len(),
            s == v@.subrange(from as int, to as int),
            all_digits(s.subrange(0, i - from)),
            acc == digits_val(s.subrange(0, i - from)),
            acc <= cap,
            cap <= 1_000_000,
        decreases to - i,
    {
        let c = v[i];
        proof {
            assert(s[i - from] == v@[i as int]);
        }
        let u: u32 = c as u32;
        if u < 48 || u > 57 {
            return None;
        }
        let d: u32 = u - 48;
        proof {
            assert(s.subrange(0, i - from + 1).drop_last() =~= s.subrange(0, i - from));
        }
        if 10 * acc + d > cap {
            proof {
                if all_digits(s) {
                    lemma_digits_val_prefix(s, i - from + 1);
                }
            }
            return None;
        }
        acc = 10 * acc + d;
        i = i + 1;
        proof {
            assert(all_digits(s.subrange(0, i - from)));
        }
    }
    proof {
        assert(s.subrange(0, (to - from) as int) =~= s);
    }
    Some(acc)
}

/// Reads the byte an integer token denotes, if `v@.subrange(from, to)` is
/// one.
pub fn parse_byte(v: &Vec<char>, from: usize, to: usize) -> (r: Option<u8>)
    requires
        from <= to <= v@.len(),
    ensures
        r == byte_token(v@.subrange(from as int, to as int)),
{
    let ghost s = v@.subrange(from as int, to as int);
    match parse_digits(v, from, to, 255) {
        Some(x) => {
            proof {
                lemma_digits_val_nonneg(s);
            }
            Some(x as u8)
        }
        None => None,
    }
}

/// A digit string's value stays below ten to the power of its length.
pub proof fn lemma_digits_val_bound(s: Seq<char>)
    requires
        all_digits(s),
    ensures
        0 <= digits_val(s) < pow10(s.len()),
    decreases s.len(),
{
    if s.len() > 0 {
        assert(all_digits(s.drop_last()));
        lemma_digits_val_bound(s.drop_last());
        assert(pow10(s.len()) == 10 * pow10((s.len() - 1) as nat));
    }
}

/// Reads the fractional digits of `v@.subrange(from, to)` in micro units:
/// the value of the first six digits, shorter runs padded with zeros.
/// `None` exactly when a character there is no digit.
fn parse_frac(v: &Vec<char>, from: usize, to: usize) -> (r: Option<u32>)
    requires
        from <= to <= v@.len(),
    ensures
        ({
            let fp = v@.subrange(from as int, to as int);
            match r {
                Some(x) => all_digits(fp) && x == frac_micro(fp) && x <= 999_999,
                None => !all_digits(fp),
            }
        }),
{
    let ghost fp = v@.subrange(from as int, to as int);
    let mut acc: u32 = 0;
    let mut taken: usize = 0;
    let mut i: usize = from;
    while i < to
        invariant
            from <= i <= to <= v@.len(),
            fp == v@.subrange(from as int, to as int),
            taken == if i - from <= 6 { i - from } else { 6int },
            all_digits(fp.subrange(0, i - from)),
            acc == digits_val(fp.subrange(0, taken as int)),
            acc < 1_000_000,
        decreases to - i,
    {
        let c = v[i];
        proof {
            assert(fp[i - from] == v@[i as int]);
        }
        let u: u32 = c as u32;
        if u < 48 || u > 57 {
            return None;
        }
        if taken < 6 {
            proof {
                assert(fp.subrange(0, taken + 1).drop_last() =~= fp.subrange(0, taken as int));
                lemma_digits_val_bound(fp.subrange(0, taken + 1));
                reveal_with_fuel(pow10, 7);
            }
            acc = 10 * acc + (u - 48);
            taken = taken + 1;
        }
        i = i + 1;
        proof {
            assert(all_digits(fp.subrange(0, i - from)));
        }
    }
    proof {
        assert(fp.subrange(0, (to - from) as int) =~= fp);
    }
    let scale: u32 = match 6 - taken {
        0 => 1,
        1 => 10,
        2 => 100,
        3 => 1_000,
        4 => 10_000,
        5 => 100_000,
        _ => 1_000_000,
    };
    proof {
        reveal_with_fuel(pow10, 7);
        assert(scale == pow10((6 - taken) as nat));
        if to - from >= 6 {
            assert(fp.subrange(0, 6) =~= fp.subrange(0, taken as int));
        } else {
            lemma_digits_val_zero_pad(fp, (6 - fp.len()) as nat);
        }
        lemma_digits_val_bound(fp.subrange(0, taken as int));
        assert(acc * scale < pow10(taken as nat) * pow10((6 - taken) as nat)
            && acc * scale == digits_val(fp.subrange(0, taken as int)) * pow10((6 - taken) as nat))
            by (nonlinear_arith)
            requires
                0 <= acc < pow10(taken as nat),
                acc == digits_val(fp.subrange(0, taken as int)),
                scale == pow10((6 - taken) as nat),
                scale >= 1,
        ;
        assert(pow10(taken as nat) * pow10((6 - taken) as nat) == 1_000_000) by {
            reveal_with_fuel(pow10, 7);
            assert(taken <= 6);
        };
    }
    Some(acc * scale)
}

/// Reads the scalar a decimal token denotes, if `v@.subrange(from, to)` is
/// one.
pub fn parse_fixed(v: &Vec<char>, from: usize, to: usize) -> (r: Option<crate::fixed::Fixed>)
    requires
        from <= to <= v@.len(),
    ensures
        ({
            let t = fixed_token(v@.subrange(from as int, to as int));
            match r {
                Some(f) => t == Some(f.micro as int) && 0 <= f.micro < 1_000_000_000_000,
                None => t is None,
            }
        }),
{
    let ghost s = v@.subrange(from as int, to as int);
    let dot = match find_from(v, '.', from) {
        Some(i) => if i < to {
            Some(i)
        } else {
            None
        },
        None => None,
    };
    match dot {
        None => {
            proof {
                assert(forall|j: int| 0 <= j < s.len() ==> s[j] == v@[from + j]);
                lemma_find_char_none(s, '.');
            }
            match parse_digits(v, from, to, 999_999) {
                Some(x) => {
                    Some(crate::fixed::Fixed { micro: (x as i64) * 1_000_000 })
                },
                None => None,
            }
        },
        Some(dp) => {
            proof {
                assert(forall|j: int| 0 <= j < dp - from ==> s[j] == v@[from + j]);
                assert(s[dp - from] == '.');
                lemma_find_char_at(s, '.', dp - from);
            }
            let ghost ip_s = s.subrange(0, dp - from);
            let ghost fp_s = s.subrange(dp - from + 1, s.len() as int);
            proof {
                assert(ip_s =~= v@.subrange(from as int, dp as int));
                assert(fp_s =~= v@.subrange(dp + 1, to as int));
            }
            if dp == from && dp + 1 == to {
                // a lone dot holds no digit
                return None;
            }
            let fpv = parse_frac(v, dp + 1, to);
            if dp == from {
                // no whole part: the empty digit run is worth zero
                match fpv {
                    Some(f) => Some(crate::fixed::Fixed { micro: f as i64 }),
                    None => None,
                }
            } else {
                let ip = parse_digits(v, from, dp, 999_999);
                match (ip, fpv) {
                    (Some(x), Some(f)) => Some(
                        crate::fixed::Fixed { micro: (x as i64) * 1_000_000 + (f as i64) },
                    ),
                    _ => None,
                }
            }
        },
    }
}

/// The pieces of `v` between occurrences of `sep`.
pub fn split_chars(v: &Vec<char>, sep: char) -> (r: Vec<Vec<char>>)
    ensures
        r.deep_view() == split_on(v@, sep),
{
    let mut out: Vec<Vec<char>> = Vec::new();
    split_into(v, sep, 0, &mut out);
    proof {
        assert(v@.subrange(0, v@.len() as int) =~= v@);
        assert(out.deep_view() =~~= split_on(v@, sep));
    }
    out
}


/// Folding case twice is folding it once.
pub proof fn lemma_lower_idempotent(s: Seq<char>)
    ensures
        lower(lower(s)) == lower(s),
{
    assert(lower(lower(s)) =~= lower(s));
}

/// Case folding commutes with trimming leading whitespace.
pub proof fn lemma_trim_start_lower(s: Seq<char>)
    ensures
        trim_start(lower(s)) == lower(trim_start(s)),
    decreases s.len(),
{
    if s.len() > 0 && is_ws(s[0]) {
        lemma_trim_start_lower(s.subrange(1, s.len() as int));
        assert(lower(s).subrange(1, lower(s).len() as int)
            =~= lower(s.subrange(1, s.len() as int)));
    }
}

/// Case folding commutes with trimming trailing whitespace.
pub proof fn lemma_trim_end_lower(s: Seq<char>)
    ensures
        trim_end(lower(s)) == lower(trim_end(s)),
    decreases s.len(),
{
    if s.len() > 0 && is_ws(s.last()) {
        lemma_trim_end_lower(s.drop_last());
        assert(lower(s).drop_last() =~= lower(s.drop_last()));
    }
}

/// Case folding commutes with trimming.
pub proof fn lemma_trim_lower(s: Seq<char>)
    ensures
        trim(lower(s)) == lower(trim(s)),
{
    lemma_trim_start_lower(s);
    lemma_trim_end_lower(trim_start(s));
}

/// Whether `v` holds exactly the characters of `s`.
pub fn chars_eq_str(v: &Vec<char>, s: &str) -> (b: bool)
    ensures
        b == (v@ == s@),
{
    let n: usize = s.unicode_len();
    if v.len() != n {
        return false;
    }
    let mut i: usize = 0;
    while i < n
        invariant
            0 <= i <= n == s@.len(),
            v@.len() == n,
            forall|k: int| 0 <= k < i ==> v@[k] == s@[k],
        decreases n - i,
    {
        if v[i] != s.get_char(i) {
            return false;
        }
        i = i + 1;
    }
    proof {
        assert(v@ =~= s@);
    }
    true
}


/// The bounds of a region of `v` with surrounding whitespace shaved off:
/// `v@.subrange(r.0, r.1) == trim(v@.subrange(from, to))`.
pub fn trim_range(v: &Vec<char>, from: usize, to: usize) -> (r: (usize, usize))
    requires
        from <= to <= v@.len(),
    ensures
        from <= r.0 <= r.1 <= to,
        v@.subrange(r.0 as int, r.1 as int) == trim(v@.subrange(from as int, to as int)),
{
    let ghost t = v@.subrange(from as int, to as int);
    let mut i: usize = from;
    proof {
        assert(t.subrange(0, t.len() as int) =~= t);
    }
    while i < to && is_ws_exec(v[i])
        invariant
            from <= i <= to <= v@.len(),
            t == v@.subrange(from as int, to as int),
            trim_start(t) == trim_start(t.subrange(i - from, t.len() as int)),
        decreases to - i,
    {
        proof {
            assert(t[i - from] == v@[i as int]);
            assert(t.subrange(i - from, t.len() as int).subrange(1, (to - i) as int)
                =~= t.subrange(i + 1 - from, t.len() as int));
        }
        i = i + 1;
    }
    proof {
        if i < to {
            assert(t[i - from] == v@[i as int]);
        }
        assert(trim_start(t) == t.subrange(i - from, t.len() as int));
    }
    let mut j: usize = to;
    while j > i && is_ws_exec(v[j - 1])
        invariant
            from <= i <= j <= to <= v@.len(),
            t == v@.subrange(from as int, to as int),
            trim_end(t.subrange(i - from, t.len() as int))
                == trim_end(t.subrange(i - from, j - from)),
        decreases j,
    {
        proof {
            assert(t[j - 1 - from] == v@[j - 1]);
            assert(t.subrange(i - from, j - from).drop_last()
                =~= t.subrange(i - from, j - 1 - from));
        }
        j = j - 1;
    }
    proof {
        if j > i {
            assert(t[j - 1 - from] == v@[j - 1]);
        }
        assert(trim_end(t.subrange(i - from, j - from)) == t.subrange(i - from, j - from));
        assert(v@.subrange(i as int, j as int) =~= t.subrange(i - from, j - from));
    }
    (i, j)
}

} // verus!
