//! The RGBA color model: construction, HSL conversion, the CSS3 keyword
//! table, and textual parsing of color literals.

use vstd::prelude::*;
use crate::fixed::{Fixed, round_div};
use crate::text::{
    byte_token, chars_eq_str, fixed_token, lower, lower_chars, parse_byte, parse_fixed,
    split_chars, split_on, subrange_chars, trim, trim_bounds, trim_chars,
};

verus! {

/// An RGBA color. Channels are 8-bit; alpha is a scalar in `[0, 1]`.
/// Alpha is not clamped by construction; callers supply valid values.
#[derive(Clone, Copy, PartialEq, Eq, Structural, Debug)]
pub struct Color {
    pub red: u8,
    pub green: u8,
    pub blue: u8,
    pub alpha: Fixed,
}

/// Constructs a color from its four components, unchanged.
pub fn rgba(r: u8, g: u8, b: u8, a: Fixed) -> (c: Color)
    ensures
        c.red == r,
        c.green == g,
        c.blue == b,
        c.alpha == a,
{
    Color { red: r, green: g, blue: b, alpha: a }
}

/// Constructs an opaque color from its three channels, unchanged.
pub fn rgb(r: u8, g: u8, b: u8) -> (c: Color)
    ensures
        c == (Color { red: r, green: g, blue: b, alpha: Fixed { micro: 1_000_000 } }),
{
    rgba(r, g, b, Fixed::of_micro(1_000_000))
}

/// `m2` of the CSS3 HSL-to-RGB algorithm, in units of one trillionth:
/// `l*(s+1)` when `l <= 1/2`, else `l + s - l*s`.
pub open spec fn hsl_m2(s: int, l: int) -> int {
    if l <= 500_000 {
        l * (s + 1_000_000)
    } else {
        (l + s) * 1_000_000 - l * s
    }
}

/// `m1` of the CSS3 HSL-to-RGB algorithm, in units of one trillionth:
/// `2*l - m2`.
pub open spec fn hsl_m1(s: int, l: int) -> int {
    2_000_000 * l - hsl_m2(s, l)
}

/// One wrap of a hue in micro-degrees back into `[0, 360]` degrees.
pub open spec fn hue_wrap(t: int) -> int {
    if t < 0 {
        t + 360_000_000
    } else if t > 360_000_000 {
        t - 360_000_000
    } else {
        t
    }
}

/// The piecewise hue-to-channel function of the CSS3 algorithm, scaled to an
/// 8-bit channel and rounded to nearest, ties away from zero. `m1` and `m2`
/// are in trillionths, `t` is the wrapped hue in micro-degrees.
pub open spec fn hue_to_channel(m1: int, m2: int, t: int) -> int {
    if t < 60_000_000 {
        round_div(255 * (m1 * 60_000_000 + (m2 - m1) * t), 60_000_000_000_000_000_000)
    } else if t < 180_000_000 {
        round_div(255 * m2, 1_000_000_000_000)
    } else if t < 240_000_000 {
        round_div(
            255 * (m1 * 60_000_000 + (m2 - m1) * (240_000_000 - t)),
            60_000_000_000_000_000_000,
        )
    } else {
        round_div(255 * m1, 1_000_000_000_000)
    }
}

/// One channel of the color `hsl(h, s, l)`: the hue is offset by `off`
/// micro-degrees (`+120` degrees for red, `0` for green, `-120` for blue),
/// wrapped once, and fed to the piecewise function.
pub open spec fn hsl_channel(h: int, s: int, l: int, off: int) -> int {
    hue_to_channel(hsl_m1(s, l), hsl_m2(s, l), hue_wrap(h + off))
}

/// Exec form of `hue_to_channel` over magnitudes that the HSL domain yields.
fn hue_channel(m1: u64, m2: u64, t: u64) -> (c: u8)
    requires
        m1 <= m2 <= 1_000_000_000_000,
        t <= 360_000_000,
    ensures
        c == hue_to_channel(m1 as int, m2 as int, t as int),
{
    if t < 60_000_000 {
        slope_channel(m1, m2, t)
    } else if t < 180_000_000 {
        let q: u128 = (255 * (m2 as u128) + 500_000_000_000) / 1_000_000_000_000;
        assert(q <= 255);
        q as u8
    } else if t < 240_000_000 {
        let tt: u64 = 240_000_000 - t;
        slope_channel(m1, m2, tt)
    } else {
        let q: u128 = (255 * (m1 as u128) + 500_000_000_000) / 1_000_000_000_000;
        assert(q <= 255);
        q as u8
    }
}

/// The sloped segment of the hue-to-channel function:
/// `m1 + (m2 - m1) * t / 60` degrees, scaled to 8 bits and rounded.
fn slope_channel(m1: u64, m2: u64, t: u64) -> (c: u8)
    requires
        m1 <= m2 <= 1_000_000_000_000,
        t <= 60_000_000,
    ensures
        c == round_div(
            255 * (m1 * 60_000_000 + (m2 - m1) * t),
            60_000_000_000_000_000_000,
        ),
{
    proof {
        assert(m1 * 60_000_000 + (m2 - m1) * t <= 60_000_000_000_000_000_000)
            by (nonlinear_arith)
            requires
                m1 <= m2 <= 1_000_000_000_000,
                t <= 60_000_000,
        ;
    }
    let num: u128 = (m1 as u128) * 60_000_000 + ((m2 - m1) as u128) * (t as u128);
    let q: u128 = (255 * num + 30_000_000_000_000_000_000) / 60_000_000_000_000_000_000;
    assert(q <= 255);
    q as u8
}

/// Constructs a color from hue (degrees), saturation, lightness and alpha by
/// the standard CSS3 HSL-to-RGB conversion, each channel rounded to the
/// nearest 8-bit value. Hue, saturation and lightness outside their domains
/// are programming errors and are ruled out by precondition.
pub fn hsla(h: Fixed, s: Fixed, l: Fixed, a: Fixed) -> (c: Color)
    requires
        0 <= h.micro <= 360_000_000,
        0 <= s.micro <= 1_000_000,
        0 <= l.micro <= 1_000_000,
    ensures
        c.red == hsl_channel(h.micro as int, s.micro as int, l.micro as int, 120_000_000),
        c.green == hsl_channel(h.micro as int, s.micro as int, l.micro as int, 0),
        c.blue == hsl_channel(h.micro as int, s.micro as int, l.micro as int, -120_000_000),
        c.alpha == a,
{
    let su: u64 = s.micro as u64;
    let lu: u64 = l.micro as u64;
    let hu: u64 = h.micro as u64;
    proof {
        assert(lu <= 500_000 ==> lu * (su + 1_000_000) <= 1_000_000_000_000)
            by (nonlinear_arith)
            requires
                su <= 1_000_000,
        ;
        assert(lu > 500_000 ==> lu * su <= (lu + su) * 1_000_000
            && (lu + su) * 1_000_000 - lu * su <= 1_000_000_000_000) by (nonlinear_arith)
            requires
                su <= 1_000_000,
                lu <= 1_000_000,
        ;
    }
    let m2: u64 = if lu <= 500_000 {
        lu * (su + 1_000_000)
    } else {
        (lu + su) * 1_000_000 - lu * su
    };
    proof {
        assert(m2 <= 2_000_000 * lu && 2_000_000 * lu - m2 <= m2) by (nonlinear_arith)
            requires
                su <= 1_000_000,
                lu <= 1_000_000,
                m2 == hsl_m2(su as int, lu as int),
        ;
    }
    let m1: u64 = 2 * lu * 1_000_000 - m2;
    let tr: u64 = if hu + 120_000_000 > 360_000_000 { hu - 240_000_000 } else { hu + 120_000_000 };
    let tg: u64 = hu;
    let tb: u64 = if hu >= 120_000_000 { hu - 120_000_000 } else { hu + 240_000_000 };
    let red: u8 = hue_channel(m1, m2, tr);
    let green: u8 = hue_channel(m1, m2, tg);
    let blue: u8 = hue_channel(m1, m2, tb);
    Color { red, green, blue, alpha: a }
}

/// Constructs an opaque color from hue, saturation and lightness.
pub fn hsl(h: Fixed, s: Fixed, l: Fixed) -> (c: Color)
    requires
        0 <= h.micro <= 360_000_000,
        0 <= s.micro <= 1_000_000,
        0 <= l.micro <= 1_000_000,
    ensures
        c.red == hsl_channel(h.micro as int, s.micro as int, l.micro as int, 120_000_000),
        c.green == hsl_channel(h.micro as int, s.micro as int, l.micro as int, 0),
        c.blue == hsl_channel(h.micro as int, s.micro as int, l.micro as int, -120_000_000),
        c.alpha == (Fixed { micro: 1_000_000 }),
{
    hsla(h, s, l, Fixed::of_micro(1_000_000))
}

/// Lightness zero gives black, whatever the hue and saturation.
pub proof fn lemma_hsl_black(h: int, s: int, off: int)
    requires
        0 <= h <= 360_000_000,
        0 <= s <= 1_000_000,
    ensures
        hsl_channel(h, s, 0, off) == 0,
{
    assert(hsl_m2(s, 0) == 0) by (nonlinear_arith);
    assert(hsl_m1(s, 0) == 0);
}

/// Lightness one gives white, whatever the hue and saturation.
pub proof fn lemma_hsl_white(h: int, s: int, off: int)
    requires
        0 <= h <= 360_000_000,
        0 <= s <= 1_000_000,
        -120_000_000 <= off <= 120_000_000,
    ensures
        hsl_channel(h, s, 1_000_000, off) == 255,
{
    assert(hsl_m2(s, 1_000_000) == 1_000_000_000_000) by (nonlinear_arith);
    assert(hsl_m1(s, 1_000_000) == 1_000_000_000_000);
    let t = hue_wrap(h + off);
    assert(0 <= t <= 360_000_000);
    assert(hue_to_channel(1_000_000_000_000, 1_000_000_000_000, t) == 255) by (nonlinear_arith)
        requires
            0 <= t <= 360_000_000,
    ;
}


/// The characters of `s`, one by one.
pub fn chars_of(s: &str) -> (r: Vec<char>)
    ensures
        r@ == s@,
{
    let n: usize = s.unicode_len();
    let mut r: Vec<char> = Vec::new();
    let mut i: usize = 0;
    while i < n
        invariant
            0 <= i <= n == s@.len(),
            r@ == s@.subrange(0, i as int),
        decreases n - i,
    {
        r.push(s.get_char(i));
        i = i + 1;
        proof {
            assert(r@ =~= s@.subrange(0, i as int));
        }
    }
    proof {
        assert(r@ =~= s@);
    }
    r
}

/// Whether `s` begins with `p`.
pub open spec fn starts_with(s: Seq<char>, p: Seq<char>) -> bool {
    s.len() >= p.len() && s.subrange(0, p.len() as int) == p
}

/// Whether `v` begins with the characters of `p`.
fn starts_with_str(v: &Vec<char>, p: &str) -> (b: bool)
    ensures
        b == starts_with(v@, p@),
{
    let n: usize = p.unicode_len();
    if v.len() < n {
        return false;
    }
    let mut i: usize = 0;
    while i < n
        invariant
            0 <= i <= n == p@.len(),
            v@.len() >= n,
            forall|k: int| 0 <= k < i ==> v@[k] == p@[k],
        decreases n - i,
    {
        if v[i] != p.get_char(i) {
            proof {
                assert(v@.subrange(0, n as int)[i as int] != p@[i as int]);
            }
            return false;
        }
        i = i + 1;
    }
    proof {
        assert(v@.subrange(0, n as int) =~= p@);
    }
    true
}

/// An opaque color with the given channels, as the keyword table yields it.
pub open spec fn some_color(r: u8, g: u8, b: u8) -> Option<Color> {
    Some(Color { red: r, green: g, blue: b, alpha: Fixed { micro: 1_000_000 } })
}

/// The comma-separated arguments of a functional notation: everything
/// between the prefix of length `plen` and the closing parenthesis, split on
/// commas. Yields nothing when the text is too short or does not end in `)`.
pub open spec fn func_args(s: Seq<char>, plen: int) -> Option<Seq<Seq<char>>> {
    if s.len() >= plen + 1 && s.last() == ')' {
        Some(split_on(s.subrange(plen, s.len() - 1), ','))
    } else {
        None
    }
}

/// A color in `rgb(r,g,b)` form: three integer channel tokens, whitespace
/// around each permitted, alpha one.
pub open spec fn spec_parse_rgb(s: Seq<char>) -> Option<Color> {
    match func_args(s, 4) {
        None => None,
        Some(toks) => {
            if toks.len() != 3 {
                None
            } else {
                match (byte_token(trim(toks[0])), byte_token(trim(toks[1])), byte_token(
                    trim(toks[2]),
                )) {
                    (Some(r), Some(g), Some(b)) => some_color(r, g, b),
                    _ => None,
                }
            }
        },
    }
}

/// A color in `rgba(r,g,b,a)` form: three integer channel tokens and a
/// decimal alpha token.
pub open spec fn spec_parse_rgba(s: Seq<char>) -> Option<Color> {
    match func_args(s, 5) {
        None => None,
        Some(toks) => {
            if toks.len() != 4 {
                None
            } else {
                match (byte_token(trim(toks[0])), byte_token(trim(toks[1])), byte_token(
                    trim(toks[2]),
                ), fixed_token(trim(toks[3]))) {
                    (Some(r), Some(g), Some(b), Some(a)) => Some(
                        Color { red: r, green: g, blue: b, alpha: Fixed { micro: a as i64 } },
                    ),
                    _ => None,
                }
            }
        },
    }
}

/// Whether three decimal tokens lie in the HSL domain: a hue within 360
/// degrees, saturation and lightness within one.
pub open spec fn hsl_in_domain(h: int, s: int, l: int) -> bool {
    h <= 360_000_000 && s <= 1_000_000 && l <= 1_000_000
}

/// The color of HSL coordinates in micro units, opaque unless an alpha is
/// given.
pub open spec fn hsl_color(h: int, s: int, l: int, a: int) -> Option<Color> {
    if hsl_in_domain(h, s, l) {
        Some(
            Color {
                red: hsl_channel(h, s, l, 120_000_000) as u8,
                green: hsl_channel(h, s, l, 0) as u8,
                blue: hsl_channel(h, s, l, -120_000_000) as u8,
                alpha: Fixed { micro: a as i64 },
            },
        )
    } else {
        None
    }
}

/// A color in `hsl(h,s,l)` form: three decimal tokens within the HSL
/// domain, converted to RGB.
pub open spec fn spec_parse_hsl(s: Seq<char>) -> Option<Color> {
    match func_args(s, 4) {
        None => None,
        Some(toks) => {
            if toks.len() != 3 {
                None
            } else {
                match (fixed_token(trim(toks[0])), fixed_token(trim(toks[1])), fixed_token(
                    trim(toks[2]),
                )) {
                    (Some(h), Some(sa), Some(l)) => hsl_color(h, sa, l, 1_000_000),
                    _ => None,
                }
            }
        },
    }
}

/// A color in `hsla(h,s,l,a)` form.
pub open spec fn spec_parse_hsla(s: Seq<char>) -> Option<Color> {
    match func_args(s, 5) {
        None => None,
        Some(toks) => {
            if toks.len() != 4 {
                None
            } else {
                match (fixed_token(trim(toks[0])), fixed_token(trim(toks[1])), fixed_token(
                    trim(toks[2]),
                ), fixed_token(trim(toks[3]))) {
                    (Some(h), Some(sa), Some(l), Some(a)) => hsl_color(h, sa, l, a),
                    _ => None,
                }
            }
        },
    }
}

/// What `parse_color` yields: functional notations are recognized by their
/// prefix, in the order `rgb(`, `rgba(`, `hsl(`, `hsla(`; anything else is
/// read as a keyword.
pub open spec fn spec_parse_color(s: Seq<char>) -> Option<Color> {
    if starts_with(s, "rgb("@) {
        spec_parse_rgb(s)
    } else if starts_with(s, "rgba("@) {
        spec_parse_rgba(s)
    } else if starts_with(s, "hsl("@) {
        spec_parse_hsl(s)
    } else if starts_with(s, "hsla("@) {
        spec_parse_hsla(s)
    } else {
        keyword_color(s)
    }
}

/// Splits the arguments of a functional notation out of `v`, as
/// `func_args` describes, each argument trimmed in place afterwards by its
/// callers.
fn func_args_exec(v: &Vec<char>, plen: usize) -> (r: Option<Vec<Vec<char>>>)
    requires
        1 <= plen <= 6,
    ensures
        match r {
            Some(toks) => func_args(v@, plen as int) == Some(toks.deep_view()),
            None => func_args(v@, plen as int) is None,
        },
{
    let n: usize = v.len();
    if n < plen + 1 {
        return None;
    }
    if v[n - 1] != ')' {
        return None;
    }
    let inner = subrange_chars(v, plen, n - 1);
    Some(split_chars(&inner, ','))
}

/// The byte a channel argument denotes, whitespace trimmed, if it is an
/// integer token.
fn channel_arg(tok: &Vec<char>) -> (r: Option<u8>)
    ensures
        r == byte_token(trim(tok@)),
{
    let b = trim_bounds(tok);
    parse_byte(tok, b.0, b.1)
}

/// The scalar a decimal argument denotes, whitespace trimmed, if it is a
/// decimal token.
fn fixed_arg(tok: &Vec<char>) -> (r: Option<Fixed>)
    ensures
        match r {
            Some(f) => fixed_token(trim(tok@)) == Some(f.micro as int)
                && 0 <= f.micro < 1_000_000_000_000,
            None => fixed_token(trim(tok@)) is None,
        },
{
    let b = trim_bounds(tok);
    parse_fixed(tok, b.0, b.1)
}

/// Parses `rgb(r,g,b)`.
fn parse_rgb(v: &Vec<char>) -> (r: Option<Color>)
    ensures
        r == spec_parse_rgb(v@),
{
    match func_args_exec(v, 4) {
        None => None,
        Some(toks) => {
            if toks.len() != 3 {
                return None;
            }
            proof {
                assert(toks.deep_view()[0] == toks@[0]@);
                assert(toks.deep_view()[1] == toks@[1]@);
                assert(toks.deep_view()[2] == toks@[2]@);
            }
            let cr = channel_arg(&toks[0]);
            let cg = channel_arg(&toks[1]);
            let cb = channel_arg(&toks[2]);
            match (cr, cg, cb) {
                (Some(r), Some(g), Some(b)) => Some(rgb(r, g, b)),
                _ => None,
            }
        },
    }
}

/// Parses `rgba(r,g,b,a)`.
fn parse_rgba(v: &Vec<char>) -> (r: Option<Color>)
    ensures
        r == spec_parse_rgba(v@),
{
    match func_args_exec(v, 5) {
        None => None,
        Some(toks) => {
            if toks.len() != 4 {
                return None;
            }
            proof {
                assert(toks.deep_view()[0] == toks@[0]@);
                assert(toks.deep_view()[1] == toks@[1]@);
                assert(toks.deep_view()[2] == toks@[2]@);
                assert(toks.deep_view()[3] == toks@[3]@);
            }
            let cr = channel_arg(&toks[0]);
            let cg = channel_arg(&toks[1]);
            let cb = channel_arg(&toks[2]);
            let ca = fixed_arg(&toks[3]);
            match (cr, cg, cb, ca) {
                (Some(r), Some(g), Some(b), Some(a)) => Some(rgba(r, g, b, a)),
                _ => None,
            }
        },
    }
}

/// Parses `hsl(h,s,l)`.
fn parse_hsl(v: &Vec<char>) -> (r: Option<Color>)
    ensures
        r == spec_parse_hsl(v@),
{
    match func_args_exec(v, 4) {
        None => None,
        Some(toks) => {
            if toks.len() != 3 {
                return None;
            }
            proof {
                assert(toks.deep_view()[0] == toks@[0]@);
                assert(toks.deep_view()[1] == toks@[1]@);
                assert(toks.deep_view()[2] == toks@[2]@);
            }
            let ch = fixed_arg(&toks[0]);
            let cs = fixed_arg(&toks[1]);
            let cl = fixed_arg(&toks[2]);
            match (ch, cs, cl) {
                (Some(h), Some(sa), Some(l)) => in_domain_hsla(h, sa, l, Fixed::of_micro(
                    1_000_000,
                )),
                _ => None,
            }
        },
    }
}

/// Parses `hsla(h,s,l,a)`.
fn parse_hsla(v: &Vec<char>) -> (r: Option<Color>)
    ensures
        r == spec_parse_hsla(v@),
{
    match func_args_exec(v, 5) {
        None => None,
        Some(toks) => {
            if toks.len() != 4 {
                return None;
            }
            proof {
                assert(toks.deep_view()[0] == toks@[0]@);
                assert(toks.deep_view()[1] == toks@[1]@);
                assert(toks.deep_view()[2] == toks@[2]@);
                assert(toks.deep_view()[3] == toks@[3]@);
            }
            let ch = fixed_arg(&toks[0]);
            let cs = fixed_arg(&toks[1]);
            let cl = fixed_arg(&toks[2]);
            let ca = fixed_arg(&toks[3]);
            match (ch, cs, cl, ca) {
                (Some(h), Some(sa), Some(l), Some(a)) => in_domain_hsla(h, sa, l, a),
                _ => None,
            }
        },
    }
}

/// Converts HSL coordinates after checking them against the HSL domain.
fn in_domain_hsla(h: Fixed, s: Fixed, l: Fixed, a: Fixed) -> (r: Option<Color>)
    requires
        0 <= h.micro,
        0 <= s.micro,
        0 <= l.micro,
    ensures
        r == hsl_color(h.micro as int, s.micro as int, l.micro as int, a.micro as int),
{
    if h.micro <= 360_000_000 && s.micro <= 1_000_000 && l.micro <= 1_000_000 {
        Some(hsla(h, s, l, a))
    } else {
        None
    }
}

/// Parses a textual color: one of the four functional notations, else a
/// case-insensitive keyword.
pub fn parse_color(color: &str) -> (r: Option<Color>)
    ensures
        r == spec_parse_color(color@),
{
    let v = chars_of(color);
    if starts_with_str(&v, "rgb(") {
        parse_rgb(&v)
    } else if starts_with_str(&v, "rgba(") {
        parse_rgba(&v)
    } else if starts_with_str(&v, "hsl(") {
        parse_hsl(&v)
    } else if starts_with_str(&v, "hsla(") {
        parse_hsla(&v)
    } else {
        parse_by_name(color)
    }
}

/// The answer for a color literal that no rule of the grammar matches.
pub fn fail_unrecognized(col: &str) -> (r: Option<Color>)
    ensures
        r is None,
{
    None
}

/// The color a CSS3 keyword denotes, after trimming and case folding,
/// if the keyword is known.
pub open spec fn keyword_color(s: Seq<char>) -> Option<Color> {
    keyword_table(lower(trim(s)))
}

/// The table of the 147 CSS3 keyword colors, looked up by the folded,
/// trimmed keyword.
pub open spec fn keyword_table(t: Seq<char>) -> Option<Color> {
    if t == "aliceblue"@ {
        some_color(240, 248, 255)
    } else if t == "antiquewhite"@ {
        some_color(250, 235, 215)
    } else if t == "aqua"@ {
        some_color(0, 255, 255)
    } else if t == "aquamarine"@ {
        some_color(127, 255, 212)
    } else if t == "azure"@ {
        some_color(240, 255, 255)
    } else if t == "beige"@ {
        some_color(245, 245, 220)
    } else if t == "bisque"@ {
        some_color(255, 228, 196)
    } else if t == "black"@ {
        some_color(0, 0, 0)
    } else if t == "blanchedalmond"@ {
        some_color(255, 235, 205)
    } else if t == "blue"@ {
        some_color(0, 0, 255)
    } else if t == "blueviolet"@ {
        some_color(138, 43, 226)
    } else if t == "brown"@ {
        some_color(165, 42, 42)
    } else if t == "burlywood"@ {
        some_color(222, 184, 135)
    } else if t == "cadetblue"@ {
        some_color(95, 158, 160)
    } else if t == "chartreuse"@ {
        some_color(127, 255, 0)
    } else if t == "chocolate"@ {
        some_color(210, 105, 30)
    } else if t == "coral"@ {
        some_color(255, 127, 80)
    } else if t == "cornflowerblue"@ {
        some_color(100, 149, 237)
    } else if t == "cornsilk"@ {
        some_color(255, 248, 220)
    } else if t == "crimson"@ {
        some_color(220, 20, 60)
    } else if t == "cyan"@ {
        some_color(0, 255, 255)
    } else if t == "darkblue"@ {
        some_color(0, 0, 139)
    } else if t == "darkcyan"@ {
        some_color(0, 139, 139)
    } else if t == "darkgoldenrod"@ {
        some_color(184, 134, 11)
    } else if t == "darkgray"@ {
        some_color(169, 169, 169)
    } else if t == "darkgreen"@ {
        some_color(0, 100, 0)
    } else if t == "darkgrey"@ {
        some_color(169, 169, 169)
    } else if t == "darkkhaki"@ {
        some_color(189, 183, 107)
    } else if t == "darkmagenta"@ {
        some_color(139, 0, 139)
    } else if t == "darkolivegreen"@ {
        some_color(85, 107, 47)
    } else if t == "darkorange"@ {
        some_color(255, 140, 0)
    } else if t == "darkorchid"@ {
        some_color(153, 50, 204)
    } else if t == "darkred"@ {
        some_color(139, 0, 0)
    } else if t == "darksalmon"@ {
        some_color(233, 150, 122)
    } else if t == "darkseagreen"@ {
        some_color(143, 188, 143)
    } else if t == "darkslateblue"@ {
        some_color(72, 61, 139)
    } else if t == "darkslategray"@ {
        some_color(47, 79, 79)
    } else if t == "darkslategrey"@ {
        some_color(47, 79, 79)
    } else if t == "darkturquoise"@ {
        some_color(0, 206, 209)
    } else if t == "darkviolet"@ {
        some_color(148, 0, 211)
    } else if t == "deeppink"@ {
        some_color(255, 20, 147)
    } else if t == "deepskyblue"@ {
        some_color(0, 191, 255)
    } else if t == "dimgray"@ {
        some_color(105, 105, 105)
    } else if t == "dimgrey"@ {
        some_color(105, 105, 105)
    } else if t == "dodgerblue"@ {
        some_color(30, 144, 255)
    } else if t == "firebrick"@ {
        some_color(178, 34, 34)
    } else if t == "floralwhite"@ {
        some_color(255, 250, 240)
    } else if t == "forestgreen"@ {
        some_color(34, 139, 34)
    } else if t == "fuchsia"@ {
        some_color(255, 0, 255)
    } else if t == "gainsboro"@ {
        some_color(220, 220, 220)
    } else if t == "ghostwhite"@ {
        some_color(248, 248, 255)
    } else if t == "gold"@ {
        some_color(255, 215, 0)
    } else if t == "goldenrod"@ {
        some_color(218, 165, 32)
    } else if t == "gray"@ {
        some_color(128, 128, 128)
    } else if t == "grey"@ {
        some_color(128, 128, 128)
    } else if t == "green"@ {
        some_color(0, 128, 0)
    } else if t == "greenyellow"@ {
        some_color(173, 255, 47)
    } else if t == "honeydew"@ {
        some_color(240, 255, 240)
    } else if t == "hotpink"@ {
        some_color(255, 105, 180)
    } else if t == "indianred"@ {
        some_color(205, 92, 92)
    } else if t == "indigo"@ {
        some_color(75, 0, 130)
    } else if t == "ivory"@ {
        some_color(255, 255, 240)
    } else if t == "khaki"@ {
        some_color(240, 230, 140)
    } else if t == "lavender"@ {
        some_color(230, 230, 250)
    } else if t == "lavenderblush"@ {
        some_color(255, 240, 245)
    } else if t == "lawngreen"@ {
        some_color(124, 252, 0)
    } else if t == "lemonchiffon"@ {
        some_color(255, 250, 205)
    } else if t == "lightblue"@ {
        some_color(173, 216, 230)
    } else if t == "lightcoral"@ {
        some_color(240, 128, 128)
    } else if t == "lightcyan"@ {
        some_color(224, 255, 255)
    } else if t == "lightgoldenrodyellow"@ {
        some_color(250, 250, 210)
    } else if t == "lightgray"@ {
        some_color(211, 211, 211)
    } else if t == "lightgreen"@ {
        some_color(144, 238, 144)
    } else if t == "lightgrey"@ {
        some_color(211, 211, 211)
    } else if t == "lightpink"@ {
        some_color(255, 182, 193)
    } else if t == "lightsalmon"@ {
        some_color(255, 160, 122)
    } else if t == "lightseagreen"@ {
        some_color(32, 178, 170)
    } else if t == "lightskyblue"@ {
        some_color(135, 206, 250)
    } else if t == "lightslategray"@ {
        some_color(119, 136, 153)
    } else if t == "lightslategrey"@ {
        some_color(119, 136, 153)
    } else if t == "lightsteelblue"@ {
        some_color(176, 196, 222)
    } else if t == "lightyellow"@ {
        some_color(255, 255, 224)
    } else if t == "lime"@ {
        some_color(0, 255, 0)
    } else if t == "limegreen"@ {
        some_color(50, 205, 50)
    } else if t == "linen"@ {
        some_color(250, 240, 230)
    } else if t == "magenta"@ {
        some_color(255, 0, 255)
    } else if t == "maroon"@ {
        some_color(128, 0, 0)
    } else if t == "mediumaquamarine"@ {
        some_color(102, 205, 170)
    } else if t == "mediumblue"@ {
        some_color(0, 0, 205)
    } else if t == "mediumorchid"@ {
        some_color(186, 85, 211)
    } else if t == "mediumpurple"@ {
        some_color(147, 112, 219)
    } else if t == "mediumseagreen"@ {
        some_color(60, 179, 113)
    } else if t == "mediumslateblue"@ {
        some_color(123, 104, 238)
    } else if t == "mediumspringgreen"@ {
        some_color(0, 250, 154)
    } else if t == "mediumturquoise"@ {
        some_color(72, 209, 204)
    } else if t == "mediumvioletred"@ {
        some_color(199, 21, 133)
    } else if t == "midnightblue"@ {
        some_color(25, 25, 112)
    } else if t == "mintcream"@ {
        some_color(245, 255, 250)
    } else if t == "mistyrose"@ {
        some_color(255, 228, 225)
    } else if t == "moccasin"@ {
        some_color(255, 228, 181)
    } else if t == "navajowhite"@ {
        some_color(255, 222, 173)
    } else if t == "navy"@ {
        some_color(0, 0, 128)
    } else if t == "oldlace"@ {
        some_color(253, 245, 230)
    } else if t == "olive"@ {
        some_color(128, 128, 0)
    } else if t == "olivedrab"@ {
        some_color(107, 142, 35)
    } else if t == "orange"@ {
        some_color(255, 165, 0)
    } else if t == "orangered"@ {
        some_color(255, 69, 0)
    } else if t == "orchid"@ {
        some_color(218, 112, 214)
    } else if t == "palegoldenrod"@ {
        some_color(238, 232, 170)
    } else if t == "palegreen"@ {
        some_color(152, 251, 152)
    } else if t == "paleturquoise"@ {
        some_color(175, 238, 238)
    } else if t == "palevioletred"@ {
        some_color(219, 112, 147)
    } else if t == "papayawhip"@ {
        some_color(255, 239, 213)
    } else if t == "peachpuff"@ {
        some_color(255, 218, 185)
    } else if t == "peru"@ {
        some_color(205, 133, 63)
    } else if t == "pink"@ {
        some_color(255, 192, 203)
    } else if t == "plum"@ {
        some_color(221, 160, 221)
    } else if t == "powderblue"@ {
        some_color(176, 224, 230)
    } else if t == "purple"@ {
        some_color(128, 0, 128)
    } else if t == "red"@ {
        some_color(255, 0, 0)
    } else if t == "rosybrown"@ {
        some_color(188, 143, 143)
    } else if t == "royalblue"@ {
        some_color(65, 105, 225)
    } else if t == "saddlebrown"@ {
        some_color(139, 69, 19)
    } else if t == "salmon"@ {
        some_color(250, 128, 114)
    } else if t == "sandybrown"@ {
        some_color(244, 164, 96)
    } else if t == "seagreen"@ {
        some_color(46, 139, 87)
    } else if t == "seashell"@ {
        some_color(255, 245, 238)
    } else if t == "sienna"@ {
        some_color(160, 82, 45)
    } else if t == "silver"@ {
        some_color(192, 192, 192)
    } else if t == "skyblue"@ {
        some_color(135, 206, 235)
    } else if t == "slateblue"@ {
        some_color(106, 90, 205)
    } else if t == "slategray"@ {
        some_color(112, 128, 144)
    } else if t == "slategrey"@ {
        some_color(112, 128, 144)
    } else if t == "snow"@ {
        some_color(255, 250, 250)
    } else if t == "springgreen"@ {
        some_color(0, 255, 127)
    } else if t == "steelblue"@ {
        some_color(70, 130, 180)
    } else if t == "tan"@ {
        some_color(210, 180, 140)
    } else if t == "teal"@ {
        some_color(0, 128, 128)
    } else if t == "thistle"@ {
        some_color(216, 191, 216)
    } else if t == "tomato"@ {
        some_color(255, 99, 71)
    } else if t == "turquoise"@ {
        some_color(64, 224, 208)
    } else if t == "violet"@ {
        some_color(238, 130, 238)
    } else if t == "wheat"@ {
        some_color(245, 222, 179)
    } else if t == "white"@ {
        some_color(255, 255, 255)
    } else if t == "whitesmoke"@ {
        some_color(245, 245, 245)
    } else if t == "yellow"@ {
        some_color(255, 255, 0)
    } else if t == "yellowgreen"@ {
        some_color(154, 205, 50)
    } else {
        None
    }
}

/// Parses a color given by a case-insensitive CSS3 keyword.
pub fn parse_by_name(name: &str) -> (r: Option<Color>)
    ensures
        r == keyword_color(name@),
{
    let v = chars_of(name);
    let t0 = trim_chars(&v);
    let t = lower_chars(&t0);
    if chars_eq_str(&t, "aliceblue") {
        return Some(rgb(240, 248, 255));
    }
    if chars_eq_str(&t, "antiquewhite") {
        return Some(rgb(250, 235, 215));
    }
    if chars_eq_str(&t, "aqua") {
        return Some(rgb(0, 255, 255));
    }
    if chars_eq_str(&t, "aquamarine") {
        return Some(rgb(127, 255, 212));
    }
    if chars_eq_str(&t, "azure") {
        return Some(rgb(240, 255, 255));
    }
    if chars_eq_str(&t, "beige") {
        return Some(rgb(245, 245, 220));
    }
    if chars_eq_str(&t, "bisque") {
        return Some(rgb(255, 228, 196));
    }
    if chars_eq_str(&t, "black") {
        return Some(rgb(0, 0, 0));
    }
    if chars_eq_str(&t, "blanchedalmond") {
        return Some(rgb(255, 235, 205));
    }
    if chars_eq_str(&t, "blue") {
        return Some(rgb(0, 0, 255));
    }
    if chars_eq_str(&t, "blueviolet") {
        return Some(rgb(138, 43, 226));
    }
    if chars_eq_str(&t, "brown") {
        return Some(rgb(165, 42, 42));
    }
    if chars_eq_str(&t, "burlywood") {
        return Some(rgb(222, 184, 135));
    }
    if chars_eq_str(&t, "cadetblue") {
        return Some(rgb(95, 158, 160));
    }
    if chars_eq_str(&t, "chartreuse") {
        return Some(rgb(127, 255, 0));
    }
    if chars_eq_str(&t, "chocolate") {
        return Some(rgb(210, 105, 30));
    }
    if chars_eq_str(&t, "coral") {
        return Some(rgb(255, 127, 80));
    }
    if chars_eq_str(&t, "cornflowerblue") {
        return Some(rgb(100, 149, 237));
    }
    if chars_eq_str(&t, "cornsilk") {
        return Some(rgb(255, 248, 220));
    }
    if chars_eq_str(&t, "crimson") {
        return Some(rgb(220, 20, 60));
    }
    if chars_eq_str(&t, "cyan") {
        return Some(rgb(0, 255, 255));
    }
    if chars_eq_str(&t, "darkblue") {
        return Some(rgb(0, 0, 139));
    }
    if chars_eq_str(&t, "darkcyan") {
        return Some(rgb(0, 139, 139));
    }
    if chars_eq_str(&t, "darkgoldenrod") {
        return Some(rgb(184, 134, 11));
    }
    if chars_eq_str(&t, "darkgray") {
        return Some(rgb(169, 169, 169));
    }
    if chars_eq_str(&t, "darkgreen") {
        return Some(rgb(0, 100, 0));
    }
    if chars_eq_str(&t, "darkgrey") {
        return Some(rgb(169, 169, 169));
    }
    if chars_eq_str(&t, "darkkhaki") {
        return Some(rgb(189, 183, 107));
    }
    if chars_eq_str(&t, "darkmagenta") {
        return Some(rgb(139, 0, 139));
    }
    if chars_eq_str(&t, "darkolivegreen") {
        return Some(rgb(85, 107, 47));
    }
    if chars_eq_str(&t, "darkorange") {
        return Some(rgb(255, 140, 0));
    }
    if chars_eq_str(&t, "darkorchid") {
        return Some(rgb(153, 50, 204));
    }
    if chars_eq_str(&t, "darkred") {
        return Some(rgb(139, 0, 0));
    }
    if chars_eq_str(&t, "darksalmon") {
        return Some(rgb(233, 150, 122));
    }
    if chars_eq_str(&t, "darkseagreen") {
        return Some(rgb(143, 188, 143));
    }
    if chars_eq_str(&t, "darkslateblue") {
        return Some(rgb(72, 61, 139));
    }
    if chars_eq_str(&t, "darkslategray") {
        return Some(rgb(47, 79, 79));
    }
    if chars_eq_str(&t, "darkslategrey") {
        return Some(rgb(47, 79, 79));
    }
    if chars_eq_str(&t, "darkturquoise") {
        return Some(rgb(0, 206, 209));
    }
    if chars_eq_str(&t, "darkviolet") {
        return Some(rgb(148, 0, 211));
    }
    if chars_eq_str(&t, "deeppink") {
        return Some(rgb(255, 20, 147));
    }
    if chars_eq_str(&t, "deepskyblue") {
        return Some(rgb(0, 191, 255));
    }
    if chars_eq_str(&t, "dimgray") {
        return Some(rgb(105, 105, 105));
    }
    if chars_eq_str(&t, "dimgrey") {
        return Some(rgb(105, 105, 105));
    }
    if chars_eq_str(&t, "dodgerblue") {
        return Some(rgb(30, 144, 255));
    }
    if chars_eq_str(&t, "firebrick") {
        return Some(rgb(178, 34, 34));
    }
    if chars_eq_str(&t, "floralwhite") {
        return Some(rgb(255, 250, 240));
    }
    if chars_eq_str(&t, "forestgreen") {
        return Some(rgb(34, 139, 34));
    }
    if chars_eq_str(&t, "fuchsia") {
        return Some(rgb(255, 0, 255));
    }
    if chars_eq_str(&t, "gainsboro") {
        return Some(rgb(220, 220, 220));
    }
    if chars_eq_str(&t, "ghostwhite") {
        return Some(rgb(248, 248, 255));
    }
    if chars_eq_str(&t, "gold") {
        return Some(rgb(255, 215, 0));
    }
    if chars_eq_str(&t, "goldenrod") {
        return Some(rgb(218, 165, 32));
    }
    if chars_eq_str(&t, "gray") {
        return Some(rgb(128, 128, 128));
    }
    if chars_eq_str(&t, "grey") {
        return Some(rgb(128, 128, 128));
    }
    if chars_eq_str(&t, "green") {
        return Some(rgb(0, 128, 0));
    }
    if chars_eq_str(&t, "greenyellow") {
        return Some(rgb(173, 255, 47));
    }
    if chars_eq_str(&t, "honeydew") {
        return Some(rgb(240, 255, 240));
    }
    if chars_eq_str(&t, "hotpink") {
        return Some(rgb(255, 105, 180));
    }
    if chars_eq_str(&t, "indianred") {
        return Some(rgb(205, 92, 92));
    }
    if chars_eq_str(&t, "indigo") {
        return Some(rgb(75, 0, 130));
    }
    if chars_eq_str(&t, "ivory") {
        return Some(rgb(255, 255, 240));
    }
    if chars_eq_str(&t, "khaki") {
        return Some(rgb(240, 230, 140));
    }
    if chars_eq_str(&t, "lavender") {
        return Some(rgb(230, 230, 250));
    }
    if chars_eq_str(&t, "lavenderblush") {
        return Some(rgb(255, 240, 245));
    }
    if chars_eq_str(&t, "lawngreen") {
        return Some(rgb(124, 252, 0));
    }
    if chars_eq_str(&t, "lemonchiffon") {
        return Some(rgb(255, 250, 205));
    }
    if chars_eq_str(&t, "lightblue") {
        return Some(rgb(173, 216, 230));
    }
    if chars_eq_str(&t, "lightcoral") {
        return Some(rgb(240, 128, 128));
    }
    if chars_eq_str(&t, "lightcyan") {
        return Some(rgb(224, 255, 255));
    }
    if chars_eq_str(&t, "lightgoldenrodyellow") {
        return Some(rgb(250, 250, 210));
    }
    if chars_eq_str(&t, "lightgray") {
        return Some(rgb(211, 211, 211));
    }
    if chars_eq_str(&t, "lightgreen") {
        return Some(rgb(144, 238, 144));
    }
    if chars_eq_str(&t, "lightgrey") {
        return Some(rgb(211, 211, 211));
    }
    if chars_eq_str(&t, "lightpink") {
        return Some(rgb(255, 182, 193));
    }
    if chars_eq_str(&t, "lightsalmon") {
        return Some(rgb(255, 160, 122));
    }
    if chars_eq_str(&t, "lightseagreen") {
        return Some(rgb(32, 178, 170));
    }
    if chars_eq_str(&t, "lightskyblue") {
        return Some(rgb(135, 206, 250));
    }
    if chars_eq_str(&t, "lightslategray") {
        return Some(rgb(119, 136, 153));
    }
    if chars_eq_str(&t, "lightslategrey") {
        return Some(rgb(119, 136, 153));
    }
    if chars_eq_str(&t, "lightsteelblue") {
        return Some(rgb(176, 196, 222));
    }
    if chars_eq_str(&t, "lightyellow") {
        return Some(rgb(255, 255, 224));
    }
    if chars_eq_str(&t, "lime") {
        return Some(rgb(0, 255, 0));
    }
    if chars_eq_str(&t, "limegreen") {
        return Some(rgb(50, 205, 50));
    }
    if chars_eq_str(&t, "linen") {
        return Some(rgb(250, 240, 230));
    }
    if chars_eq_str(&t, "magenta") {
        return Some(rgb(255, 0, 255));
    }
    if chars_eq_str(&t, "maroon") {
        return Some(rgb(128, 0, 0));
    }
    if chars_eq_str(&t, "mediumaquamarine") {
        return Some(rgb(102, 205, 170));
    }
    if chars_eq_str(&t, "mediumblue") {
        return Some(rgb(0, 0, 205));
    }
    if chars_eq_str(&t, "mediumorchid") {
        return Some(rgb(186, 85, 211));
    }
    if chars_eq_str(&t, "mediumpurple") {
        return Some(rgb(147, 112, 219));
    }
    if chars_eq_str(&t, "mediumseagreen") {
        return Some(rgb(60, 179, 113));
    }
    if chars_eq_str(&t, "mediumslateblue") {
        return Some(rgb(123, 104, 238));
    }
    if chars_eq_str(&t, "mediumspringgreen") {
        return Some(rgb(0, 250, 154));
    }
    if chars_eq_str(&t, "mediumturquoise") {
        return Some(rgb(72, 209, 204));
    }
    if chars_eq_str(&t, "mediumvioletred") {
        return Some(rgb(199, 21, 133));
    }
    if chars_eq_str(&t, "midnightblue") {
        return Some(rgb(25, 25, 112));
    }
    if chars_eq_str(&t, "mintcream") {
        return Some(rgb(245, 255, 250));
    }
    if chars_eq_str(&t, "mistyrose") {
        return Some(rgb(255, 228, 225));
    }
    if chars_eq_str(&t, "moccasin") {
        return Some(rgb(255, 228, 181));
    }
    if chars_eq_str(&t, "navajowhite") {
        return Some(rgb(255, 222, 173));
    }
    if chars_eq_str(&t, "navy") {
        return Some(rgb(0, 0, 128));
    }
    if chars_eq_str(&t, "oldlace") {
        return Some(rgb(253, 245, 230));
    }
    if chars_eq_str(&t, "olive") {
        return Some(rgb(128, 128, 0));
    }
    if chars_eq_str(&t, "olivedrab") {
        return Some(rgb(107, 142, 35));
    }
    if chars_eq_str(&t, "orange") {
        return Some(rgb(255, 165, 0));
    }
    if chars_eq_str(&t, "orangered") {
        return Some(rgb(255, 69, 0));
    }
    if chars_eq_str(&t, "orchid") {
        return Some(rgb(218, 112, 214));
    }
    if chars_eq_str(&t, "palegoldenrod") {
        return Some(rgb(238, 232, 170));
    }
    if chars_eq_str(&t, "palegreen") {
        return Some(rgb(152, 251, 152));
    }
    if chars_eq_str(&t, "paleturquoise") {
        return Some(rgb(175, 238, 238));
    }
    if chars_eq_str(&t, "palevioletred") {
        return Some(rgb(219, 112, 147));
    }
    if chars_eq_str(&t, "papayawhip") {
        return Some(rgb(255, 239, 213));
    }
    if chars_eq_str(&t, "peachpuff") {
        return Some(rgb(255, 218, 185));
    }
    if chars_eq_str(&t, "peru") {
        return Some(rgb(205, 133, 63));
    }
    if chars_eq_str(&t, "pink") {
        return Some(rgb(255, 192, 203));
    }
    if chars_eq_str(&t, "plum") {
        return Some(rgb(221, 160, 221));
    }
    if chars_eq_str(&t, "powderblue") {
        return Some(rgb(176, 224, 230));
    }
    if chars_eq_str(&t, "purple") {
        return Some(rgb(128, 0, 128));
    }
    if chars_eq_str(&t, "red") {
        return Some(rgb(255, 0, 0));
    }
    if chars_eq_str(&t, "rosybrown") {
        return Some(rgb(188, 143, 143));
    }
    if chars_eq_str(&t, "royalblue") {
        return Some(rgb(65, 105, 225));
    }
    if chars_eq_str(&t, "saddlebrown") {
        return Some(rgb(139, 69, 19));
    }
    if chars_eq_str(&t, "salmon") {
        return Some(rgb(250, 128, 114));
    }
    if chars_eq_str(&t, "sandybrown") {
        return Some(rgb(244, 164, 96));
    }
    if chars_eq_str(&t, "seagreen") {
        return Some(rgb(46, 139, 87));
    }
    if chars_eq_str(&t, "seashell") {
        return Some(rgb(255, 245, 238));
    }
    if chars_eq_str(&t, "sienna") {
        return Some(rgb(160, 82, 45));
    }
    if chars_eq_str(&t, "silver") {
        return Some(rgb(192, 192, 192));
    }
    if chars_eq_str(&t, "skyblue") {
        return Some(rgb(135, 206, 235));
    }
    if chars_eq_str(&t, "slateblue") {
        return Some(rgb(106, 90, 205));
    }
    if chars_eq_str(&t, "slategray") {
        return Some(rgb(112, 128, 144));
    }
    if chars_eq_str(&t, "slategrey") {
        return Some(rgb(112, 128, 144));
    }
    if chars_eq_str(&t, "snow") {
        return Some(rgb(255, 250, 250));
    }
    if chars_eq_str(&t, "springgreen") {
        return Some(rgb(0, 255, 127));
    }
    if chars_eq_str(&t, "steelblue") {
        return Some(rgb(70, 130, 180));
    }
    if chars_eq_str(&t, "tan") {
        return Some(rgb(210, 180, 140));
    }
    if chars_eq_str(&t, "teal") {
        return Some(rgb(0, 128, 128));
    }
    if chars_eq_str(&t, "thistle") {
        return Some(rgb(216, 191, 216));
    }
    if chars_eq_str(&t, "tomato") {
        return Some(rgb(255, 99, 71));
    }
    if chars_eq_str(&t, "turquoise") {
        return Some(rgb(64, 224, 208));
    }
    if chars_eq_str(&t, "violet") {
        return Some(rgb(238, 130, 238));
    }
    if chars_eq_str(&t, "wheat") {
        return Some(rgb(245, 222, 179));
    }
    if chars_eq_str(&t, "white") {
        return Some(rgb(255, 255, 255));
    }
    if chars_eq_str(&t, "whitesmoke") {
        return Some(rgb(245, 245, 245));
    }
    if chars_eq_str(&t, "yellow") {
        return Some(rgb(255, 255, 0));
    }
    if chars_eq_str(&t, "yellowgreen") {
        return Some(rgb(154, 205, 50));
    }
    fail_unrecognized(name)
}


/// Keyword parsing is case-insensitive: folding the case of the text does
/// not change the color it parses to.
pub proof fn lemma_keyword_case_insensitive(s: Seq<char>)
    ensures
        keyword_color(lower(s)) == keyword_color(s),
{
    crate::text::lemma_trim_lower(s);
    crate::text::lemma_lower_idempotent(trim(s));
}

} // verus!
