//! `shape-margin`: found in a node's inline style text and parsed from its
//! first CSS token.
use vstd::prelude::*;
use vstd::string::*;
use cssparser::{Parser, ParserInput, Token};
use crate::geometry::{axis_ok, Rect};
use crate::ieee::{is_finite, is_nan, is_negative, min_int, scaled_magnitude, scaled_magnitude_capped};
use crate::shape::MARGIN_LIMIT;

verus! {

/// The first token of a CSS value, as far as a shape margin reads it.
/// Numbers are the bits of their IEEE single-precision encoding; a
/// percentage holds its value divided by 100 (0.5 for `50%`).
#[derive(Clone, Debug)]
pub enum CssToken {
    Number { value_bits: u32 },
    Percentage { unit_bits: u32 },
    Dimension { value_bits: u32, unit: String },
    Other,
    End,
}

/// A `CssToken` with its unit as a sequence of characters.
pub enum TokenView {
    Number { value_bits: u32 },
    Percentage { unit_bits: u32 },
    Dimension { value_bits: u32, unit: Seq<char> },
    Other,
    End,
}

impl View for CssToken {
    type V = TokenView;

    open spec fn view(&self) -> TokenView {
        match self {
            CssToken::Number { value_bits } => TokenView::Number { value_bits: *value_bits },
            CssToken::Percentage { unit_bits } => TokenView::Percentage { unit_bits: *unit_bits },
            CssToken::Dimension { value_bits, unit } => TokenView::Dimension { value_bits: *value_bits, unit: unit@ },
            CssToken::Other => TokenView::Other,
            CssToken::End => TokenView::End,
        }
    }
}

/// The first token that the CSS tokenizer reads from `s`.
pub uninterp spec fn first_token_of(s: Seq<char>) -> TokenView;

/// Relies on cssparser's `Parser::next`: the first token of the text that is
/// neither whitespace nor a comment, or an error at the end of the input.
#[verifier::external_body]
fn first_token(raw: &str) -> (r: CssToken)
    ensures
        r@ == first_token_of(raw@),
        raw@.len() == 0 ==> r@ == TokenView::End,
{
    let mut input = ParserInput::new(raw);
    let mut parser = Parser::new(&mut input);
    match parser.next() {
        Ok(Token::Number { value, .. }) => CssToken::Number { value_bits: value.to_bits() },
        Ok(Token::Percentage { unit_value, .. }) => CssToken::Percentage { unit_bits: unit_value.to_bits() },
        Ok(Token::Dimension { value, unit, .. }) => CssToken::Dimension { value_bits: value.to_bits(), unit: unit.to_string() },
        Ok(_) => CssToken::Other,
        Err(_) => CssToken::End,
    }
}

/// The code of `c` with ASCII capitals lowered.
pub open spec fn ascii_lower(c: char) -> u32 {
    if 65 <= (c as u32) <= 90 {
        (c as u32 + 32) as u32
    } else {
        c as u32
    }
}

/// Whether `a` and `b` are equal but for the case of ASCII letters.
pub open spec fn ascii_ieq(a: Seq<char>, b: Seq<char>) -> bool {
    a.len() == b.len() && forall|i: int| 0 <= i < a.len() ==> ascii_lower(#[trigger] a[i]) == ascii_lower(b[i])
}

fn lower_code(c: char) -> (r: u32)
    ensures
        r == ascii_lower(c),
{
    let v = c as u32;
    if 65 <= v && v <= 90 {
        v + 32
    } else {
        v
    }
}

/// Whether `s[from..to]` equals `word` but for the case of ASCII letters.
pub(crate) fn ascii_ieq_range(s: &str, from: usize, to: usize, word: &str) -> (r: bool)
    requires
        from <= to <= s@.len(),
    ensures
        r == ascii_ieq(s@.subrange(from as int, to as int), word@),
{
    let n = word.unicode_len();
    if to - from != n {
        return false;
    }
    let mut k: usize = 0;
    while k < n
        invariant
            from <= to <= s@.len(),
            to - from == n,
            n == word@.len(),
            k <= n,
            forall|i: int| 0 <= i < k ==> ascii_lower(#[trigger] s@.subrange(from as int, to as int)[i]) == ascii_lower(word@[i]),
        decreases n - k,
    {
        if lower_code(s.get_char(from + k)) != lower_code(word.get_char(k)) {
            assert(ascii_lower(s@.subrange(from as int, to as int)[k as int]) != ascii_lower(word@[k as int]));
            return false;
        }
        k = k + 1;
    }
    true
}

/// The margin that `k` times the number `b` gives: not-a-number gives none;
/// a negative number, or a reference length that is not positive, gives zero;
/// otherwise the product rounded to the nearest pixel, capped at the largest
/// margin (which infinity gives).
pub open spec fn margin_from_bits(b: u32, k: int) -> Option<int> {
    if is_nan(b) {
        None
    } else if is_negative(b) || k <= 0 {
        Some(0)
    } else if !is_finite(b) {
        Some(MARGIN_LIMIT as int)
    } else {
        Some(min_int(MARGIN_LIMIT as int, scaled_magnitude(b, k as nat) as int))
    }
}

/// The shape margin that a token gives against a reference width: a
/// percentage of the width, a `px` length, or a bare number taken as pixels,
/// rounded to the nearest pixel and raised to zero if negative. Other tokens
/// give none.
pub open spec fn margin_of_token(t: TokenView, width: int) -> Option<int> {
    match t {
        TokenView::Percentage { unit_bits } => margin_from_bits(unit_bits, width),
        TokenView::Dimension { value_bits, unit } => if ascii_ieq(unit, seq!['p', 'x']) {
            margin_from_bits(value_bits, 1)
        } else {
            None
        },
        TokenView::Number { value_bits } => margin_from_bits(value_bits, 1),
        _ => None,
    }
}

fn margin_from_number(b: u32, k: i64) -> (r: Option<i64>)
    requires
        k <= 0x1_0000_0000,
    ensures
        r matches Some(v) ==> margin_from_bits(b, k as int) == Some(v as int),
        r is None <==> margin_from_bits(b, k as int) is None,
{
    let e_field: u32 = (b / 0x80_0000) % 0x100;
    let frac: u32 = b % 0x80_0000;
    if e_field == 0xFF && frac != 0 {
        return None;
    }
    if b >= 0x8000_0000 || k <= 0 {
        return Some(0);
    }
    if e_field == 0xFF {
        return Some(MARGIN_LIMIT);
    }
    Some(scaled_magnitude_capped(b, k, MARGIN_LIMIT))
}

/// The shape margin that `token` gives against `width`.
pub fn shape_margin_from_token(token: &CssToken, width: i64) -> (r: Option<i64>)
    requires
        axis_ok(width as int),
    ensures
        r matches Some(v) ==> margin_of_token(token@, width as int) == Some(v as int),
        r is None <==> margin_of_token(token@, width as int) is None,
{
    proof {
        reveal_strlit("px");
    }
    match token {
        CssToken::Percentage { unit_bits } => margin_from_number(*unit_bits, width),
        CssToken::Dimension { value_bits, unit } => {
            proof {
                assert(unit@.subrange(0, unit@.len() as int) == unit@);
            }
            if ascii_ieq_range(unit.as_str(), 0, unit.as_str().unicode_len(), "px") {
                margin_from_number(*value_bits, 1)
            } else {
                None
            }
        },
        CssToken::Number { value_bits } => margin_from_number(*value_bits, 1),
        _ => None,
    }
}

/// Parses a `shape-margin` value: a `px` length, a bare number (as pixels),
/// or a percentage of the reference rectangle's width; negative values give
/// zero; anything else gives `None`.
pub fn parse_shape_margin_value(raw_value: &str, reference_rect: Rect) -> (r: Option<i64>)
    ensures
        r matches Some(v) ==> margin_of_token(first_token_of(raw_value@), reference_rect.spec_width()) == Some(v as int),
        r is None <==> margin_of_token(first_token_of(raw_value@), reference_rect.spec_width()) is None,
        raw_value@.len() == 0 ==> r is None,
{
    let token = first_token(raw_value);
    shape_margin_from_token(&token, reference_rect.width())
}

/// Whether `c` is white space as Unicode defines it, the set that `str::trim` strips.
pub open spec fn is_white_space(c: char) -> bool {
    let v = c as u32;
    (9 <= v <= 13) || v == 32 || v == 0x85 || v == 0xA0 || v == 0x1680 || (0x2000 <= v <= 0x200A)
        || v == 0x2028 || v == 0x2029 || v == 0x202F || v == 0x205F || v == 0x3000
}

fn white_space(c: char) -> (r: bool)
    ensures
        r == is_white_space(c),
{
    let v = c as u32;
    (9 <= v && v <= 13) || v == 32 || v == 0x85 || v == 0xA0 || v == 0x1680 || (0x2000 <= v && v <= 0x200A)
        || v == 0x2028 || v == 0x2029 || v == 0x202F || v == 0x205F || v == 0x3000
}

/// The first index in `[lo, hi)` that holds `c`, or `hi`.
pub open spec fn find_char(s: Seq<char>, c: char, lo: int, hi: int) -> int
    decreases hi - lo,
{
    if lo >= hi {
        hi
    } else if s[lo] == c {
        lo
    } else {
        find_char(s, c, lo + 1, hi)
    }
}

/// The first index in `[lo, hi)` that is not white space, or `hi`.
pub open spec fn skip_ws_forward(s: Seq<char>, lo: int, hi: int) -> int
    decreases hi - lo,
{
    if lo < hi && is_white_space(s[lo]) {
        skip_ws_forward(s, lo + 1, hi)
    } else {
        lo
    }
}

/// The end of `s[lo..hi]` once trailing white space is dropped.
pub open spec fn skip_ws_backward(s: Seq<char>, lo: int, hi: int) -> int
    decreases hi - lo,
{
    if lo < hi && is_white_space(s[hi - 1]) {
        skip_ws_backward(s, lo, hi - 1)
    } else {
        hi
    }
}

/// `s[lo..hi]` without leading and trailing white space, as a range.
pub open spec fn trimmed(s: Seq<char>, lo: int, hi: int) -> (int, int) {
    let a = skip_ws_forward(s, lo, hi);
    (a, skip_ws_backward(s, a, hi))
}

/// The value of the declaration `s[lo..hi]` (`name: value`) if its name is
/// `shape-margin` in any ASCII case, as a trimmed range.
pub open spec fn declared_margin(s: Seq<char>, lo: int, hi: int) -> Option<(int, int)> {
    let colon = find_char(s, ':', lo, hi);
    if colon == hi {
        None
    } else {
        let (a, b) = trimmed(s, lo, colon);
        if ascii_ieq(s.subrange(a, b), "shape-margin"@) {
            Some(trimmed(s, colon + 1, hi))
        } else {
            None
        }
    }
}

/// The value range of the first `shape-margin` declaration among the
/// `;`-separated declarations of `s` from `lo` on.
pub open spec fn margin_declaration(s: Seq<char>, lo: int) -> Option<(int, int)>
    decreases s.len() - lo,
{
    if lo > s.len() {
        None
    } else {
        let hi = find_char(s, ';', lo, s.len() as int);
        match declared_margin(s, lo, hi) {
            Some(v) => Some(v),
            None => if lo <= hi < s.len() {
                margin_declaration(s, hi + 1)
            } else {
                None
            },
        }
    }
}

fn find_char_in(s: &str, c: char, lo: usize, hi: usize) -> (r: usize)
    requires
        lo <= hi <= s@.len(),
    ensures
        r == find_char(s@, c, lo as int, hi as int),
        lo <= r <= hi,
{
    let mut i = lo;
    while i < hi && s.get_char(i) != c
        invariant
            lo <= i <= hi <= s@.len(),
            find_char(s@, c, lo as int, hi as int) == find_char(s@, c, i as int, hi as int),
        decreases hi - i,
    {
        i = i + 1;
    }
    i
}

fn trim_range(s: &str, lo: usize, hi: usize) -> (r: (usize, usize))
    requires
        lo <= hi <= s@.len(),
    ensures
        (r.0 as int, r.1 as int) == trimmed(s@, lo as int, hi as int),
        lo <= r.0 <= r.1 <= hi,
{
    let mut a = lo;
    while a < hi && white_space(s.get_char(a))
        invariant
            lo <= a <= hi <= s@.len(),
            skip_ws_forward(s@, lo as int, hi as int) == skip_ws_forward(s@, a as int, hi as int),
        decreases hi - a,
    {
        a = a + 1;
    }
    let mut b = hi;
    while b > a && white_space(s.get_char(b - 1))
        invariant
            lo <= a <= b <= hi <= s@.len(),
            skip_ws_forward(s@, lo as int, hi as int) == a,
            skip_ws_backward(s@, a as int, hi as int) == skip_ws_backward(s@, a as int, b as int),
        decreases b - a,
    {
        b = b - 1;
    }
    (a, b)
}

/// Finds the value of the first `shape-margin` declaration in inline style
/// text: declarations are split at `;`, name and value at the first `:`, both
/// trimmed, and the name compared in any ASCII case.
pub fn find_shape_margin_declaration(style_attr: &str) -> (r: Option<&str>)
    ensures
        match margin_declaration(style_attr@, 0) {
            Some((a, b)) => r matches Some(v) && v@ == style_attr@.subrange(a, b),
            None => r is None,
        },
{
    proof {
        reveal_strlit("shape-margin");
    }
    let len = style_attr.unicode_len();
    let mut lo: usize = 0;
    while lo <= len
        invariant
            len == style_attr@.len(),
            lo <= len + 1,
            margin_declaration(style_attr@, 0) == margin_declaration(style_attr@, lo as int),
        decreases len + 1 - lo,
    {
        let hi = find_char_in(style_attr, ';', lo, len);
        let colon = find_char_in(style_attr, ':', lo, hi);
        if colon < hi {
            let (a, b) = trim_range(style_attr, lo, colon);
            if ascii_ieq_range(style_attr, a, b, "shape-margin") {
                let (va, vb) = trim_range(style_attr, colon + 1, hi);
                return Some(style_attr.substring_char(va, vb));
            }
        }
        if hi < len {
            lo = hi + 1;
        } else {
            return None;
        }
    }
    None
}

/// The shape margin that inline style text gives against `rect`: the value
/// of its first `shape-margin` declaration, parsed; zero, the CSS default,
/// where there is no text, no such declaration, or a value that does not parse.
pub open spec fn shape_margin_of(style_attr: Option<Seq<char>>, rect: Rect) -> int {
    match style_attr {
        Some(s) => match margin_declaration(s, 0) {
            Some((a, b)) => match margin_of_token(first_token_of(s.subrange(a, b)), rect.spec_width()) {
                Some(v) => v,
                None => 0,
            },
            None => 0,
        },
        None => 0,
    }
}

/// The shape margin of a node, from its inline style text against the
/// reference rectangle.
pub fn resolve_shape_margin_for_node(style_attr: Option<&str>, reference_rect: Rect) -> (r: i64)
    ensures
        r == shape_margin_of(
            match style_attr {
                Some(s) => Some(s@),
                None => None,
            },
            reference_rect,
        ),
        0 <= r <= MARGIN_LIMIT,
{
    let attr = match style_attr {
        Some(s) => s,
        None => {
            return 0;
        },
    };
    let raw_value = match find_shape_margin_declaration(attr) {
        Some(v) => v,
        None => {
            return 0;
        },
    };
    match parse_shape_margin_value(raw_value, reference_rect) {
        Some(v) => v,
        None => 0,
    }
}

} // verus!
