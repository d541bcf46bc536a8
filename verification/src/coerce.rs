//! The pure half of the coercion engine: legacy string-to-number parsing
//! (whitespace trimmed, hex prefix recognized, NaN on malformed input),
//! IEEE-style 32-bit wraparound conversion, and canonical decimal
//! formatting.  On this core's exact-integer numeric domain every rule is
//! integer-exact; a numeric literal too large for the domain (beyond
//! `PARSE_MAX`) parses as the NaN sentinel.  The reentrant half of the
//! engine (`to_number`, `to_i32`, `to_string` with their object-to-primitive
//! hooks) lives with the dispatch protocol.

use vstd::prelude::*;

use crate::value::{GValue, NumberValue};

verus! {

/// The largest magnitude a numeric literal may denote in this model.
pub const PARSE_MAX: i64 = 999_999_999_999_999_999;

/// Legacy whitespace for numeric parsing.
pub open spec fn is_space(c: char) -> bool {
    c == ' ' || c == '\t' || c == '\n' || c == '\r'
}

pub open spec fn is_dec(c: char) -> bool {
    '0' <= c && c <= '9'
}

pub open spec fn is_hex(c: char) -> bool {
    is_dec(c) || ('a' <= c && c <= 'f') || ('A' <= c && c <= 'F')
}

/// Numeric value of a decimal digit.
pub open spec fn dec_digit(c: char) -> int {
    c as int - '0' as int
}

/// Numeric value of a hex digit.
pub open spec fn hex_digit(c: char) -> int {
    if is_dec(c) {
        dec_digit(c)
    } else if 'a' <= c && c <= 'f' {
        c as int - 'a' as int + 10
    } else {
        c as int - 'A' as int + 10
    }
}

/// First index at or after `i` holding a non-space character, or the length.
pub open spec fn skip_ws_from(s: Seq<char>, i: int) -> int
    decreases s.len() - i,
{
    if i < 0 || i >= s.len() {
        s.len() as int
    } else if is_space(s[i]) {
        skip_ws_from(s, i + 1)
    } else {
        i
    }
}

/// Last bound at or before `j` after dropping trailing spaces.
pub open spec fn rskip_ws(s: Seq<char>, j: int) -> int
    decreases j,
{
    if j <= 0 || j > s.len() {
        0
    } else if is_space(s[j - 1]) {
        rskip_ws(s, j - 1)
    } else {
        j
    }
}

pub open spec fn all_dec_in(s: Seq<char>, i: int, j: int) -> bool {
    forall|k: int| i <= k < j ==> is_dec(#[trigger] s[k])
}

pub open spec fn all_hex_in(s: Seq<char>, i: int, j: int) -> bool {
    forall|k: int| i <= k < j ==> is_hex(#[trigger] s[k])
}

/// Value of the decimal digit run `s[i..j]`.
pub open spec fn dec_val_in(s: Seq<char>, i: int, j: int) -> int
    decreases j - i,
{
    if j <= i {
        0
    } else {
        dec_val_in(s, i, j - 1) * 10 + dec_digit(s[j - 1])
    }
}

/// Value of the hex digit run `s[i..j]`.
pub open spec fn hex_val_in(s: Seq<char>, i: int, j: int) -> int
    decreases j - i,
{
    if j <= i {
        0
    } else {
        hex_val_in(s, i, j - 1) * 16 + hex_digit(s[j - 1])
    }
}

/// The legacy string-to-number rule on this model's domain: trim whitespace
/// at both ends; an `0x`/`0X` prefix introduces a hex literal; otherwise an
/// optionally signed decimal run; anything else (and any value beyond
/// `PARSE_MAX`) is NaN.
pub open spec fn spec_parse_number(s: Seq<char>) -> NumberValue {
    let lo = skip_ws_from(s, 0);
    let hi = rskip_ws(s, s.len() as int);
    if hi <= lo {
        NumberValue::NaN
    } else if s[lo] == '0' && lo + 1 < hi && (s[lo + 1] == 'x' || s[lo + 1] == 'X') {
        if lo + 2 < hi && all_hex_in(s, lo + 2, hi) && hex_val_in(s, lo + 2, hi) <= PARSE_MAX as int {
            NumberValue::Finite(hex_val_in(s, lo + 2, hi) as i64)
        } else {
            NumberValue::NaN
        }
    } else {
        let st = if s[lo] == '-' || s[lo] == '+' {
            lo + 1
        } else {
            lo
        };
        if st < hi && all_dec_in(s, st, hi) && dec_val_in(s, st, hi) <= PARSE_MAX as int {
            if s[lo] == '-' {
                NumberValue::Finite((0 - dec_val_in(s, st, hi)) as i64)
            } else {
                NumberValue::Finite(dec_val_in(s, st, hi) as i64)
            }
        } else {
            NumberValue::NaN
        }
    }
}

/// What a primitive (non-object) value coerces to as a number: numeric
/// identity, legacy string parsing, 1/0 for booleans, 0 for `Null`, NaN for
/// `Undefined`; an object that could not be converted through its hook is
/// also NaN.
pub open spec fn spec_to_number_prim(v: GValue) -> NumberValue {
    match v {
        GValue::Undefined => NumberValue::NaN,
        GValue::Null => NumberValue::Finite(0),
        GValue::Bool(b) => NumberValue::Finite(if b { 1int } else { 0int } as i64),
        GValue::Number(n) => n,
        GValue::Str(s) => spec_parse_number(s),
        GValue::ObjectRef(_) => NumberValue::NaN,
    }
}

/// Two's-complement wraparound of an unbounded integer into the 32-bit
/// range, the legacy bytecode integer-conversion rule.
pub open spec fn wrap_i32(n: int) -> int {
    let m = n % 0x1_0000_0000;
    if m >= 0x8000_0000 {
        m - 0x1_0000_0000
    } else {
        m
    }
}

/// Wraparound is the identity on values already in the 32-bit range.
pub proof fn lemma_wrap_i32_identity(x: int)
    requires
        -0x8000_0000 <= x < 0x8000_0000,
    ensures
        wrap_i32(x) == x,
{
    if x >= 0 {
        assert(x % 0x1_0000_0000 == x);
    } else {
        assert(x % 0x1_0000_0000 == x + 0x1_0000_0000) by (nonlinear_arith)
            requires
                -0x8000_0000 <= x < 0,
        ;
    }
}

/// What a number converts to as a 32-bit integer: NaN maps to 0, finite
/// values wrap modulo 2^32.
pub open spec fn spec_num_to_i32(n: NumberValue) -> int {
    match n {
        NumberValue::NaN => 0,
        NumberValue::Finite(i) => wrap_i32(i as int),
    }
}

/// Clamp into an inclusive range, the per-field rule of native setters.
pub open spec fn spec_clamp(n: int, lo: int, hi: int) -> int {
    if n < lo {
        lo
    } else if n > hi {
        hi
    } else {
        n
    }
}

/// The canonical decimal digits of a non-negative integer, no leading
/// zeroes.
pub open spec fn dec_digits(n: int) -> Seq<char>
    decreases n,
{
    if n < 0 {
        Seq::empty()
    } else if n < 10 {
        seq![digit_char(n)]
    } else {
        dec_digits(n / 10).push(digit_char(n % 10))
    }
}

/// The character of a single decimal digit.
pub open spec fn digit_char(d: int) -> char {
    ('0' as u32 + d as u32) as char
}

/// Canonical decimal text of an integer: optional minus sign, then digits.
pub open spec fn spec_i64_decimal(n: int) -> Seq<char> {
    if n < 0 {
        seq!['-'] + dec_digits(-n)
    } else {
        dec_digits(n)
    }
}

/// Canonical text of a number: its decimal digits, or the NaN literal.
pub open spec fn spec_num_to_text(n: NumberValue) -> Seq<char> {
    match n {
        NumberValue::NaN => "NaN"@,
        NumberValue::Finite(i) => spec_i64_decimal(i as int),
    }
}

/// What a primitive (non-object) value coerces to as text; an object that
/// could not be converted through its hook reads `[type Object]`.
pub open spec fn spec_to_string_prim(v: GValue) -> Seq<char> {
    match v {
        GValue::Undefined => "undefined"@,
        GValue::Null => "null"@,
        GValue::Bool(b) => if b {
            "true"@
        } else {
            "false"@
        },
        GValue::Number(n) => spec_num_to_text(n),
        GValue::Str(s) => s,
        GValue::ObjectRef(_) => "[type Object]"@,
    }
}

/// Relies on std's `Display` implementation for `i64` via `format!`: the
/// canonical decimal rendering, an optional leading minus sign followed by
/// the digits without leading zeroes.
#[verifier::external_body]
fn format_i64(n: i64) -> (r: String)
    ensures
        r@ == spec_i64_decimal(n as int),
{
    format!("{}", n)
}

/// Renders a number as its canonical decimal text.
pub fn number_to_text(n: &NumberValue) -> (r: String)
    ensures
        r@ == spec_num_to_text(*n),
{
    match n {
        NumberValue::NaN => {
            let r = String::from_str("NaN");
            r
        },
        NumberValue::Finite(i) => format_i64(*i),
    }
}

/// Converts a finite number to the 32-bit range by two's-complement
/// wraparound.
pub fn wrap_to_i32(n: i64) -> (r: i32)
    ensures
        r as int == wrap_i32(n as int),
{
    if n >= 0 {
        let m: i64 = n % 4294967296;
        if m >= 2147483648 {
            (m - 4294967296) as i32
        } else {
            m as i32
        }
    } else {
        let p: i64 = -(n + 1);
        let q: i64 = p % 4294967296;
        let m: i64 = 4294967295 - q;
        proof {
            assert(m as int == (n as int) % 0x1_0000_0000) by (nonlinear_arith)
                requires
                    n < 0,
                    p == -(n + 1),
                    q == p as int % 0x1_0000_0000,
                    m == 4294967295 - q,
            ;
        }
        if m >= 2147483648 {
            (m - 4294967296) as i32
        } else {
            m as i32
        }
    }
}

/// Clamps a 32-bit value into an inclusive range.
pub fn clamp_i32(n: i32, lo: i32, hi: i32) -> (r: i32)
    requires
        lo <= hi,
    ensures
        r as int == spec_clamp(n as int, lo as int, hi as int),
{
    if n < lo {
        lo
    } else if n > hi {
        hi
    } else {
        n
    }
}

fn ch_is_space(c: char) -> (r: bool)
    ensures
        r == is_space(c),
{
    c == ' ' || c == '\t' || c == '\n' || c == '\r'
}

fn ch_is_dec(c: char) -> (r: bool)
    ensures
        r == is_dec(c),
{
    '0' <= c && c <= '9'
}

fn ch_is_hex(c: char) -> (r: bool)
    ensures
        r == is_hex(c),
{
    ('0' <= c && c <= '9') || ('a' <= c && c <= 'f') || ('A' <= c && c <= 'F')
}

fn ch_dec_val(c: char) -> (r: u32)
    requires
        is_dec(c),
    ensures
        r as int == dec_digit(c),
{
    c as u32 - 48
}

fn ch_hex_val(c: char) -> (r: u32)
    requires
        is_hex(c),
    ensures
        r as int == hex_digit(c),
{
    let u = c as u32;
    if u >= 97 {
        u - 97 + 10
    } else if u >= 65 {
        u - 65 + 10
    } else {
        u - 48
    }
}

proof fn lemma_skip_ws_from(s: Seq<char>, i: int, k: int)
    requires
        0 <= i <= k <= s.len(),
        forall|j: int| i <= j < k ==> is_space(#[trigger] s[j]),
        k == s.len() || !is_space(s[k]),
    ensures
        skip_ws_from(s, i) == k,
    decreases k - i,
{
    if i < k {
        lemma_skip_ws_from(s, i + 1, k);
    }
}

proof fn lemma_rskip_ws(s: Seq<char>, j: int, k: int)
    requires
        0 <= k <= j <= s.len(),
        forall|t: int| k <= t < j ==> is_space(#[trigger] s[t]),
        k == 0 || !is_space(s[k - 1]),
    ensures
        rskip_ws(s, j) == k,
    decreases j - k,
{
    if k < j {
        lemma_rskip_ws(s, j - 1, k);
    }
}

proof fn lemma_dec_nonneg(s: Seq<char>, st: int, j: int)
    requires
        all_dec_in(s, st, j),
    ensures
        dec_val_in(s, st, j) >= 0,
    decreases j - st,
{
    if j > st {
        lemma_dec_nonneg(s, st, j - 1);
    }
}

proof fn lemma_dec_monotone(s: Seq<char>, st: int, j: int, hi: int)
    requires
        st <= j <= hi,
        all_dec_in(s, st, hi),
    ensures
        dec_val_in(s, st, hi) >= dec_val_in(s, st, j),
    decreases hi - j,
{
    if j < hi {
        lemma_dec_monotone(s, st, j, hi - 1);
        lemma_dec_nonneg(s, st, hi - 1);
    }
}

proof fn lemma_hex_nonneg(s: Seq<char>, st: int, j: int)
    requires
        all_hex_in(s, st, j),
    ensures
        hex_val_in(s, st, j) >= 0,
    decreases j - st,
{
    if j > st {
        lemma_hex_nonneg(s, st, j - 1);
    }
}

proof fn lemma_hex_monotone(s: Seq<char>, st: int, j: int, hi: int)
    requires
        st <= j <= hi,
        all_hex_in(s, st, hi),
    ensures
        hex_val_in(s, st, hi) >= hex_val_in(s, st, j),
    decreases hi - j,
{
    if j < hi {
        lemma_hex_monotone(s, st, j, hi - 1);
        lemma_hex_nonneg(s, st, hi - 1);
    }
}

/// Parses text by the legacy string-to-number rule.
#[verifier::loop_isolation(false)]
pub fn parse_number(s: &String) -> (r: NumberValue)
    ensures
        r == spec_parse_number(s@),
{
    let st = s.as_str();
    let n = st.unicode_len();
    let mut lo: usize = 0;
    while lo < n && ch_is_space(st.get_char(lo))
        invariant
            lo <= n,
            n == st@.len(),
            st@ == s@,
            forall|k: int| 0 <= k < lo ==> is_space(#[trigger] s@[k]),
        decreases n - lo,
    {
        lo = lo + 1;
    }
    let mut hi: usize = n;
    while hi > lo && ch_is_space(st.get_char(hi - 1))
        invariant
            lo <= hi <= n,
            n == st@.len(),
            st@ == s@,
            forall|k: int| hi <= k < n ==> is_space(#[trigger] s@[k]),
            forall|k: int| 0 <= k < lo ==> is_space(#[trigger] s@[k]),
        decreases hi,
    {
        hi = hi - 1;
    }
    proof {
        lemma_skip_ws_from(s@, 0, lo as int);
    }
    if hi <= lo {
        proof {
            // the whole string is whitespace, so the trimmed window is empty
            if rskip_ws(s@, s@.len() as int) > skip_ws_from(s@, 0) {
                lemma_rskip_ws(s@, s@.len() as int, 0);
            }
        }
        return NumberValue::NaN;
    }
    proof {
        lemma_rskip_ws(s@, s@.len() as int, hi as int);
    }
    let c0 = st.get_char(lo);
    if c0 == '0' && lo + 1 < hi {
        let c1 = st.get_char(lo + 1);
        if c1 == 'x' || c1 == 'X' {
            // hex literal
            if lo + 2 >= hi {
                return NumberValue::NaN;
            }
            let start = lo + 2;
            let mut acc: i64 = 0;
            let mut i: usize = start;
            while i < hi
                invariant
                    start <= i <= hi <= n,
                    n == st@.len(),
                    st@ == s@,
                    all_hex_in(s@, start as int, i as int),
                    acc == hex_val_in(s@, start as int, i as int),
                    0 <= acc <= PARSE_MAX,
                decreases hi - i,
            {
                let c = st.get_char(i);
                if !ch_is_hex(c) {
                    assert(!all_hex_in(s@, start as int, hi as int));
                    return NumberValue::NaN;
                }
                let d = ch_hex_val(c);
                if acc >= 62_500_000_000_000_000 {
                    proof {
                        assert(hex_val_in(s@, start as int, i as int + 1) == acc * 16 + hex_digit(
                            s@[i as int],
                        ));
                        assert(hex_val_in(s@, start as int, i as int + 1) > PARSE_MAX as int);
                        if all_hex_in(s@, start as int, hi as int) {
                            lemma_hex_monotone(s@, start as int, i as int + 1, hi as int);
                        }
                    }
                    return NumberValue::NaN;
                }
                acc = acc * 16 + (d as i64);
                i = i + 1;
            }
            return NumberValue::Finite(acc);
        }
    }
    // optionally signed decimal literal
    let neg = c0 == '-';
    let start = if c0 == '-' || c0 == '+' {
        lo + 1
    } else {
        lo
    };
    if start >= hi {
        return NumberValue::NaN;
    }
    let mut acc: i64 = 0;
    let mut i: usize = start;
    while i < hi
        invariant
            start <= i <= hi <= n,
            n == st@.len(),
            st@ == s@,
            all_dec_in(s@, start as int, i as int),
            acc == dec_val_in(s@, start as int, i as int),
            0 <= acc <= PARSE_MAX,
        decreases hi - i,
    {
        let c = st.get_char(i);
        if !ch_is_dec(c) {
            assert(!all_dec_in(s@, start as int, hi as int));
            return NumberValue::NaN;
        }
        let d = ch_dec_val(c);
        if acc >= 100_000_000_000_000_000 {
            proof {
                assert(dec_val_in(s@, start as int, i as int + 1) == acc * 10 + dec_digit(
                    s@[i as int],
                ));
                assert(dec_val_in(s@, start as int, i as int + 1) > PARSE_MAX as int);
                if all_dec_in(s@, start as int, hi as int) {
                    lemma_dec_monotone(s@, start as int, i as int + 1, hi as int);
                }
            }
            return NumberValue::NaN;
        }
        acc = acc * 10 + (d as i64);
        i = i + 1;
    }
    if neg {
        NumberValue::Finite(-acc)
    } else {
        NumberValue::Finite(acc)
    }
}

} // verus!
