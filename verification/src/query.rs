//! The query strings that the front end hands to its decoder.
//!
//! A query string is a run of pairs separated by `&`. A pair is a key, the
//! first `=` of the pair, and a value; brackets in the key nest the value.
//! The decoder is only given query strings of the form that `acceptable`
//! describes; every other one is malformed.

use vstd::prelude::*;
use vstd::utf8::encode_utf8;

verus! {

/// The greatest number of bytes that a key can have.
pub const KEY_MAX: usize = 128;

/// The greatest number of digits that can stand in a row in a key.
pub const DIGITS_MAX: usize = 9;

/// The byte `%`.
pub const PERCENT: u8 = 0x25;

/// The byte `&`.
pub const AMPERSAND: u8 = 0x26;

/// The byte `=`.
pub const EQUALS: u8 = 0x3d;

/// The byte `[`.
pub const OPEN: u8 = 0x5b;

/// The byte `]`.
pub const CLOSE: u8 = 0x5d;

/// The byte `_`.
pub const UNDERSCORE: u8 = 0x5f;

/// The byte `0`.
pub const ZERO: u8 = 0x30;

/// The byte `9`.
pub const NINE: u8 = 0x39;

/// The byte `A`.
pub const UPPER_A: u8 = 0x41;

/// The byte `F`.
pub const UPPER_F: u8 = 0x46;

/// The byte `Z`.
pub const UPPER_Z: u8 = 0x5a;

/// The byte `a`.
pub const LOWER_A: u8 = 0x61;

/// The byte `d`.
pub const LOWER_D: u8 = 0x64;

/// The byte `f`.
pub const LOWER_F: u8 = 0x66;

/// The byte `i`.
pub const LOWER_I: u8 = 0x69;

/// The byte `x`.
pub const LOWER_X: u8 = 0x78;

/// The byte `z`.
pub const LOWER_Z: u8 = 0x7a;

/// A decimal digit.
pub open spec fn is_digit(b: u8) -> bool {
    ZERO <= b <= NINE
}

/// A hexadecimal digit, in either case.
pub open spec fn is_hex_digit(b: u8) -> bool {
    is_digit(b) || UPPER_A <= b <= UPPER_F || LOWER_A <= b <= LOWER_F
}

/// The number that a hexadecimal digit stands for.
pub open spec fn hex_value(b: u8) -> int {
    if is_digit(b) {
        b - ZERO
    } else if UPPER_A <= b <= UPPER_F {
        b - UPPER_A + 10
    } else {
        b - LOWER_A + 10
    }
}

/// A letter, a digit or an underscore.
pub open spec fn is_word_byte(v: int) -> bool {
    ZERO <= v <= NINE || UPPER_A <= v <= UPPER_Z || LOWER_A <= v <= LOWER_Z || v == UNDERSCORE
}

/// A byte that shapes a query string: `%`, `&`, `=`, `[` or `]`.
pub open spec fn is_structural(v: int) -> bool {
    v == PERCENT || v == AMPERSAND || v == EQUALS || v == OPEN || v == CLOSE
}

/// The `%` at `i` starts an escape of two hexadecimal digits, and the byte
/// that the escape stands for is neither structural nor a word byte.
pub open spec fn inert_escape(b: Seq<u8>, i: int) -> bool {
    &&& i + 2 < b.len()
    &&& is_hex_digit(b[i + 1])
    &&& is_hex_digit(b[i + 2])
    &&& !is_word_byte(16 * hex_value(b[i + 1]) + hex_value(b[i + 2]))
    &&& !is_structural(16 * hex_value(b[i + 1]) + hex_value(b[i + 2]))
}

/// The bytes from `i` on begin with `__idx`.
pub open spec fn marker_at(b: Seq<u8>, i: int) -> bool {
    &&& i + 5 <= b.len()
    &&& b[i] == UNDERSCORE
    &&& b[i + 1] == UNDERSCORE
    &&& b[i + 2] == LOWER_I
    &&& b[i + 3] == LOWER_D
    &&& b[i + 4] == LOWER_X
}

/// Position `i` lies behind the first `=` of its pair.
pub open spec fn in_value(b: Seq<u8>, i: int) -> bool
    decreases i,
{
    if i <= 0 || i > b.len() {
        false
    } else if b[i - 1] == AMPERSAND {
        false
    } else if b[i - 1] == EQUALS {
        true
    } else {
        in_value(b, i - 1)
    }
}

/// The number of bytes between the start of its pair and position `i`.
pub open spec fn pair_len(b: Seq<u8>, i: int) -> nat
    decreases i,
{
    if i <= 0 || i > b.len() {
        0
    } else if b[i - 1] == AMPERSAND {
        0
    } else {
        pair_len(b, i - 1) + 1
    }
}

/// The number of digits that stand in a row just before position `i`.
pub open spec fn digit_run(b: Seq<u8>, i: int) -> nat
    decreases i,
{
    if i <= 0 || i > b.len() {
        0
    } else if is_digit(b[i - 1]) {
        digit_run(b, i - 1) + 1
    } else {
        0
    }
}

/// The pair that ends at `i` is empty or has a value.
pub open spec fn pair_complete(b: Seq<u8>, i: int) -> bool {
    pair_len(b, i) > 0 ==> in_value(b, i)
}

/// The byte at `i` is a byte of a key.
pub open spec fn in_key(b: Seq<u8>, i: int) -> bool {
    b[i] != AMPERSAND && b[i] != EQUALS && !in_value(b, i)
}

/// What is asked of the byte at `i`.
pub open spec fn byte_ok(b: Seq<u8>, i: int) -> bool {
    &&& b[i] == PERCENT ==> inert_escape(b, i)
    &&& !marker_at(b, i)
    &&& b[i] == AMPERSAND ==> pair_complete(b, i)
    &&& b[i] == EQUALS && in_value(b, i) ==> b[i - 1] != CLOSE
    &&& in_key(b, i) ==> pair_len(b, i) < KEY_MAX
    &&& in_key(b, i) && is_digit(b[i]) ==> digit_run(b, i) < DIGITS_MAX
}

/// The query strings that the decoder is given, as bytes:
/// - every `%` starts an escape of two hexadecimal digits that stands for
///   a byte which is neither structural nor a word byte;
/// - `__idx` occurs nowhere;
/// - every pair is empty or has a `=`;
/// - behind the first `=` of a pair no `=` follows a `]`;
/// - a key has at most `KEY_MAX` bytes and at most `DIGITS_MAX` digits in
///   a row.
pub open spec fn acceptable(b: Seq<u8>) -> bool {
    &&& forall|i: int| 0 <= i < b.len() ==> #[trigger] byte_ok(b, i)
    &&& pair_complete(b, b.len() as int)
}

/// `acceptable`, of a query string's characters.
pub open spec fn accepts(query: Seq<char>) -> bool {
    acceptable(encode_utf8(query))
}

/// A request without a query string has one that the decoder is given.
pub proof fn lemma_empty_is_accepted()
    ensures
        accepts(Seq::empty()),
{
    assert(encode_utf8(Seq::empty()) =~= Seq::<u8>::empty());
}

fn digit(b: u8) -> (r: bool)
    ensures
        r == is_digit(b),
{
    ZERO <= b && b <= NINE
}

fn hex_digit(b: u8) -> (r: Option<u8>)
    ensures
        r is Some <==> is_hex_digit(b),
        r matches Some(v) ==> v == hex_value(b) && v < 16,
{
    if digit(b) {
        Some(b - ZERO)
    } else if UPPER_A <= b && b <= UPPER_F {
        Some(b - UPPER_A + 10)
    } else if LOWER_A <= b && b <= LOWER_F {
        Some(b - LOWER_A + 10)
    } else {
        None
    }
}

fn escape_is_inert(b: &[u8], i: usize) -> (r: bool)
    requires
        i < b@.len(),
    ensures
        r == inert_escape(b@, i as int),
{
    if b.len() - i <= 2 {
        return false;
    }
    match (hex_digit(b[i + 1]), hex_digit(b[i + 2])) {
        (Some(high), Some(low)) => {
            let v: u8 = 16 * high + low;
            let word = (ZERO <= v && v <= NINE) || (UPPER_A <= v && v <= UPPER_Z) || (LOWER_A <= v && v
                <= LOWER_Z) || v == UNDERSCORE;
            let structural = v == PERCENT || v == AMPERSAND || v == EQUALS || v == OPEN || v == CLOSE;
            !word && !structural
        },
        _ => false,
    }
}

fn marker_starts(b: &[u8], i: usize) -> (r: bool)
    requires
        i < b@.len(),
    ensures
        r == marker_at(b@, i as int),
{
    if b.len() - i < 5 {
        return false;
    }
    b[i] == UNDERSCORE && b[i + 1] == UNDERSCORE && b[i + 2] == LOWER_I && b[i + 3] == LOWER_D && b[i + 4] == LOWER_X
}

/// Whether the decoder is given `query`.
pub fn is_acceptable(query: &str) -> (r: bool)
    ensures
        r == accepts(query@),
{
    let b = query.as_bytes();
    let n: usize = b.len();
    let mut i: usize = 0;
    let mut value: bool = false;
    let mut len: usize = 0;
    let mut run: usize = 0;
    while i < n
        invariant
            i <= n,
            n == b@.len(),
            b@ == encode_utf8(query@),
            value == in_value(b@, i as int),
            len == pair_len(b@, i as int),
            run == digit_run(b@, i as int),
            len <= i,
            run <= i,
            forall|k: int| 0 <= k < i ==> #[trigger] byte_ok(b@, k),
        decreases n - i,
    {
        let c = b[i];
        let key = c != AMPERSAND && c != EQUALS && !value;
        let good = (c != PERCENT || escape_is_inert(b, i)) && !marker_starts(b, i) && (c != AMPERSAND
            || len == 0 || value) && (c != EQUALS || !value || b[i - 1] != CLOSE) && (!key || len
            < KEY_MAX) && (!key || !digit(c) || run < DIGITS_MAX);
        if !good {
            assert(!byte_ok(b@, i as int));
            return false;
        }
        assert(byte_ok(b@, i as int));
        if c == AMPERSAND {
            value = false;
            len = 0;
        } else {
            if c == EQUALS {
                value = true;
            }
            len = len + 1;
        }
        if digit(c) {
            run = run + 1;
        } else {
            run = 0;
        }
        i = i + 1;
    }
    len == 0 || value
}

} // verus!
