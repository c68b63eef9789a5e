//! Serialization of a `RedisResponse` to its JSON text: `{"error":E,
//! "payload":P,"index":K}` with `E` and `P` either `null` or a quoted,
//! escaped string, and `K` the decimal index. The spec functions define
//! the encoding exactly; the executable functions are proved against them.

use vstd::prelude::*;

use crate::ident::spec_hex_digit;
use crate::request::RedisResponse;
use crate::strutil::push_char;

verus! {

/// The decimal digit character for a value below ten.
pub open spec fn spec_digit_char(d: int) -> char
    recommends
        0 <= d < 10,
{
    seq!['0', '1', '2', '3', '4', '5', '6', '7', '8', '9'][d]
}

/// Decimal text of a non-negative integer, no leading zeros.
pub open spec fn spec_nat_decimal(n: int) -> Seq<char>
    recommends
        n >= 0,
    decreases n,
{
    if n < 10 {
        seq![spec_digit_char(n)]
    } else {
        spec_nat_decimal(n / 10) + seq![spec_digit_char(n % 10)]
    }
}

/// Decimal text of a signed integer: a leading minus for negatives.
pub open spec fn spec_i32_decimal(v: int) -> Seq<char> {
    if v < 0 {
        seq!['-'] + spec_nat_decimal(-v)
    } else {
        spec_nat_decimal(v)
    }
}

fn digit_char(d: u64) -> (c: char)
    requires
        d < 10,
    ensures
        c == spec_digit_char(d as int),
{
    if d == 0 {
        '0'
    } else if d == 1 {
        '1'
    } else if d == 2 {
        '2'
    } else if d == 3 {
        '3'
    } else if d == 4 {
        '4'
    } else if d == 5 {
        '5'
    } else if d == 6 {
        '6'
    } else if d == 7 {
        '7'
    } else if d == 8 {
        '8'
    } else {
        '9'
    }
}

fn hex_digit_char(d: u8) -> (c: char)
    requires
        d < 16,
    ensures
        c == spec_hex_digit(d),
{
    if d == 0 {
        '0'
    } else if d == 1 {
        '1'
    } else if d == 2 {
        '2'
    } else if d == 3 {
        '3'
    } else if d == 4 {
        '4'
    } else if d == 5 {
        '5'
    } else if d == 6 {
        '6'
    } else if d == 7 {
        '7'
    } else if d == 8 {
        '8'
    } else if d == 9 {
        '9'
    } else if d == 10 {
        'a'
    } else if d == 11 {
        'b'
    } else if d == 12 {
        'c'
    } else if d == 13 {
        'd'
    } else if d == 14 {
        'e'
    } else {
        'f'
    }
}

/// Decimal text of a non-negative value.
pub fn nat_to_string(m: u64) -> (r: String)
    ensures
        r@ == spec_nat_decimal(m as int),
{
    let mut digits: Vec<char> = Vec::new();
    let d0 = m % 10;
    digits.push(digit_char(d0));
    let mut n = m / 10;
    proof {
        assert(digits@ =~= seq![spec_digit_char((m % 10) as int)]);
    }
    while n != 0
        invariant
            if n > 0 {
                spec_nat_decimal(m as int) == spec_nat_decimal(n as int) + digits@.reverse()
            } else {
                spec_nat_decimal(m as int) == digits@.reverse()
            },
        decreases n,
    {
        let ghost old_digits = digits@;
        let ghost old_n = n as int;
        let d = n % 10;
        digits.push(digit_char(d));
        n = n / 10;
        proof {
            assert(digits@.reverse() =~= seq![spec_digit_char(old_n % 10)] + old_digits.reverse());
            if old_n >= 10 {
                assert(spec_nat_decimal(old_n) == spec_nat_decimal(old_n / 10) + seq![
                    spec_digit_char(old_n % 10),
                ]);
                assert(spec_nat_decimal(m as int) =~= spec_nat_decimal(n as int)
                    + digits@.reverse());
            } else {
                assert(spec_nat_decimal(old_n) =~= seq![spec_digit_char(old_n % 10)]);
                assert(spec_nat_decimal(m as int) =~= digits@.reverse());
            }
        }
    }
    let mut out = String::new();
    let mut j = digits.len();
    while j > 0
        invariant
            j <= digits@.len(),
            out@ =~= digits@.reverse().take(digits@.len() - j),
        decreases j,
    {
        j = j - 1;
        push_char(&mut out, digits[j]);
        proof {
            let rev = digits@.reverse();
            let k = digits@.len() - j - 1;
            assert(rev[k as int] == digits@[j as int]);
            assert(rev.take(k + 1) =~= rev.take(k as int).push(rev[k as int]));
        }
    }
    proof {
        assert(digits@.reverse().take(digits@.len() as int) =~= digits@.reverse());
    }
    out
}

/// Decimal text of a signed 32-bit value.
pub fn i32_to_string(v: i32) -> (r: String)
    ensures
        r@ == spec_i32_decimal(v as int),
{
    if v < 0 {
        let mag: u64 = (-(v as i64)) as u64;
        let mut out = String::new();
        push_char(&mut out, '-');
        let digits_str = nat_to_string(mag);
        out.append(digits_str.as_str());
        proof {
            assert(out@ =~= seq!['-'] + spec_nat_decimal(mag as int));
        }
        out
    } else {
        nat_to_string(v as u64)
    }
}

/// How one character appears inside a JSON string literal: quote,
/// backslash and the named control characters get a short escape, other
/// control characters a `\u00XX` escape, everything else stands as is.
pub open spec fn spec_escape_char(c: char) -> Seq<char> {
    if c == '"' {
        seq!['\\', '"']
    } else if c == '\\' {
        seq!['\\', '\\']
    } else if c == '\n' {
        seq!['\\', 'n']
    } else if c == '\t' {
        seq!['\\', 't']
    } else if c == '\r' {
        seq!['\\', 'r']
    } else if c == '\u{8}' {
        seq!['\\', 'b']
    } else if c == '\u{c}' {
        seq!['\\', 'f']
    } else if (c as u32) < 32 {
        seq!['\\', 'u', '0', '0', spec_hex_digit((c as u32 / 16) as u8), spec_hex_digit(
            (c as u32 % 16) as u8,
        )]
    } else {
        seq![c]
    }
}

/// A whole string escaped for a JSON literal.
pub open spec fn spec_escape(s: Seq<char>) -> Seq<char>
    decreases s.len(),
{
    if s.len() == 0 {
        Seq::empty()
    } else {
        spec_escape(s.drop_last()) + spec_escape_char(s.last())
    }
}

/// Escape a string for use inside a JSON string literal.
pub fn escape_json(s: &str) -> (r: String)
    ensures
        r@ == spec_escape(s@),
{
    let n = s.unicode_len();
    let mut out = String::new();
    proof {
        assert(out@ =~= spec_escape(s@.take(0)));
    }
    let mut i: usize = 0;
    while i < n
        invariant
            i <= n,
            n == s@.len(),
            out@ == spec_escape(s@.take(i as int)),
        decreases n - i,
    {
        let ghost old_out = out@;
        let c = s.get_char(i);
        if c == '"' {
            push_char(&mut out, '\\');
            push_char(&mut out, '"');
        } else if c == '\\' {
            push_char(&mut out, '\\');
            push_char(&mut out, '\\');
        } else if c == '\n' {
            push_char(&mut out, '\\');
            push_char(&mut out, 'n');
        } else if c == '\t' {
            push_char(&mut out, '\\');
            push_char(&mut out, 't');
        } else if c == '\r' {
            push_char(&mut out, '\\');
            push_char(&mut out, 'r');
        } else if c == '\u{8}' {
            push_char(&mut out, '\\');
            push_char(&mut out, 'b');
        } else if c == '\u{c}' {
            push_char(&mut out, '\\');
            push_char(&mut out, 'f');
        } else {
            let u = c as u32;
            if u < 32 {
                push_char(&mut out, '\\');
                push_char(&mut out, 'u');
                push_char(&mut out, '0');
                push_char(&mut out, '0');
                push_char(&mut out, hex_digit_char((u / 16) as u8));
                push_char(&mut out, hex_digit_char((u % 16) as u8));
            } else {
                push_char(&mut out, c);
            }
        }
        proof {
            assert(out@ =~= old_out + spec_escape_char(c));
            assert(s@.take(i + 1).drop_last() =~= s@.take(i as int));
            assert(s@.take(i + 1).last() == c);
            assert(out@ =~= spec_escape(s@.take(i + 1)));
        }
        i = i + 1;
    }
    proof {
        assert(s@.take(n as int) =~= s@);
    }
    out
}

/// The exact JSON text of a response: field order `error`, `payload`,
/// `index`; absent strings are `null`.
pub open spec fn spec_encode_response(
    error: Option<Seq<char>>,
    payload: Option<Seq<char>>,
    index: int,
) -> Seq<char> {
    "{\"error\":"@ + (match error {
        Some(e) => seq!['"'] + spec_escape(e) + seq!['"'],
        None => "null"@,
    }) + ",\"payload\":"@ + (match payload {
        Some(p) => seq!['"'] + spec_escape(p) + seq!['"'],
        None => "null"@,
    }) + ",\"index\":"@ + spec_i32_decimal(index) + "}"@
}

/// The view of an optional string.
pub open spec fn opt_view(o: Option<String>) -> Option<Seq<char>> {
    match o {
        Some(s) => Some(s@),
        None => None,
    }
}

/// Serialize a response to the JSON text that the result hash stores.
pub fn encode_response(resp: &RedisResponse) -> (r: String)
    ensures
        r@ == spec_encode_response(opt_view(resp.error), opt_view(resp.payload), resp.index as int),
{
    let mut out = String::new();
    out.append("{\"error\":");
    match &resp.error {
        Some(e) => {
            push_char(&mut out, '"');
            let esc = escape_json(e.as_str());
            out.append(esc.as_str());
            push_char(&mut out, '"');
        },
        None => {
            out.append("null");
        },
    }
    out.append(",\"payload\":");
    match &resp.payload {
        Some(p) => {
            push_char(&mut out, '"');
            let esc = escape_json(p.as_str());
            out.append(esc.as_str());
            push_char(&mut out, '"');
        },
        None => {
            out.append("null");
        },
    }
    out.append(",\"index\":");
    let idx = i32_to_string(resp.index);
    out.append(idx.as_str());
    out.append("}");
    proof {
        assert(out@ =~= spec_encode_response(
            opt_view(resp.error),
            opt_view(resp.payload),
            resp.index as int,
        ));
    }
    out
}

} // verus!
