//! Decision logic around the foreign HTML parser. The foreign entry
//! points take a NUL-terminated HTML buffer and hand back a status code
//! and, for the string-returning entries, a buffer that the caller must
//! free. The unsafe boundary itself lives outside the library; what is
//! decided from the returned plain values — and what each outcome means —
//! is fixed here.

use vstd::prelude::*;

use crate::encode::spec_i32_decimal;
use crate::encode::i32_to_string;
use crate::strutil::push_char;

verus! {

/// Why a parser call failed: the HTML held a NUL byte and could not be
/// handed over; the call returned a non-zero status; or the call
/// promised a buffer and delivered none.
#[derive(Debug)]
pub enum ParserErr {
    NulErr,
    FFICallErr(i32),
    NonNulIsNoneErr,
}

/// The human-readable text of a parser failure.
pub open spec fn spec_parser_err_message(e: ParserErr) -> Seq<char> {
    match e {
        ParserErr::NulErr => "NulErr: nul byte in input"@,
        ParserErr::FFICallErr(c) => "FFICallErr("@ + spec_i32_decimal(c as int) + ")"@,
        ParserErr::NonNulIsNoneErr => "NonNulIsNoneErr"@,
    }
}

impl ParserErr {
    /// Render the failure for a response's `error` field.
    pub fn message(&self) -> (r: String)
        ensures
            r@ == spec_parser_err_message(*self),
    {
        match self {
            ParserErr::NulErr => {
                let mut out = String::new();
                out.append("NulErr: nul byte in input");
                proof {
                    assert(out@ =~= "NulErr: nul byte in input"@);
                }
                out
            },
            ParserErr::FFICallErr(c) => {
                let mut out = String::new();
                out.append("FFICallErr(");
                let num = i32_to_string(*c);
                out.append(num.as_str());
                push_char(&mut out, ')');
                proof {
                    assert(")"@ =~= seq![')']) by {
                        reveal_strlit(")");
                    }
                    assert(out@ =~= "FFICallErr("@ + spec_i32_decimal(*c as int) + ")"@);
                }
                out
            },
            ParserErr::NonNulIsNoneErr => {
                let mut out = String::new();
                out.append("NonNulIsNoneErr");
                proof {
                    assert(out@ =~= "NonNulIsNoneErr"@);
                }
                out
            },
        }
    }
}

/// Does the HTML hold a NUL byte? Such input cannot cross the foreign
/// boundary and must be rejected before the call.
pub open spec fn spec_contains_nul(s: Seq<char>) -> bool {
    exists|i: int| 0 <= i < s.len() && s[i] == '\0'
}

pub fn contains_nul(s: &str) -> (r: bool)
    ensures
        r == spec_contains_nul(s@),
{
    let n = s.unicode_len();
    let mut i: usize = 0;
    while i < n
        invariant
            n == s@.len(),
            i <= n,
            forall|k: int| 0 <= k < i ==> s@[k] != '\0',
        decreases n - i,
    {
        if s.get_char(i) == '\0' {
            return true;
        }
        i = i + 1;
    }
    false
}

/// What a string-returning foreign parser call means: a missing buffer is
/// an error whatever the status said; with a buffer, status zero yields
/// the decoded text and any other status its code.
pub fn ffi_parse_outcome(status: i32, out: Option<String>) -> (r: Result<String, ParserErr>)
    ensures
        match out {
            None => r == Err::<String, ParserErr>(ParserErr::NonNulIsNoneErr),
            Some(text) => if status == 0 {
                r is Ok && r->Ok_0@ == text@
            } else {
                r == Err::<String, ParserErr>(ParserErr::FFICallErr(status))
            },
        },
{
    match out {
        None => Err(ParserErr::NonNulIsNoneErr),
        Some(text) => {
            if status == 0 {
                Ok(text)
            } else {
                Err(ParserErr::FFICallErr(status))
            }
        },
    }
}

/// What the integer-returning foreign call means: status zero turns the
/// found index into its decimal text, any other status is its code.
pub fn max_idx_outcome(status: i32, max_idx: i32) -> (r: Result<String, ParserErr>)
    ensures
        status == 0 ==> r is Ok && r->Ok_0@ == spec_i32_decimal(max_idx as int),
        status != 0 ==> r == Err::<String, ParserErr>(ParserErr::FFICallErr(status)),
{
    if status == 0 {
        Ok(i32_to_string(max_idx))
    } else {
        Err(ParserErr::FFICallErr(status))
    }
}

} // verus!
