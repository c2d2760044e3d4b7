//! Text that the checks put into names and details.

use vstd::prelude::*;

use crate::span::{Span, NANOS_PER_SEC};

verus! {

/// What `<std::time::Duration as Debug>::fmt` writes for the duration of
/// `secs` seconds and `subsec_nanos` nanoseconds (such as `50ms`, `1s`,
/// `1.5µs`).
pub uninterp spec fn duration_debug_text(secs: u64, subsec_nanos: u32) -> Seq<char>;

/// The debug text of a span, as std writes it for the same duration.
pub open spec fn span_text(s: Span) -> Seq<char> {
    duration_debug_text(s.spec_secs(), s.spec_subsec_nanos())
}

/// The character of the decimal digit `d`.
pub open spec fn digit_char(d: nat) -> char {
    (48 + d) as char
}

/// The decimal numeral of `n`, without sign or leading zeros.
pub open spec fn decimal_text(n: nat) -> Seq<char>
    decreases n,
{
    if n < 10 {
        seq![digit_char(n)]
    } else {
        decimal_text(n / 10).push(digit_char(n % 10))
    }
}

/// Formats a duration with `std::time::Duration`'s `Debug` impl.
/// Trusted: the text is whatever std writes for `Duration::new(secs,
/// subsec_nanos)`, named by `duration_debug_text`; `Duration::new` cannot
/// panic here because the sub-second part is below one second.
#[verifier::external_body]
fn duration_debug(secs: u64, subsec_nanos: u32) -> (s: String)
    requires
        subsec_nanos < NANOS_PER_SEC,
    ensures
        s@ == duration_debug_text(secs, subsec_nanos),
{
    format!("{:?}", std::time::Duration::new(secs, subsec_nanos))
}

/// The debug text of `span`.
pub fn span_debug(span: &Span) -> (s: String)
    ensures
        s@ == span_text(*span),
{
    duration_debug(span.as_secs(), span.subsec_nanos())
}

/// The decimal numeral of `n`.
pub fn decimal(n: usize) -> (s: String)
    ensures
        s@ == decimal_text(n as nat),
    decreases n,
{
    if n < 10 {
        owned(digit(n))
    } else {
        let mut s = decimal(n / 10);
        s.append(digit(n % 10));
        s
    }
}

/// The single-character numeral of the digit `d`.
fn digit(d: usize) -> (r: &'static str)
    requires
        d < 10,
    ensures
        r@ == seq![digit_char(d as nat)],
{
    if d == 0 {
        proof {
            reveal_strlit("0");
        }
        "0"
    } else if d == 1 {
        proof {
            reveal_strlit("1");
        }
        "1"
    } else if d == 2 {
        proof {
            reveal_strlit("2");
        }
        "2"
    } else if d == 3 {
        proof {
            reveal_strlit("3");
        }
        "3"
    } else if d == 4 {
        proof {
            reveal_strlit("4");
        }
        "4"
    } else if d == 5 {
        proof {
            reveal_strlit("5");
        }
        "5"
    } else if d == 6 {
        proof {
            reveal_strlit("6");
        }
        "6"
    } else if d == 7 {
        proof {
            reveal_strlit("7");
        }
        "7"
    } else if d == 8 {
        proof {
            reveal_strlit("8");
        }
        "8"
    } else {
        proof {
            reveal_strlit("9");
        }
        "9"
    }
}

/// A fresh string holding `s`.
pub fn owned(s: &str) -> (r: String)
    ensures
        r@ == s@,
{
    String::from_str(s)
}

/// `prefix` followed by `rest`.
pub fn joined(prefix: &str, rest: &str) -> (r: String)
    ensures
        r@ == prefix@ + rest@,
{
    let mut r = String::from_str(prefix);
    r.append(rest);
    r
}

} // verus!
