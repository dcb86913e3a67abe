//! Rendering of monetary balances: thousands-grouped digits behind a fixed
//! currency glyph. The grouping itself is done by the `num_format` crate
//! under the convention this module states.

use crate::decimal::{dec_digit, dec_seq};
use vstd::prelude::*;
use vstd::string::*;

verus! {

/// The decimal numeral of a nonnegative value with a comma between each
/// group of three digits, counted from the least significant digit.
pub open spec fn grouped_digits(n: int) -> Seq<char>
    recommends
        n >= 0,
    decreases n,
{
    if n < 1000 {
        dec_seq(n)
    } else {
        grouped_digits(n / 1000) + seq![','] + seq![
            dec_digit((n / 100) % 10),
            dec_digit((n / 10) % 10),
            dec_digit(n % 10),
        ]
    }
}

/// The grouped numeral of a signed value: a `-` before the magnitude when
/// the value is negative.
pub open spec fn grouped_signed(n: int) -> Seq<char> {
    if n < 0 {
        seq!['-'] + grouped_digits(-n)
    } else {
        grouped_digits(n)
    }
}

/// A monetary amount as the views show it: a dollar glyph before the
/// grouped numeral.
pub open spec fn money_seq(n: int) -> Seq<char> {
    seq!['$'] + grouped_signed(n)
}

/// Relies on num_format's `ToFormattedString::to_formatted_string` with
/// `Locale::en_GB`: decimal digits separated into groups of three by `,`,
/// with the locale's minus sign `-` before a negative value.
#[verifier::external_body]
fn to_formatted_en_gb(n: i32) -> (r: String)
    ensures
        r@ == grouped_signed(n as int),
{
    num_format::ToFormattedString::to_formatted_string(&n, &num_format::Locale::en_GB)
}

/// Renders a balance as the views show it, e.g. `$1,000,000`.
pub fn money_text(n: i32) -> (s: String)
    ensures
        s@ == money_seq(n as int),
{
    let mut s = "$".to_owned();
    proof {
        reveal_strlit("$");
    }
    let grouped = to_formatted_en_gb(n);
    s.append(grouped.as_str());
    proof {
        assert(s@ =~= money_seq(n as int));
    }
    s
}

} // verus!
