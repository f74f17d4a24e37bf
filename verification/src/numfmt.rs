//! Decimal rendering of counters and percentages.
//!
//! Alert messages and log records embed numbers in plain decimal form;
//! percentages carried as hundredths of a percent are rendered with
//! exactly two digits after the point (`8100` becomes `81.00`).

use vstd::prelude::*;
use vstd::string::StringExecFns;

verus! {

/// The decimal digit character for one digit value.
pub open spec fn dec_char(d: nat) -> char {
    if d == 0 {
        '0'
    } else if d == 1 {
        '1'
    } else if d == 2 {
        '2'
    } else if d == 3 {
        '3'
    } else if d == 4 {
        '4'
    } else if d == 5 {
        '5'
    } else if d == 6 {
        '6'
    } else if d == 7 {
        '7'
    } else if d == 8 {
        '8'
    } else {
        '9'
    }
}

/// The decimal digit sequence of a number, most significant digit first,
/// with no leading zero except for the number zero itself.
pub open spec fn dec_seq(n: nat) -> Seq<char>
    decreases n,
{
    if n < 10 {
        seq![dec_char(n)]
    } else {
        dec_seq(n / 10).push(dec_char(n % 10))
    }
}

/// How a percentage in hundredths of a percent reads with two digits
/// after the decimal point.
pub open spec fn percent_chars(v: u64) -> Seq<char> {
    dec_seq((v / 100) as nat) + seq!['.', dec_char(((v % 100) / 10) as nat), dec_char(
        (v % 10) as nat,
    )]
}

/// The one-character string for a decimal digit.
pub fn digit_str(d: u64) -> (r: &'static str)
    requires
        d < 10,
    ensures
        r@ == seq![dec_char(d as nat)],
{
    if d == 0 {
        proof {
            reveal_strlit("0");
            assert("0"@ =~= seq![dec_char(d as nat)]);
        }
        "0"
    } else if d == 1 {
        proof {
            reveal_strlit("1");
            assert("1"@ =~= seq![dec_char(d as nat)]);
        }
        "1"
    } else if d == 2 {
        proof {
            reveal_strlit("2");
            assert("2"@ =~= seq![dec_char(d as nat)]);
        }
        "2"
    } else if d == 3 {
        proof {
            reveal_strlit("3");
            assert("3"@ =~= seq![dec_char(d as nat)]);
        }
        "3"
    } else if d == 4 {
        proof {
            reveal_strlit("4");
            assert("4"@ =~= seq![dec_char(d as nat)]);
        }
        "4"
    } else if d == 5 {
        proof {
            reveal_strlit("5");
            assert("5"@ =~= seq![dec_char(d as nat)]);
        }
        "5"
    } else if d == 6 {
        proof {
            reveal_strlit("6");
            assert("6"@ =~= seq![dec_char(d as nat)]);
        }
        "6"
    } else if d == 7 {
        proof {
            reveal_strlit("7");
            assert("7"@ =~= seq![dec_char(d as nat)]);
        }
        "7"
    } else if d == 8 {
        proof {
            reveal_strlit("8");
            assert("8"@ =~= seq![dec_char(d as nat)]);
        }
        "8"
    } else {
        proof {
            reveal_strlit("9");
            assert("9"@ =~= seq![dec_char(d as nat)]);
        }
        "9"
    }
}

/// Renders a counter in plain decimal, most significant digit first.
pub fn u64_to_string(n: u64) -> (r: String)
    ensures
        r@ == dec_seq(n as nat),
    decreases n,
{
    if n < 10 {
        let r = digit_str(n).to_owned();
        r
    } else {
        let mut r = u64_to_string(n / 10);
        r.append(digit_str(n % 10));
        proof {
            assert(dec_seq((n / 10) as nat) + seq![dec_char((n % 10) as nat)] =~= dec_seq(
                (n / 10) as nat,
            ).push(dec_char((n % 10) as nat)));
        }
        r
    }
}

/// Renders a percentage held in hundredths of a percent with exactly two
/// digits after the decimal point.
pub fn format_hundredths(v: u64) -> (r: String)
    ensures
        r@ == percent_chars(v),
{
    let mut r = u64_to_string(v / 100);
    r.append(".");
    r.append(digit_str((v % 100) / 10));
    r.append(digit_str(v % 10));
    proof {
        reveal_strlit(".");
        assert(r@ =~= percent_chars(v));
    }
    r
}

} // verus!
