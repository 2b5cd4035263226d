//! Textual rendering of the subprocess's termination status: the final line
//! forwarded to the caller is a human-readable form of the exit status.

use vstd::prelude::*;

use vstd::string::StringExecFns;

verus! {

/// The decimal digit character for `d`.
pub open spec fn spec_digit(d: int) -> char {
    if d == 0 {
        '0'
    } else if d == 1 {
        '1'
    } else if d == 2 {
        '2'
    } else if d == 3 {
        '3'
    } else if d == 4 {
        '4'
    } else if d == 5 {
        '5'
    } else if d == 6 {
        '6'
    } else if d == 7 {
        '7'
    } else if d == 8 {
        '8'
    } else {
        '9'
    }
}

/// The decimal rendering of a non-negative integer, no leading zeros.
pub open spec fn spec_nat_dec(n: int) -> Seq<char>
    decreases n,
{
    if n < 10 {
        seq![spec_digit(n)]
    } else {
        spec_nat_dec(n / 10) + seq![spec_digit(n % 10)]
    }
}

/// The decimal rendering of an integer, a leading `-` when negative.
pub open spec fn spec_int_dec(n: int) -> Seq<char> {
    if n < 0 {
        seq!['-'] + spec_nat_dec(-n)
    } else {
        spec_nat_dec(n)
    }
}

/// One decimal digit as text.
fn digit_str(d: u32) -> (r: &'static str)
    requires
        d < 10,
    ensures
        r@ == seq![spec_digit(d as int)],
{
    proof {
        reveal_strlit("0");
        reveal_strlit("1");
        reveal_strlit("2");
        reveal_strlit("3");
        reveal_strlit("4");
        reveal_strlit("5");
        reveal_strlit("6");
        reveal_strlit("7");
        reveal_strlit("8");
        reveal_strlit("9");
    }
    let r = match d {
        0 => "0",
        1 => "1",
        2 => "2",
        3 => "3",
        4 => "4",
        5 => "5",
        6 => "6",
        7 => "7",
        8 => "8",
        _ => "9",
    };
    proof {
        assert(r@ =~= seq![spec_digit(d as int)]);
    }
    r
}

/// Render a non-negative number in decimal.
pub fn u32_dec(n: u32) -> (r: String)
    ensures
        r@ == spec_nat_dec(n as int),
    decreases n,
{
    if n < 10 {
        digit_str(n).to_owned()
    } else {
        let prefix = u32_dec(n / 10);
        let r = prefix.concat(digit_str(n % 10));
        proof {
            assert(r@ =~= spec_nat_dec(n as int));
        }
        r
    }
}

/// Render an integer in decimal.
pub fn i32_dec(n: i32) -> (r: String)
    ensures
        r@ == spec_int_dec(n as int),
{
    if n >= 0 {
        u32_dec(n as u32)
    } else {
        let wide: i64 = n as i64;
        let mag: u32 = (-wide) as u32;
        let digits = u32_dec(mag);
        let r = "-".to_owned().concat(digits.as_str());
        proof {
            reveal_strlit("-");
            assert(r@ =~= spec_int_dec(n as int));
        }
        r
    }
}

/// The status line forwarded after the subprocess terminates: its exit code
/// in decimal, or a note that a signal ended it, then a newline.
pub open spec fn spec_status_line(code: Option<i32>) -> Seq<char> {
    match code {
        Some(n) => "exit status: "@ + spec_int_dec(n as int) + "\n"@,
        None => "terminated by signal\n"@,
    }
}

/// Render the exit-status line. A failed or non-zero exit is reported as
/// data, not as a protocol failure.
pub fn status_line(code: Option<i32>) -> (r: String)
    ensures
        r@ == spec_status_line(code),
{
    match code {
        Some(n) => {
            let r = "exit status: ".to_owned().concat(i32_dec(n).as_str()).concat("\n");
            proof {
                assert(r@ =~= spec_status_line(code));
            }
            r
        },
        None => "terminated by signal\n".to_owned(),
    }
}

} // verus!
