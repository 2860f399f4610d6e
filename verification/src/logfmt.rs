use vstd::prelude::*;

verus! {

/// The character for one decimal digit value.
pub open spec fn digit_char(d: nat) -> char
    recommends
        d < 10,
{
    if d == 0 {
        '0'
    } else if d == 1 {
        '1'
    } else if d == 2 {
        '2'
    } else if d == 3 {
        '3'
    } else if d == 4 {
        '4'
    } else if d == 5 {
        '5'
    } else if d == 6 {
        '6'
    } else if d == 7 {
        '7'
    } else if d == 8 {
        '8'
    } else {
        '9'
    }
}

/// The decimal rendering of a natural number, without leading zeroes
/// (a lone zero renders as "0").
pub open spec fn decimal(n: nat) -> Seq<char>
    decreases n,
{
    if n < 10 {
        seq![digit_char(n)]
    } else {
        decimal(n / 10).push(digit_char(n % 10))
    }
}

/// The decimal rendering of a signed number: a minus sign before the
/// magnitude when it is negative.
pub open spec fn signed_decimal(i: int) -> Seq<char> {
    if i < 0 {
        seq!['-'] + decimal((-i) as nat)
    } else {
        decimal(i as nat)
    }
}

/// A run of `k` spaces.
pub open spec fn spaces(k: nat) -> Seq<char>
    decreases k,
{
    if k == 0 {
        Seq::empty()
    } else {
        spaces((k - 1) as nat).push(' ')
    }
}

/// The decimal rendering of `n`, right-aligned with spaces to at least
/// `width` characters.
pub open spec fn padded_decimal(n: nat, width: nat) -> Seq<char> {
    if decimal(n).len() >= width {
        decimal(n)
    } else {
        spaces((width - decimal(n).len()) as nat) + decimal(n)
    }
}

/// One log line: the elapsed milliseconds right-aligned to ten columns
/// in brackets, then the message.
pub open spec fn log_line(msec: nat, msg: Seq<char>) -> Seq<char> {
    "["@ + padded_decimal(msec, 10) + " ms] "@ + msg
}

/// The single-character string for one decimal digit value.
fn digit_str(d: u64) -> (r: &'static str)
    requires
        d < 10,
    ensures
        r@ =~= seq![digit_char(d as nat)],
{
    proof {
        reveal_strlit("0");
        reveal_strlit("1");
        reveal_strlit("2");
        reveal_strlit("3");
        reveal_strlit("4");
        reveal_strlit("5");
        reveal_strlit("6");
        reveal_strlit("7");
        reveal_strlit("8");
        reveal_strlit("9");
    }
    match d {
        0 => "0",
        1 => "1",
        2 => "2",
        3 => "3",
        4 => "4",
        5 => "5",
        6 => "6",
        7 => "7",
        8 => "8",
        _ => "9",
    }
}

/// Renders a number in decimal.
pub fn decimal_string(n: u64) -> (s: String)
    ensures
        s@ == decimal(n as nat),
    decreases n,
{
    if n < 10 {
        String::from_str(digit_str(n))
    } else {
        let mut s = decimal_string(n / 10);
        s.append(digit_str(n % 10));
        proof {
            assert(s@ =~= decimal((n / 10) as nat).push(digit_char((n % 10) as nat)));
        }
        s
    }
}

/// Renders a signed number in decimal, with a minus sign when negative.
pub fn signed_decimal_string(i: i64) -> (s: String)
    ensures
        s@ == signed_decimal(i as int),
{
    if i < 0 {
        let magnitude: u64 = if i == i64::MIN {
            9223372036854775808u64
        } else {
            (-i) as u64
        };
        proof {
            reveal_strlit("-");
        }
        let mut s = String::from_str("-");
        s.append(decimal_string(magnitude).as_str());
        proof {
            assert(s@ =~= seq!['-'] + decimal(magnitude as nat));
        }
        s
    } else {
        decimal_string(i as u64)
    }
}

/// Formats one log line as the harness prints it: the elapsed
/// milliseconds right-aligned to ten columns in brackets, then the
/// message.
pub fn format_log_line(msec: u64, msg: &str) -> (line: String)
    ensures
        line@ == log_line(msec as nat, msg@),
{
    let digits = decimal_string(msec);
    let digit_count = digits.as_str().unicode_len();
    let mut line = String::from_str("[");
    let mut appended: usize = 0;
    proof {
        reveal_strlit(" ");
        assert(line@ + spaces(0) =~= line@);
    }
    while digit_count < 10 && appended < 10 - digit_count
        invariant
            digit_count == decimal(msec as nat).len(),
            digit_count < 10 ==> appended <= 10 - digit_count,
            digit_count >= 10 ==> appended == 0,
            line@ == "["@ + spaces(appended as nat),
            " "@ =~= seq![' '],
        decreases 10 - appended,
    {
        line.append(" ");
        proof {
            assert(line@ =~= "["@ + spaces((appended + 1) as nat));
        }
        appended = appended + 1;
    }
    line.append(digits.as_str());
    line.append(" ms] ");
    line.append(msg);
    proof {
        if decimal(msec as nat).len() >= 10 {
            assert(line@ =~= log_line(msec as nat, msg@));
        } else {
            assert(appended == 10 - digit_count);
            assert(line@ =~= log_line(msec as nat, msg@));
        }
    }
    line
}

/// The line the seeker logs as it starts.
pub fn seeker_start_message() -> (r: String)
    ensures
        r@ == "starting seeker thread"@,
{
    String::from_str("starting seeker thread")
}

/// The line the seeker logs on success: how many probes came back empty
/// before one reported data, and at which offset.
pub open spec fn found_line(attempts: nat, offset: nat) -> Seq<char> {
    "seek found data after "@ + decimal(attempts) + " calls!  offset = "@ + decimal(offset)
        + " bytes"@
}

/// Builds the seeker's success line.
pub fn found_message(attempts: u64, offset: u64) -> (r: String)
    ensures
        r@ == found_line(attempts as nat, offset as nat),
{
    let mut r = String::from_str("seek found data after ");
    r.append(decimal_string(attempts).as_str());
    r.append(" calls!  offset = ");
    r.append(decimal_string(offset).as_str());
    r.append(" bytes");
    r
}

/// The line the seeker logs on an unexpected probe failure code.
pub open spec fn probe_failure_line(errno: int) -> Seq<char> {
    "seek failed with an unexpected errno "@ + signed_decimal(errno)
}

/// Builds the seeker's fatal-probe line.
pub fn probe_failure_message(errno: i32) -> (r: String)
    ensures
        r@ == probe_failure_line(errno as int),
{
    let mut r = String::from_str("seek failed with an unexpected errno ");
    r.append(signed_decimal_string(errno as i64).as_str());
    r
}

/// The line the writer logs after each successful one-byte append.
pub open spec fn wrote_line(offset: nat) -> Seq<char> {
    "wrote up to offset "@ + decimal(offset)
}

/// Builds the writer's per-append line.
pub fn wrote_message(offset: u64) -> (r: String)
    ensures
        r@ == wrote_line(offset as nat),
{
    let mut r = String::from_str("wrote up to offset ");
    r.append(decimal_string(offset).as_str());
    r
}

/// The diagnostic for a write that reported any size other than one byte.
pub open spec fn write_size_line(size: nat) -> Seq<char> {
    "unexpected write size "@ + decimal(size)
}

/// Builds the writer's unexpected-size diagnostic.
pub fn write_size_message(size: usize) -> (r: String)
    ensures
        r@ == write_size_line(size as nat),
{
    let mut r = String::from_str("unexpected write size ");
    r.append(decimal_string(size as u64).as_str());
    r
}

} // verus!
