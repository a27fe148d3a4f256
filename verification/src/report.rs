//! The reporter: one human-readable line per completed request.
//!
//! The line reads `<secs>.<millis>s, <status>, <url>`, with the
//! milliseconds padded to three digits and the status either the response
//! code or the failure description.  A server-error outcome gets its
//! status code on a second line for visibility.  There is no aggregation
//! and no buffering: each outcome is rendered on its own.

use vstd::prelude::*;
use vstd::string::StringExecFns;
use crate::outcome::{spec_server_error, ExecutionOutcome, OutcomeStatus};

verus! {

/// The decimal digit character for `d` < 10.
pub open spec fn spec_digit_char(d: nat) -> char {
    if d == 0 {
        '0'
    } else if d == 1 {
        '1'
    } else if d == 2 {
        '2'
    } else if d == 3 {
        '3'
    } else if d == 4 {
        '4'
    } else if d == 5 {
        '5'
    } else if d == 6 {
        '6'
    } else if d == 7 {
        '7'
    } else if d == 8 {
        '8'
    } else {
        '9'
    }
}

/// The decimal digits of `n`, most significant first, with no leading
/// zeros (a single `'0'` for zero).
pub open spec fn spec_decimal(n: nat) -> Seq<char>
    decreases n,
{
    if n < 10 {
        seq![spec_digit_char(n)]
    } else {
        spec_decimal(n / 10).push(spec_digit_char(n % 10))
    }
}

/// The milliseconds field, zero-padded on the left to three digits.
pub open spec fn spec_millis3(n: nat) -> Seq<char> {
    if n < 10 {
        seq!['0', '0'] + spec_decimal(n)
    } else if n < 100 {
        seq!['0'] + spec_decimal(n)
    } else {
        spec_decimal(n)
    }
}

/// The status field of a report line: the decimal status code of a
/// completed request, or the failure description.
pub open spec fn spec_status_text(st: OutcomeStatus) -> Seq<char> {
    match st {
        OutcomeStatus::Completed { code } => spec_decimal(code as nat),
        OutcomeStatus::Failed { reason } => reason@,
    }
}

/// The report line for one outcome:
/// `<secs>.<millis>s, <status>, <url>`.
pub open spec fn spec_report_line(o: ExecutionOutcome) -> Seq<char> {
    spec_decimal(o.elapsed_secs as nat) + "."@ + spec_millis3(o.elapsed_millis as nat) + "s, "@
        + spec_status_text(o.status) + ", "@ + o.target@
}

/// The one-character string holding the decimal digit of `d`.
fn digit_str(d: u64) -> (r: &'static str)
    requires
        d < 10,
    ensures
        r@ == seq![spec_digit_char(d as nat)],
{
    proof {
        reveal_strlit("0");
        reveal_strlit("1");
        reveal_strlit("2");
        reveal_strlit("3");
        reveal_strlit("4");
        reveal_strlit("5");
        reveal_strlit("6");
        reveal_strlit("7");
        reveal_strlit("8");
        reveal_strlit("9");
    }
    if d == 0 {
        "0"
    } else if d == 1 {
        "1"
    } else if d == 2 {
        "2"
    } else if d == 3 {
        "3"
    } else if d == 4 {
        "4"
    } else if d == 5 {
        "5"
    } else if d == 6 {
        "6"
    } else if d == 7 {
        "7"
    } else if d == 8 {
        "8"
    } else {
        "9"
    }
}

/// The decimal rendering of `n`, most significant digit first.
pub fn u64_decimal(n: u64) -> (s: String)
    ensures
        s@ == spec_decimal(n as nat),
    decreases n,
{
    if n < 10 {
        String::from_str(digit_str(n))
    } else {
        let mut s = u64_decimal(n / 10);
        s.append(digit_str(n % 10));
        proof {
            assert(s@ =~= spec_decimal(n as nat));
        }
        s
    }
}

/// The milliseconds field rendered with left zero-padding to three digits.
fn millis_padded(millis: u16) -> (s: String)
    ensures
        s@ == spec_millis3(millis as nat),
{
    proof {
        reveal_strlit("00");
        reveal_strlit("0");
    }
    if millis < 10 {
        let mut s = String::from_str("00");
        s.append(u64_decimal(millis as u64).as_str());
        proof {
            assert(s@ =~= spec_millis3(millis as nat));
        }
        s
    } else if millis < 100 {
        let mut s = String::from_str("0");
        s.append(u64_decimal(millis as u64).as_str());
        proof {
            assert(s@ =~= spec_millis3(millis as nat));
        }
        s
    } else {
        u64_decimal(millis as u64)
    }
}

/// Render the report line for one outcome.
pub fn report_line(o: &ExecutionOutcome) -> (s: String)
    ensures
        s@ == spec_report_line(*o),
{
    let mut s = u64_decimal(o.elapsed_secs);
    s.append(".");
    let m = millis_padded(o.elapsed_millis);
    s.append(m.as_str());
    s.append("s, ");
    match &o.status {
        OutcomeStatus::Completed { code } => {
            let c = u64_decimal(*code as u64);
            s.append(c.as_str());
        },
        OutcomeStatus::Failed { reason } => {
            s.append(reason.as_str());
        },
    }
    s.append(", ");
    s.append(o.target.as_str());
    proof {
        assert(s@ =~= spec_report_line(*o));
    }
    s
}

/// Render every line the reporter emits for one outcome: the report line,
/// and — for a server-error response only — the status code on a second
/// line.
pub fn report_lines(o: &ExecutionOutcome) -> (v: Vec<String>)
    ensures
        v@.len() == (if spec_server_error(*o) {
            2int
        } else {
            1int
        }),
        v@[0]@ == spec_report_line(*o),
        spec_server_error(*o) ==> v@[1]@ == spec_decimal(o.status->Completed_code as nat),
{
    let mut v: Vec<String> = Vec::new();
    v.push(report_line(o));
    if o.is_server_error() {
        match &o.status {
            OutcomeStatus::Completed { code } => {
                v.push(u64_decimal(*code as u64));
            },
            OutcomeStatus::Failed { .. } => {},
        }
    }
    v
}

} // verus!
