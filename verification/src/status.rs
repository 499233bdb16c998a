//! Printer status codes as reported by the OS printer registry, and
//! their mapping onto the library's status enum.

use vstd::prelude::*;

use crate::text::{trimmed, find_trim_start, find_trim_end, lemma_trim_start_idx_bounds,
    lemma_trim_end_idx_bounds};

verus! {

/// A decimal digit.
pub open spec fn is_digit(c: char) -> bool {
    '0' <= c && c <= '9'
}

/// Every character of the sequence is a decimal digit.
pub open spec fn all_digits(s: Seq<char>) -> bool {
    forall|i: int| 0 <= i < s.len() ==> is_digit(#[trigger] s[i])
}

/// The value of a digit sequence read in base ten.
pub open spec fn digits_val(s: Seq<char>) -> int
    decreases s.len(),
{
    if s.len() == 0 {
        0
    } else {
        digits_val(s.drop_last()) * 10 + (s.last() as int - '0' as int)
    }
}

/// A digit sequence has a non-negative value.
pub proof fn lemma_digits_val_nonneg(s: Seq<char>)
    requires
        all_digits(s),
    ensures
        digits_val(s) >= 0,
    decreases s.len(),
{
    if s.len() > 0 {
        assert(all_digits(s.drop_last()));
        lemma_digits_val_nonneg(s.drop_last());
    }
}

/// Extending a digit sequence never lowers its value.
pub proof fn lemma_digits_val_monotone(s: Seq<char>, j: int)
    requires
        all_digits(s),
        0 <= j <= s.len(),
    ensures
        digits_val(s.take(j)) <= digits_val(s),
    decreases s.len() - j,
{
    if j < s.len() {
        assert(s.take(j + 1).drop_last() =~= s.take(j));
        assert(s.take(j + 1).last() == s[j]);
        assert(all_digits(s.take(j)));
        lemma_digits_val_nonneg(s.take(j));
        assert(digits_val(s.take(j + 1)) == digits_val(s.take(j)) * 10 + (s[j] as int
            - '0' as int));
        lemma_digits_val_monotone(s, j + 1);
    } else {
        assert(s.take(j) =~= s);
    }
}

/// Parsing a signed 32-bit decimal integer: an optional sign, then
/// at least one digit, with the value in 32-bit range; anything
/// else does not parse.
pub open spec fn spec_parse_i32(s: Seq<char>) -> Option<int> {
    let neg = s.len() > 0 && s[0] == '-';
    let ds = if s.len() > 0 && (s[0] == '-' || s[0] == '+') {
        s.skip(1)
    } else {
        s
    };
    if ds.len() > 0 && all_digits(ds) {
        let v = if neg {
            -digits_val(ds)
        } else {
            digits_val(ds)
        };
        if -2147483648 <= v <= 2147483647 {
            Some(v)
        } else {
            None
        }
    } else {
        None
    }
}

/// The status code read from the status query's output: the output
/// trimmed and parsed as a decimal integer, with zero for anything
/// that does not parse.
pub open spec fn spec_status_code(s: Seq<char>) -> int {
    match spec_parse_i32(trimmed(s)) {
        Some(v) => v,
        None => 0,
    }
}

/// The base-ten value of one digit character.
fn digit_val(c: char) -> (r: u32)
    requires
        is_digit(c),
    ensures
        r == c as int - '0' as int,
        r <= 9,
{
    match c {
        '0' => 0,
        '1' => 1,
        '2' => 2,
        '3' => 3,
        '4' => 4,
        '5' => 5,
        '6' => 6,
        '7' => 7,
        '8' => 8,
        '9' => 9,
        _ => 0,
    }
}

/// Tests whether a character is a decimal digit.
fn is_digit_exec(c: char) -> (r: bool)
    ensures
        r == is_digit(c),
{
    '0' <= c && c <= '9'
}

/// Reads the status code from the status query's raw output:
/// trims it and parses a decimal integer, with zero for output
/// that does not parse as a 32-bit value.
pub fn parse_status_code(s: &str) -> (r: i32)
    ensures
        r as int == spec_status_code(s@),
{
    let len = s.unicode_len();
    let a = find_trim_start(s, 0);
    proof {
        lemma_trim_start_idx_bounds(s@, 0);
    }
    let b = find_trim_end(s, len);
    proof {
        lemma_trim_end_idx_bounds(s@, len as int);
    }
    if a >= b {
        return 0;
    }
    let t = s.substring_char(a, b);
    proof {
        assert(t@ =~= trimmed(s@));
    }
    let tl = t.unicode_len();
    let c0 = t.get_char(0);
    let mut j: usize = if c0 == '-' || c0 == '+' {
        1
    } else {
        0
    };
    let neg = c0 == '-';
    let ghost ds = if c0 == '-' || c0 == '+' {
        t@.skip(1)
    } else {
        t@
    };
    let ghost start = j as int;
    if j >= tl {
        // a bare sign: no digits
        return 0;
    }
    let mut acc: i64 = 0;
    while j < tl
        invariant
            start <= j <= tl,
            tl == t@.len(),
            1 <= tl,
            t@ == trimmed(s@),
            neg == (t@[0] == '-'),
            start == if t@.len() > 0 && (t@[0] == '-' || t@[0] == '+') { 1int } else { 0int },
            ds == t@.skip(start),
            tl - start == ds.len(),
            all_digits(ds.take(j - start)),
            acc == digits_val(ds.take(j - start)),
            0 <= acc <= 2147483648,
        decreases tl - j,
    {
        let c = t.get_char(j);
        proof {
            assert(ds[j - start] == t@[j as int]);
        }
        if !is_digit_exec(c) {
            // a non-digit anywhere makes the whole output unparsable
            proof {
                assert(!all_digits(ds));
            }
            return 0;
        }
        let d = digit_val(c);
        acc = acc * 10 + (d as i64);
        proof {
            assert(ds.take(j - start + 1).drop_last() =~= ds.take(j - start));
            assert(ds.take(j - start + 1).last() == ds[j - start]);
        }
        j += 1;
        if acc > 2147483648 {
            // too large for 32 bits, whatever follows
            proof {
                assert(t@.skip(0) =~= t@);
                assert(acc == digits_val(ds.take(j - start)));
                if all_digits(ds) {
                    lemma_digits_val_monotone(ds, j - start);
                    assert(digits_val(ds) > 2147483648);
                    assert(spec_parse_i32(t@) is None);
                } else {
                    assert(spec_parse_i32(t@) is None);
                }
            }
            return 0;
        }
    }
    proof {
        assert(ds.take(j - start) =~= ds);
    }
    if neg {
        #[verifier::truncate]
        let r = (-acc) as i32;
        r
    } else if acc > 2147483647 {
        return 0;
    } else {
        #[verifier::truncate]
        let r = acc as i32;
        r
    }
}

/// Decides a printer's status from the status query: when the
/// query mechanism succeeded, its output is parsed and mapped
/// through the fixed code table; when the platform offers no such
/// query or it failed, the status is `Unknown` rather than an
/// error.
pub fn status_from_query(query_ok: bool, output: &str) -> (r: PrinterStatus)
    ensures
        query_ok ==> r == status_of_code(spec_status_code(output@)),
        !query_ok ==> r == PrinterStatus::Unknown,
{
    if query_ok {
        let code = parse_status_code(output);
        status_from_code(code as i64)
    } else {
        PrinterStatus::Unknown
    }
}

/// Status of an installed printer. The OS reports a numeric code;
/// codes outside the known table map to `Unknown`.
#[derive(Clone, Copy, Debug, PartialEq, Eq, Structural)]
pub enum PrinterStatus {
    Ready,
    Paused,
    Error,
    Deleting,
    PaperJam,
    PaperOut,
    Unknown,
}

/// The fixed lookup table from an OS status code to a status value.
pub open spec fn status_of_code(code: int) -> PrinterStatus {
    if code == 0 {
        PrinterStatus::Ready
    } else if code == 1 {
        PrinterStatus::Paused
    } else if code == 2 {
        PrinterStatus::Error
    } else if code == 3 {
        PrinterStatus::Deleting
    } else if code == 4 {
        PrinterStatus::PaperJam
    } else if code == 5 {
        PrinterStatus::PaperOut
    } else {
        PrinterStatus::Unknown
    }
}

/// Maps an OS status code to the status enum, per the fixed table.
pub fn status_from_code(code: i64) -> (r: PrinterStatus)
    ensures
        r == status_of_code(code as int),
{
    match code {
        0 => PrinterStatus::Ready,
        1 => PrinterStatus::Paused,
        2 => PrinterStatus::Error,
        3 => PrinterStatus::Deleting,
        4 => PrinterStatus::PaperJam,
        5 => PrinterStatus::PaperOut,
        _ => PrinterStatus::Unknown,
    }
}

/// The status-code mapping is total: every integer code maps to
/// exactly one status value, each code of the table to its own
/// status, and every code outside the table to `Unknown`.
pub proof fn lemma_status_mapping_total()
    ensures
        forall|code: int|
            (#[trigger] status_of_code(code)) == PrinterStatus::Ready || status_of_code(code)
                == PrinterStatus::Paused || status_of_code(code) == PrinterStatus::Error
                || status_of_code(code) == PrinterStatus::Deleting || status_of_code(code)
                == PrinterStatus::PaperJam || status_of_code(code) == PrinterStatus::PaperOut
                || status_of_code(code) == PrinterStatus::Unknown,
        status_of_code(0) == PrinterStatus::Ready,
        status_of_code(1) == PrinterStatus::Paused,
        status_of_code(2) == PrinterStatus::Error,
        status_of_code(3) == PrinterStatus::Deleting,
        status_of_code(4) == PrinterStatus::PaperJam,
        status_of_code(5) == PrinterStatus::PaperOut,
        forall|code: int|
            code < 0 || code > 5 ==> #[trigger] status_of_code(code) == PrinterStatus::Unknown,
{
}

impl PrinterStatus {
    /// The display label of this status, as the printer registry
    /// reports it to callers.
    pub open spec fn spec_label(self) -> Seq<char> {
        match self {
            PrinterStatus::Ready => "Ready"@,
            PrinterStatus::Paused => "Paused"@,
            PrinterStatus::Error => "Error"@,
            PrinterStatus::Deleting => "Deleting"@,
            PrinterStatus::PaperJam => "Paper Jam"@,
            PrinterStatus::PaperOut => "Paper Out"@,
            PrinterStatus::Unknown => "Unknown"@,
        }
    }

    /// Returns the display label of this status.
    pub fn label(self) -> (r: &'static str)
        ensures
            r@ == self.spec_label(),
    {
        match self {
            PrinterStatus::Ready => "Ready",
            PrinterStatus::Paused => "Paused",
            PrinterStatus::Error => "Error",
            PrinterStatus::Deleting => "Deleting",
            PrinterStatus::PaperJam => "Paper Jam",
            PrinterStatus::PaperOut => "Paper Out",
            PrinterStatus::Unknown => "Unknown",
        }
    }
}

} // verus!
