//! Printer discovery support: the thermal-classification heuristic
//! and the parsers that turn OS printer listings into records.

use vstd::prelude::*;

use crate::status::{status_of_code, status_from_code, PrinterStatus};
use crate::text::{
    contains_folded, contains_ci, fold_seq, lemma_contains_folded_depends_on_folding, next_line_end,
    next_non_ws, next_ws, find_line_end, find_non_ws, find_ws, lemma_next_line_end_bounds,
    lemma_next_non_ws_bounds, lemma_next_ws_bounds,
};

verus! {

/// The fixed keyword dictionary of the thermal heuristic: brand
/// names, model patterns, and vendor-ID substrings seen in port
/// names. All keywords are lowercase; inputs are case-folded before
/// matching.
pub open spec fn thermal_keywords() -> Seq<Seq<char>> {
    seq![
        "thermal"@,
        "receipt"@,
        "pos"@,
        "epson tm"@,
        "star tsp"@,
        "zebra"@,
        "citizen"@,
        "bixolon"@,
        "rongta"@,
        "xprinter"@,
        "sunmi"@,
        "custom"@,
        "snbc"@,
        "sam4s"@,
        "partner"@,
        "80mm"@,
        "58mm"@,
        "rp80"@,
        "rp326"@,
        "tsp100"@,
        "tsp650"@,
        "tsp700"@,
        "tsp800"@,
        "zj"@,
        "usb\\vid_0519"@,
        "usb\\vid_0fe6"@,
    ]
}

/// Returns the keyword at index `i` of the dictionary.
fn keyword(i: usize) -> (r: &'static str)
    requires
        i < thermal_keywords().len(),
    ensures
        r@ == thermal_keywords()[i as int],
{
    match i {
        0 => "thermal",
        1 => "receipt",
        2 => "pos",
        3 => "epson tm",
        4 => "star tsp",
        5 => "zebra",
        6 => "citizen",
        7 => "bixolon",
        8 => "rongta",
        9 => "xprinter",
        10 => "sunmi",
        11 => "custom",
        12 => "snbc",
        13 => "sam4s",
        14 => "partner",
        15 => "80mm",
        16 => "58mm",
        17 => "rp80",
        18 => "rp326",
        19 => "tsp100",
        20 => "tsp650",
        21 => "tsp700",
        22 => "tsp800",
        23 => "zj",
        24 => "usb\\vid_0519",
        _ => "usb\\vid_0fe6",
    }
}

/// The thermal-classification heuristic: some keyword of the
/// dictionary occurs, case-insensitively, in the printer's name,
/// driver, or port.
pub open spec fn spec_is_thermal(name: Seq<char>, driver: Seq<char>, port: Seq<char>) -> bool {
    exists|k: int|
        0 <= k < thermal_keywords().len() && (contains_folded(
            name,
            #[trigger] thermal_keywords()[k],
        ) || contains_folded(driver, thermal_keywords()[k]) || contains_folded(
            port,
            thermal_keywords()[k],
        ))
}

/// Classifies a printer as thermal-capable: a case-insensitive
/// substring match of name, driver, and port against the fixed
/// keyword dictionary; a single hit on any field classifies the
/// device. A heuristic, not authoritative, but deterministic in its
/// three inputs.
pub fn is_thermal_printer(name: &str, driver: &str, port: &str) -> (r: bool)
    ensures
        r == spec_is_thermal(name@, driver@, port@),
{
    let n = thermal_keywords_len();
    let mut k: usize = 0;
    while k < n
        invariant
            n == thermal_keywords().len(),
            0 <= k <= n,
            forall|k2: int|
                0 <= k2 < k ==> !(contains_folded(name@, #[trigger] thermal_keywords()[k2])
                    || contains_folded(driver@, thermal_keywords()[k2]) || contains_folded(
                    port@,
                    thermal_keywords()[k2],
                )),
        decreases n - k,
    {
        let kw = keyword(k);
        if contains_ci(name, kw) || contains_ci(driver, kw) || contains_ci(port, kw) {
            return true;
        }
        k += 1;
    }
    false
}

/// The number of keywords in the dictionary.
fn thermal_keywords_len() -> (r: usize)
    ensures
        r == thermal_keywords().len(),
{
    26
}

/// Classification is a pure function of its three string inputs:
/// identical inputs always yield identical output.
pub proof fn lemma_is_thermal_deterministic(
    n1: Seq<char>,
    d1: Seq<char>,
    p1: Seq<char>,
    n2: Seq<char>,
    d2: Seq<char>,
    p2: Seq<char>,
)
    requires
        n1 == n2,
        d1 == d2,
        p1 == p2,
    ensures
        spec_is_thermal(n1, d1, p1) == spec_is_thermal(n2, d2, p2),
{
}

/// One installed printer, as discovery reports it: identifying
/// strings from the OS listing, the mapped status, and the derived
/// (heuristic, not authoritative) thermal classification.
#[derive(Clone, Debug)]
pub struct Printer {
    pub name: String,
    pub driver: String,
    pub port: String,
    pub status: PrinterStatus,
    pub is_thermal: bool,
}

/// The mathematical shape of a printer record.
pub ghost struct PrinterModel {
    pub name: Seq<char>,
    pub driver: Seq<char>,
    pub port: Seq<char>,
    pub status: PrinterStatus,
    pub is_thermal: bool,
}

impl View for Printer {
    type V = PrinterModel;

    open spec fn view(&self) -> PrinterModel {
        PrinterModel {
            name: self.name@,
            driver: self.driver@,
            port: self.port@,
            status: self.status,
            is_thermal: self.is_thermal,
        }
    }
}

impl Printer {
    /// Builds one discovery record from the raw fields of an OS
    /// listing entry: the status code is mapped through the fixed
    /// table and the thermal flag is derived from name, driver and
    /// port.
    pub fn from_fields(name: String, driver: String, port: String, status_code: i64) -> (r:
        Printer)
        ensures
            r@.name == name@,
            r@.driver == driver@,
            r@.port == port@,
            r@.status == status_of_code(status_code as int),
            r@.is_thermal == spec_is_thermal(name@, driver@, port@),
    {
        let is_thermal = is_thermal_printer(name.as_str(), driver.as_str(), port.as_str());
        let status = status_from_code(status_code);
        Printer { name, driver, port, status, is_thermal }
    }
}

/// The second whitespace-separated token of a line, if the line
/// has at least two tokens.
pub open spec fn second_token(line: Seq<char>) -> Option<Seq<char>> {
    let a1 = next_non_ws(line, 0);
    let e1 = next_ws(line, a1);
    let a2 = next_non_ws(line, e1);
    let e2 = next_ws(line, a2);
    if a2 < line.len() {
        Some(line.subrange(a2, e2))
    } else {
        None
    }
}

/// The line opens with the word the OS listing uses for a printer
/// entry.
pub open spec fn line_is_printer_entry(line: Seq<char>) -> bool {
    line.len() >= 7 && line[0] == 'p' && line[1] == 'r' && line[2] == 'i' && line[3] == 'n'
        && line[4] == 't' && line[5] == 'e' && line[6] == 'r'
}

/// The printer name that one listing line contributes: the second
/// token of a line that opens with the printer entry word; other
/// lines contribute nothing.
pub open spec fn lpstat_line_name(line: Seq<char>) -> Option<Seq<char>> {
    if line_is_printer_entry(line) {
        second_token(line)
    } else {
        None
    }
}

/// All printer names contributed by the listing text from position
/// `i` on, line by line, in order.
pub open spec fn lpstat_names(s: Seq<char>, i: int) -> Seq<Seq<char>>
    decreases s.len() - i,
{
    if i < 0 || i >= s.len() {
        Seq::empty()
    } else {
        let e = next_line_end(s, i);
        let j = if e + 1 < s.len() {
            e + 1
        } else {
            s.len() as int
        };
        let rest = if j > i {
            lpstat_names(s, j)
        } else {
            Seq::empty()
        };
        match lpstat_line_name(s.subrange(i, e)) {
            Some(n) => seq![n] + rest,
            None => rest,
        }
    }
}

/// The record that discovery builds for one printer name found in
/// the OS listing: the listing gives no driver, port or status, so
/// the record carries fixed placeholders, and the thermal heuristic
/// sees the name alone.
pub open spec fn lpstat_record(name: Seq<char>) -> PrinterModel {
    PrinterModel {
        name: name,
        driver: "System Default"@,
        port: "USB/Network"@,
        status: PrinterStatus::Ready,
        is_thermal: spec_is_thermal(name, Seq::empty(), Seq::empty()),
    }
}

/// Extracts the printer name from one listing line, per
/// `lpstat_line_name`.
fn lpstat_line_name_exec<'a>(line: &'a str) -> (r: Option<&'a str>)
    ensures
        r is Some <==> lpstat_line_name(line@) is Some,
        r is Some ==> r->0@ == lpstat_line_name(line@)->0,
{
    let len = line.unicode_len();
    if len < 7 {
        return None;
    }
    if !(line.get_char(0) == 'p' && line.get_char(1) == 'r' && line.get_char(2) == 'i'
        && line.get_char(3) == 'n' && line.get_char(4) == 't' && line.get_char(5) == 'e'
        && line.get_char(6) == 'r') {
        return None;
    }
    let a1 = find_non_ws(line, 0);
    proof {
        lemma_next_non_ws_bounds(line@, 0);
    }
    let e1 = find_ws(line, a1);
    proof {
        lemma_next_ws_bounds(line@, a1 as int);
    }
    let a2 = find_non_ws(line, e1);
    proof {
        lemma_next_non_ws_bounds(line@, e1 as int);
    }
    let e2 = find_ws(line, a2);
    proof {
        lemma_next_ws_bounds(line@, a2 as int);
    }
    if a2 < len {
        Some(line.substring_char(a2, e2))
    } else {
        None
    }
}

/// Parses the OS printer-listing text (one entry per line) into
/// discovery records: one record per printer line, in listing
/// order, each built as `lpstat_record` says. Malformed lines are
/// skipped, never fatal.
pub fn parse_lpstat_printers(out: &str) -> (r: Vec<Printer>)
    ensures
        r@.len() == lpstat_names(out@, 0).len(),
        forall|k: int|
            0 <= k < r@.len() ==> #[trigger] r@[k]@ == lpstat_record(lpstat_names(out@, 0)[k]),
{
    let len = out.unicode_len();
    let mut res: Vec<Printer> = Vec::new();
    let mut i: usize = 0;
    while i < len
        invariant
            0 <= i <= len,
            len == out@.len(),
            lpstat_names(out@, 0) == res@.map_values(|p: Printer| p@.name) + lpstat_names(
                out@,
                i as int,
            ),
            forall|k: int|
                0 <= k < res@.len() ==> #[trigger] res@[k]@ == lpstat_record(res@[k]@.name),
        decreases len - i,
    {
        let e = find_line_end(out, i);
        proof {
            lemma_next_line_end_bounds(out@, i as int);
        }
        let j = if e < len {
            e + 1
        } else {
            len
        };
        let line = out.substring_char(i, e);
        let ghost names_before = res@.map_values(|p: Printer| p@.name);
        match lpstat_line_name_exec(line) {
            Some(name_str) => {
                let name = String::from_str(name_str);
                let is_thermal = is_thermal_printer(name.as_str(), "", "");
                let p = Printer {
                    name,
                    driver: String::from_str("System Default"),
                    port: String::from_str("USB/Network"),
                    status: PrinterStatus::Ready,
                    is_thermal,
                };
                proof {
                    reveal_strlit("");
                    assert(""@ =~= Seq::<char>::empty());
                }
                res.push(p);
                proof {
                    assert(res@.map_values(|p: Printer| p@.name) =~= names_before + seq![
                        name_str@,
                    ]);
                    assert(names_before + (seq![name_str@] + lpstat_names(out@, j as int)) =~= (
                    names_before + seq![name_str@]) + lpstat_names(out@, j as int));
                }
            },
            None => {
            },
        }
        i = j;
    }
    proof {
        assert(lpstat_names(out@, i as int) =~= Seq::<Seq<char>>::empty());
        assert(res@.map_values(|p: Printer| p@.name) + Seq::<Seq<char>>::empty() =~= res@
            .map_values(|p: Printer| p@.name));
        assert forall|k: int| 0 <= k < res@.len() implies #[trigger] res@[k]@ == lpstat_record(
            lpstat_names(out@, 0)[k],
        ) by {
            assert(lpstat_names(out@, 0)[k] == res@.map_values(|p: Printer| p@.name)[k]);
        }
    }
    res
}

/// Classification is case-insensitive: inputs that agree up to
/// ASCII case (equal case foldings) are classified alike.
pub proof fn lemma_is_thermal_case_insensitive(
    n1: Seq<char>,
    d1: Seq<char>,
    p1: Seq<char>,
    n2: Seq<char>,
    d2: Seq<char>,
    p2: Seq<char>,
)
    requires
        fold_seq(n1) == fold_seq(n2),
        fold_seq(d1) == fold_seq(d2),
        fold_seq(p1) == fold_seq(p2),
    ensures
        spec_is_thermal(n1, d1, p1) == spec_is_thermal(n2, d2, p2),
{
    assert forall|k: int| 0 <= k < thermal_keywords().len() implies (contains_folded(
        n1,
        #[trigger] thermal_keywords()[k],
    ) == contains_folded(n2, thermal_keywords()[k]) && contains_folded(
        d1,
        thermal_keywords()[k],
    ) == contains_folded(d2, thermal_keywords()[k]) && contains_folded(
        p1,
        thermal_keywords()[k],
    ) == contains_folded(p2, thermal_keywords()[k])) by {
        lemma_contains_folded_depends_on_folding(n1, n2, thermal_keywords()[k]);
        lemma_contains_folded_depends_on_folding(d1, d2, thermal_keywords()[k]);
        lemma_contains_folded_depends_on_folding(p1, p2, thermal_keywords()[k]);
    }
}

} // verus!
