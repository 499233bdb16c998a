//! The ticket encoder and the dispatch decision: a pure transform
//! from ticket content to an ESC/POS-like control-byte stream, the
//! confirmation message, and the outcome rules of a print job.

use vstd::prelude::*;

use chrono::{Datelike, Timelike};

verus! {

/// The character of one decimal digit.
pub open spec fn digit_char(d: int) -> char {
    if d == 0 {
        '0'
    } else if d == 1 {
        '1'
    } else if d == 2 {
        '2'
    } else if d == 3 {
        '3'
    } else if d == 4 {
        '4'
    } else if d == 5 {
        '5'
    } else if d == 6 {
        '6'
    } else if d == 7 {
        '7'
    } else if d == 8 {
        '8'
    } else {
        '9'
    }
}

/// The decimal digits of a non-negative number, most significant
/// first.
pub open spec fn digits_of(n: int) -> Seq<char>
    decreases n,
{
    if n < 10 {
        seq![digit_char(n)]
    } else {
        digits_of(n / 10) + seq![digit_char(n % 10)]
    }
}

/// A number rendered as exactly two digits, zero-padded.
pub open spec fn two_digits(n: int) -> Seq<char> {
    seq![digit_char(n / 10), digit_char(n % 10)]
}

/// A non-negative number zero-padded to at least four digits.
pub open spec fn padded4(n: int) -> Seq<char> {
    if n < 10 {
        seq!['0', '0', '0'] + digits_of(n)
    } else if n < 100 {
        seq!['0', '0'] + digits_of(n)
    } else if n < 1000 {
        seq!['0'] + digits_of(n)
    } else {
        digits_of(n)
    }
}

/// A year rendered as at least four digits, with a leading minus
/// for years before the common era.
pub open spec fn year_digits(y: int) -> Seq<char> {
    if y < 0 {
        seq!['-'] + padded4(-y)
    } else {
        padded4(y)
    }
}

/// The ticket timestamp layout: `dd/mm/yyyy hh:mm`, day, month,
/// hour and minute as two digits each, the year as at least four.
pub open spec fn spec_timestamp(day: int, month: int, year: int, hour: int, minute: int) -> Seq<
    char,
> {
    two_digits(day) + "/"@ + two_digits(month) + "/"@ + year_digits(year) + " "@ + two_digits(hour)
        + ":"@ + two_digits(minute)
}

/// The text is some in-range local time rendered in the ticket
/// timestamp layout.
pub open spec fn is_timestamp_shape(s: Seq<char>) -> bool {
    exists|day: int, month: int, year: int, hour: int, minute: int|
        1 <= day <= 31 && 1 <= month <= 12 && 0 <= hour <= 23 && 0 <= minute <= 59 && s
            == #[trigger] spec_timestamp(day, month, year, hour, minute)
}

/// One digit as text.
fn digit_str(d: u32) -> (r: &'static str)
    requires
        d <= 9,
    ensures
        r@ == seq![digit_char(d as int)],
{
    proof {
        reveal_strlit("0");
        reveal_strlit("1");
        reveal_strlit("2");
        reveal_strlit("3");
        reveal_strlit("4");
        reveal_strlit("5");
        reveal_strlit("6");
        reveal_strlit("7");
        reveal_strlit("8");
        reveal_strlit("9");
        assert("0"@ =~= seq!['0']);
        assert("1"@ =~= seq!['1']);
        assert("2"@ =~= seq!['2']);
        assert("3"@ =~= seq!['3']);
        assert("4"@ =~= seq!['4']);
        assert("5"@ =~= seq!['5']);
        assert("6"@ =~= seq!['6']);
        assert("7"@ =~= seq!['7']);
        assert("8"@ =~= seq!['8']);
        assert("9"@ =~= seq!['9']);
    }
    match d {
        0 => "0",
        1 => "1",
        2 => "2",
        3 => "3",
        4 => "4",
        5 => "5",
        6 => "6",
        7 => "7",
        8 => "8",
        _ => "9",
    }
}

/// A number rendered as its decimal digits.
fn digits_str(n: u32) -> (r: String)
    ensures
        r@ == digits_of(n as int),
    decreases n,
{
    if n < 10 {
        String::from_str(digit_str(n))
    } else {
        let mut s = digits_str(n / 10);
        s.append(digit_str(n % 10));
        s
    }
}

/// A number rendered as exactly two digits, zero-padded.
fn two_digits_str(n: u32) -> (r: String)
    requires
        n <= 99,
    ensures
        r@ == two_digits(n as int),
{
    let mut s = String::from_str(digit_str(n / 10));
    s.append(digit_str(n % 10));
    s
}

/// A number zero-padded to at least four digits.
fn padded4_str(n: u32) -> (r: String)
    ensures
        r@ == padded4(n as int),
{
    proof {
        reveal_strlit("000");
        reveal_strlit("00");
        reveal_strlit("0");
        assert("000"@ =~= seq!['0', '0', '0']);
        assert("00"@ =~= seq!['0', '0']);
        assert("0"@ =~= seq!['0']);
    }
    if n < 10 {
        let mut s = String::from_str("000");
        s.append(digits_str(n).as_str());
        s
    } else if n < 100 {
        let mut s = String::from_str("00");
        s.append(digits_str(n).as_str());
        s
    } else if n < 1000 {
        let mut s = String::from_str("0");
        s.append(digits_str(n).as_str());
        s
    } else {
        digits_str(n)
    }
}

/// A year rendered as at least four digits, minus sign included.
fn year_str(y: i32) -> (r: String)
    ensures
        r@ == year_digits(y as int),
{
    proof {
        reveal_strlit("-");
        assert("-"@ =~= seq!['-']);
    }
    if y < 0 {
        let mag = (-(y as i64)) as u32;
        proof {
            assert(mag == -(y as int));
        }
        let mut s = String::from_str("-");
        s.append(padded4_str(mag).as_str());
        s
    } else {
        padded4_str(y as u32)
    }
}

/// Renders a local time in the ticket timestamp layout.
pub fn format_timestamp(day: u32, month: u32, year: i32, hour: u32, minute: u32) -> (r: String)
    requires
        day <= 99,
        month <= 99,
        hour <= 99,
        minute <= 99,
    ensures
        r@ == spec_timestamp(day as int, month as int, year as int, hour as int, minute as int),
{
    let mut s = two_digits_str(day);
    s.append("/");
    s.append(two_digits_str(month).as_str());
    s.append("/");
    s.append(year_str(year).as_str());
    s.append(" ");
    s.append(two_digits_str(hour).as_str());
    s.append(":");
    s.append(two_digits_str(minute).as_str());
    proof {
        assert(s@ =~= spec_timestamp(
            day as int,
            month as int,
            year as int,
            hour as int,
            minute as int,
        ));
    }
    s
}

/// The content of one queue ticket. All fields are plain text; the
/// timestamp comes pre-formatted from the caller, and the QR
/// payload is rendered as an image by an outside collaborator, not
/// by the encoder.
#[derive(Clone, Debug)]
pub struct TicketData {
    pub ticket_number: String,
    pub location: String,
    pub service_type: String,
    pub timestamp: String,
    pub qr_data: String,
}

/// The mathematical shape of a ticket's content.
pub ghost struct TicketModel {
    pub ticket_number: Seq<char>,
    pub location: Seq<char>,
    pub service_type: Seq<char>,
    pub timestamp: Seq<char>,
    pub qr_data: Seq<char>,
}

impl View for TicketData {
    type V = TicketModel;

    open spec fn view(&self) -> TicketModel {
        TicketModel {
            ticket_number: self.ticket_number@,
            location: self.location@,
            service_type: self.service_type@,
            timestamp: self.timestamp@,
            qr_data: self.qr_data@,
        }
    }
}

/// Relies on chrono's `Local::now` and its `Datelike`/`Timelike`
/// accessors: the components of the current local time, within
/// their documented ranges (day 1–31, month 1–12, hour 0–23,
/// minute 0–59). The values depend on the clock.
#[verifier::external_body]
fn clock_now_parts() -> (r: (u32, u32, i32, u32, u32))
    ensures
        1 <= r.0 <= 31,
        1 <= r.1 <= 12,
        r.3 <= 23,
        r.4 <= 59,
{
    let now = chrono::Local::now();
    (now.day(), now.month(), now.year(), now.hour(), now.minute())
}

/// The current local time rendered in the ticket timestamp layout.
fn now_timestamp() -> (r: String)
    ensures
        is_timestamp_shape(r@),
{
    let (day, month, year, hour, minute) = clock_now_parts();
    let s = format_timestamp(day, month, year, hour, minute);
    proof {
        assert(1 <= day as int <= 31 && 1 <= month as int <= 12 && 0 <= hour as int <= 23 && 0
            <= minute as int <= 59 && s@ == spec_timestamp(
            day as int,
            month as int,
            year as int,
            hour as int,
            minute as int,
        ));
    }
    s
}

impl Default for TicketData {
    /// The fixed test ticket, stamped with the current local time
    /// in the `dd/mm/yyyy hh:mm` layout.
    fn default() -> (r: TicketData)
        ensures
            r@.ticket_number == "A001"@,
            r@.location == "RS Contoh"@,
            r@.service_type == "Pemeriksaan Umum"@,
            r@.qr_data == "TEST-QR-001"@,
            is_timestamp_shape(r@.timestamp),
    {
        TicketData {
            ticket_number: String::from_str("A001"),
            location: String::from_str("RS Contoh"),
            service_type: String::from_str("Pemeriksaan Umum"),
            timestamp: now_timestamp(),
            qr_data: String::from_str("TEST-QR-001"),
        }
    }
}

/// The encoded ticket: the exact, order-significant command stream
/// for a ticket's content. Control directives (initialize, align,
/// bold, size, cut) are interleaved with the literal text fields,
/// which enter byte for byte, never escaped or sanitized.
pub open spec fn spec_receipt(t: TicketModel) -> Seq<char> {
    "\x1b@"@ + "\x1ba\x01"@ + "\x1bE\x01"@ + "\x1d!\x11"@ + "TIKET ANTRIAN\n"@ + "\x1d!\x00"@
        + "\x1bE\x00"@ + t.location + "\n"@ + "\x1ba\x00"@ + "--------------------------------\n"@
        + "\x1ba\x01"@ + "\x1d!\x22"@ + "\x1bE\x01"@ + t.ticket_number + "\n"@ + "\x1d!\x00"@
        + "\x1bE\x00"@ + t.service_type + "\n"@ + t.timestamp + "\n\n"@ + "[QR CODE HERE]\n\n"@
        + "\x1ba\x00"@ + "--------------------------------\n"@ + "\x1ba\x01"@
        + "* Simpan tiket hingga dipanggil\n"@ + "* Anda akan dipanggil sesuai\n"@
        + "  dengan cara scanning QR Code\n"@ + "* Harap menunggu di area\n"@ + "  tunggu\n\n"@
        + "\x1dVA\x00"@
}

/// Encodes a ticket into the printer command stream. Pure and
/// total: it succeeds for any ticket content, empty fields
/// included, and identical content gives byte-identical output.
pub fn generate_thermal_receipt(ticket: &TicketData) -> (r: String)
    ensures
        r@ == spec_receipt(ticket@),
{
    let mut content = String::new();
    content.append("\x1b@");  // initialize
    content.append("\x1ba\x01");  // center align
    content.append("\x1bE\x01");  // bold on
    content.append("\x1d!\x11");  // double width and height
    content.append("TIKET ANTRIAN\n");
    content.append("\x1d!\x00");  // normal size
    content.append("\x1bE\x00");  // bold off
    content.append(ticket.location.as_str());
    content.append("\n");
    content.append("\x1ba\x00");  // left align
    content.append("--------------------------------\n");
    content.append("\x1ba\x01");  // center align
    content.append("\x1d!\x22");  // triple size
    content.append("\x1bE\x01");  // bold on
    content.append(ticket.ticket_number.as_str());
    content.append("\n");
    content.append("\x1d!\x00");  // normal size
    content.append("\x1bE\x00");  // bold off
    content.append(ticket.service_type.as_str());
    content.append("\n");
    content.append(ticket.timestamp.as_str());
    content.append("\n\n");
    content.append("[QR CODE HERE]\n\n");  // layout space for the QR raster
    content.append("\x1ba\x00");  // left align
    content.append("--------------------------------\n");
    content.append("\x1ba\x01");  // center align
    content.append("* Simpan tiket hingga dipanggil\n");
    content.append("* Anda akan dipanggil sesuai\n");
    content.append("  dengan cara scanning QR Code\n");
    content.append("* Harap menunggu di area\n");
    content.append("  tunggu\n\n");
    content.append("\x1dVA\x00");  // partial paper cut
    proof {
        assert(content@ =~= spec_receipt(ticket@));
    }
    content
}

/// Encoding is deterministic: identical ticket content encodes to
/// byte-identical output.
pub proof fn lemma_encoding_deterministic(t1: TicketModel, t2: TicketModel)
    requires
        t1 == t2,
    ensures
        spec_receipt(t1) == spec_receipt(t2),
{
}

/// Whatever the ticket content, the encoded stream opens with the
/// initialize directive and closes with the cut directive, so even
/// all-empty fields still emit the structural bytes.
pub proof fn lemma_receipt_structure(t: TicketModel)
    ensures
        spec_receipt(t).len() >= 190,
        spec_receipt(t).subrange(0, 2) == "\x1b@"@,
        spec_receipt(t).subrange(
            spec_receipt(t).len() - 4,
            spec_receipt(t).len() as int,
        ) == "\x1dVA\x00"@,
{
    reveal_strlit("\x1b@");
    reveal_strlit("\x1ba\x01");
    reveal_strlit("\x1bE\x01");
    reveal_strlit("\x1d!\x11");
    reveal_strlit("TIKET ANTRIAN\n");
    reveal_strlit("\x1d!\x00");
    reveal_strlit("\x1bE\x00");
    reveal_strlit("\n");
    reveal_strlit("\x1ba\x00");
    reveal_strlit("--------------------------------\n");
    reveal_strlit("\x1d!\x22");
    reveal_strlit("\n\n");
    reveal_strlit("[QR CODE HERE]\n\n");
    reveal_strlit("* Simpan tiket hingga dipanggil\n");
    reveal_strlit("* Anda akan dipanggil sesuai\n");
    reveal_strlit("  dengan cara scanning QR Code\n");
    reveal_strlit("* Harap menunggu di area\n");
    reveal_strlit("  tunggu\n\n");
    reveal_strlit("\x1dVA\x00");
    assert(spec_receipt(t).subrange(0, 2) =~= "\x1b@"@);
    assert(spec_receipt(t).subrange(spec_receipt(t).len() - 4, spec_receipt(t).len() as int)
        =~= "\x1dVA\x00"@);
}

/// An error of a dispatch call, as the caller sees it.
pub enum PrintError {
    /// Temp storage for the encoded stream could not be written.
    Io(String),
    /// The OS spooling mechanism reported non-success; carries its
    /// diagnostic text verbatim.
    PrintJob(String),
    /// The OS mechanism exceeded its time bound.
    Timeout(String),
}

/// The confirmation message of a successful dispatch: it names the
/// ticket number and the printer.
pub open spec fn spec_confirmation(ticket_number: Seq<char>, printer_name: Seq<char>) -> Seq<char> {
    "Tiket "@ + ticket_number + " berhasil dicetak ke "@ + printer_name
}

/// Builds the confirmation message of a successful dispatch.
pub fn confirmation_message(ticket_number: &str, printer_name: &str) -> (r: String)
    ensures
        r@ == spec_confirmation(ticket_number@, printer_name@),
{
    let mut msg = String::new();
    msg.append("Tiket ");
    msg.append(ticket_number);
    msg.append(" berhasil dicetak ke ");
    msg.append(printer_name);
    proof {
        assert(msg@ =~= spec_confirmation(ticket_number@, printer_name@));
    }
    msg
}

/// Decides the outcome of a dispatch after the OS spooling
/// mechanism has run: success yields the confirmation message, and
/// a spooler failure always surfaces as a print-job error carrying
/// the spooler's diagnostic — never a silent success.
pub fn dispatch_outcome(spool_ok: bool, diagnostic: String, ticket_number: &str, printer_name: &str)
    -> (r: Result<String, PrintError>)
    ensures
        spool_ok <==> r is Ok,
        r is Ok ==> r->Ok_0@ == spec_confirmation(ticket_number@, printer_name@),
        !spool_ok ==> (r matches Err(PrintError::PrintJob(m)) && m@ == diagnostic@),
{
    if spool_ok {
        Ok(confirmation_message(ticket_number, printer_name))
    } else {
        Err(PrintError::PrintJob(diagnostic))
    }
}

/// Decides the outcome of spooling an already-rendered artifact
/// (such as a QR image file): success passes, and a spooler
/// failure always surfaces as a print-job error carrying the
/// spooler's diagnostic — never a silent success.
pub fn spool_outcome(spool_ok: bool, diagnostic: String) -> (r: Result<(), PrintError>)
    ensures
        spool_ok <==> r is Ok,
        !spool_ok ==> (r matches Err(PrintError::PrintJob(m)) && m@ == diagnostic@),
{
    if spool_ok {
        Ok(())
    } else {
        Err(PrintError::PrintJob(diagnostic))
    }
}

} // verus!
