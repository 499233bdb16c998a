//! The JSON printer listing: some printer registries report
//! installed printers as a JSON document (an array of entries, or
//! one bare entry). The JSON tree itself comes from an outside
//! parser, whose results are named below; the record-building
//! logic is verified and the listing's records are pinned in full.

use vstd::prelude::*;

use crate::detection::{spec_is_thermal, Printer, PrinterModel};
use crate::status::status_of_code;

verus! {

#[verifier::external_type_specification]
#[verifier::external_body]
pub struct ExJsonValue(serde_json::Value);

/// What the JSON parser returns for a text: `Some` with the parsed
/// value tree when the text is well-formed JSON, `None` when it is
/// not. The result depends on the text alone.
pub uninterp spec fn json_doc_of(s: Seq<char>) -> Option<serde_json::Value>;

/// The text is well-formed JSON.
pub open spec fn json_parses(s: Seq<char>) -> bool {
    json_doc_of(s) is Some
}

/// What the array accessor returns for a value: `Some` with the
/// element sequence when the value is an array, `None` otherwise.
pub uninterp spec fn json_elems_of(v: serde_json::Value) -> Option<Seq<serde_json::Value>>;

/// What field lookup returns for a value and a key: `Some` with
/// the field's value when the value is an object holding the key,
/// `None` otherwise.
pub uninterp spec fn json_field_of(v: serde_json::Value, key: Seq<char>) -> Option<
    serde_json::Value,
>;

/// What the string accessor returns for a value: `Some` with the
/// text when the value is a JSON string, `None` otherwise.
pub uninterp spec fn json_text_of(v: serde_json::Value) -> Option<Seq<char>>;

/// What the integer accessor returns for a value: `Some` with the
/// number when the value is an integer representable in 64 bits,
/// `None` otherwise.
pub uninterp spec fn json_int_of(v: serde_json::Value) -> Option<i64>;

/// Relies on serde_json's `from_str`: parsing is a deterministic
/// function of the text, failing exactly on malformed text.
#[verifier::external_body]
fn json_parse(s: &str) -> (r: Option<serde_json::Value>)
    ensures
        r is Some <==> json_parses(s@),
        r matches Some(v) ==> v == json_doc_of(s@)->0,
{
    serde_json::from_str::<serde_json::Value>(s).ok()
}

/// Relies on serde_json's `Value::as_array`: the element vector of
/// an array value, `None` for any other value.
#[verifier::external_body]
fn json_as_array(v: &serde_json::Value) -> (r: Option<&Vec<serde_json::Value>>)
    ensures
        r is Some <==> json_elems_of(*v) is Some,
        r matches Some(a) ==> a@ == json_elems_of(*v)->0,
{
    v.as_array()
}

/// Relies on serde_json's `Value::get`: field lookup on an object
/// value, `None` for a missing key or any other value.
#[verifier::external_body]
fn json_get<'a>(v: &'a serde_json::Value, key: &str) -> (r: Option<&'a serde_json::Value>)
    ensures
        r is Some <==> json_field_of(*v, key@) is Some,
        r matches Some(f) ==> *f == json_field_of(*v, key@)->0,
{
    v.get(key)
}

/// Relies on serde_json's `Value::as_str`: the text of a string
/// value, `None` for any other value.
#[verifier::external_body]
fn json_as_str(v: &serde_json::Value) -> (r: Option<&str>)
    ensures
        r is Some <==> json_text_of(*v) is Some,
        r matches Some(s) ==> s@ == json_text_of(*v)->0,
{
    v.as_str()
}

/// Relies on serde_json's `Value::as_i64`: the value of an integer
/// number representable in 64 bits, `None` otherwise.
#[verifier::external_body]
fn json_as_i64(v: &serde_json::Value) -> (r: Option<i64>)
    ensures
        r is Some <==> json_int_of(*v) is Some,
        r matches Some(n) ==> n == json_int_of(*v)->0,
{
    v.as_i64()
}

/// One string field of a listing entry: the field's text, or
/// "Unknown" when the field is missing or not a string.
pub open spec fn spec_string_field(v: serde_json::Value, key: Seq<char>) -> Seq<char> {
    match json_field_of(v, key) {
        Some(f) => match json_text_of(f) {
            Some(s) => s,
            None => "Unknown"@,
        },
        None => "Unknown"@,
    }
}

/// The status code of a listing entry: the integer field, or zero
/// when the field is missing or not an integer.
pub open spec fn spec_status_field(v: serde_json::Value) -> i64 {
    match json_field_of(v, "PrinterStatus"@) {
        Some(f) => match json_int_of(f) {
            Some(c) => c,
            None => 0,
        },
        None => 0,
    }
}

/// The record that one listing entry yields: name, driver and port
/// with their "Unknown" fallbacks, the status code mapped through
/// the fixed table, and the thermal flag derived from the entry's
/// own fields. A malformed entry still yields a record, never a
/// failure.
pub open spec fn spec_entry_record(v: serde_json::Value) -> PrinterModel {
    PrinterModel {
        name: spec_string_field(v, "Name"@),
        driver: spec_string_field(v, "DriverName"@),
        port: spec_string_field(v, "PortName"@),
        status: status_of_code(spec_status_field(v) as int),
        is_thermal: spec_is_thermal(
            spec_string_field(v, "Name"@),
            spec_string_field(v, "DriverName"@),
            spec_string_field(v, "PortName"@),
        ),
    }
}

/// The entries of a listing document: the elements of an array
/// document, or the document itself as one bare entry.
pub open spec fn spec_entries(doc: serde_json::Value) -> Seq<serde_json::Value> {
    match json_elems_of(doc) {
        Some(es) => es,
        None => seq![doc],
    }
}

/// The records of a listing text: one per entry, in order, when
/// the text parses; nothing when it does not.
pub open spec fn spec_printer_listing(s: Seq<char>) -> Option<Seq<PrinterModel>> {
    if json_parses(s) {
        Some(spec_entries(json_doc_of(s)->0).map_values(|v| spec_entry_record(v)))
    } else {
        None
    }
}

/// Reads one string field of a listing entry, with the fixed
/// fallback for a missing or non-string field.
fn string_field(v: &serde_json::Value, key: &str) -> (r: String)
    ensures
        r@ == spec_string_field(*v, key@),
{
    match json_get(v, key) {
        Some(f) => match json_as_str(f) {
            Some(s) => String::from_str(s),
            None => String::from_str("Unknown"),
        },
        None => String::from_str("Unknown"),
    }
}

/// Builds one discovery record from one JSON listing entry, per
/// `spec_entry_record`: missing or ill-typed fields fall back to
/// "Unknown" (status code zero, hence `Ready`), and the thermal
/// flag is derived from the entry's own name, driver and port.
fn printer_from_entry(v: &serde_json::Value) -> (r: Printer)
    ensures
        r@ == spec_entry_record(*v),
{
    let name = string_field(v, "Name");
    let driver = string_field(v, "DriverName");
    let port = string_field(v, "PortName");
    let code = match json_get(v, "PrinterStatus") {
        Some(f) => match json_as_i64(f) {
            Some(c) => c,
            None => 0,
        },
        None => 0,
    };
    Printer::from_fields(name, driver, port, code)
}

/// Parses a JSON printer listing into discovery records: exactly
/// one record per entry of an array document (in listing order),
/// or a single record for a bare entry, each as
/// `spec_entry_record` says. Returns `None` exactly when the text
/// is not JSON; a malformed entry inside well-formed JSON yields
/// its fallback record rather than failing the call.
pub fn parse_printer_json(json: &str) -> (r: Option<Vec<Printer>>)
    ensures
        r is Some <==> json_parses(json@),
        r matches Some(ps) ==> ps@.map_values(|p: Printer| p@) == spec_printer_listing(json@)->0,
{
    match json_parse(json) {
        None => None,
        Some(val) => {
            let ghost entries = spec_entries(val);
            let mut res: Vec<Printer> = Vec::new();
            match json_as_array(&val) {
                Some(arr) => {
                    let n = arr.len();
                    let mut i: usize = 0;
                    while i < n
                        invariant
                            n == arr@.len(),
                            0 <= i <= n,
                            arr@ == entries,
                            res@.len() == i,
                            forall|k: int|
                                0 <= k < i ==> (#[trigger] res@[k])@ == spec_entry_record(
                                    entries[k],
                                ),
                        decreases n - i,
                    {
                        let p = printer_from_entry(&arr[i]);
                        res.push(p);
                        i += 1;
                    }
                },
                None => {
                    let p = printer_from_entry(&val);
                    res.push(p);
                    proof {
                        assert(entries =~= seq![val]);
                    }
                },
            }
            proof {
                assert(res@.map_values(|p: Printer| p@) =~= entries.map_values(
                    |v| spec_entry_record(v),
                ));
            }
            Some(res)
        },
    }
}

} // verus!
