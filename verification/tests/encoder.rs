use thermal_ticket::printing::{format_timestamp, generate_thermal_receipt, TicketData};

fn ticket(number: &str, location: &str, service: &str, timestamp: &str, qr: &str) -> TicketData {
    TicketData {
        ticket_number: number.to_string(),
        location: location.to_string(),
        service_type: service.to_string(),
        timestamp: timestamp.to_string(),
        qr_data: qr.to_string(),
    }
}

#[test]
fn encoding_is_deterministic() {
    let t = ticket("B017", "Klinik Sehat", "Gigi", "02/03/2024 10:30", "QR-B017");
    let once = generate_thermal_receipt(&t);
    let twice = generate_thermal_receipt(&t);
    assert_eq!(once.as_bytes(), twice.as_bytes());
}

#[test]
fn empty_fields_still_emit_structure() {
    let t = ticket("", "", "", "", "");
    let r = generate_thermal_receipt(&t);
    assert!(r.starts_with("\x1b@"));
    assert!(r.ends_with("\x1dVA\x00"));
    assert!(r.contains("TIKET ANTRIAN\n"));
    assert!(r.contains("[QR CODE HERE]\n\n"));
}

#[test]
fn end_to_end_scenario() {
    let t = ticket(
        "A001",
        "RS Contoh",
        "Pemeriksaan Umum",
        "01/01/2024 09:00",
        "TEST-QR-001",
    );
    let r = generate_thermal_receipt(&t);
    assert!(r.starts_with("\x1b@"));
    assert!(r.ends_with("\x1dVA\x00"));
    assert_eq!(r.matches("A001").count(), 1);
    assert_eq!(r.matches("RS Contoh").count(), 1);
    assert_eq!(r.matches("Pemeriksaan Umum").count(), 1);
    assert_eq!(r.matches("01/01/2024 09:00").count(), 1);
}

#[test]
fn exact_stream_for_a_small_ticket() {
    let t = ticket("C2", "L", "S", "T", "Q");
    let r = generate_thermal_receipt(&t);
    let expected = "\x1b@\x1ba\x01\x1bE\x01\x1d!\x11TIKET ANTRIAN\n\x1d!\x00\x1bE\x00L\n\x1ba\x00--------------------------------\n\x1ba\x01\x1d!\x22\x1bE\x01C2\n\x1d!\x00\x1bE\x00S\nT\n\n[QR CODE HERE]\n\n\x1ba\x00--------------------------------\n\x1ba\x01* Simpan tiket hingga dipanggil\n* Anda akan dipanggil sesuai\n  dengan cara scanning QR Code\n* Harap menunggu di area\n  tunggu\n\n\x1dVA\x00";
    assert_eq!(r, expected);
}

#[test]
fn qr_payload_is_not_in_the_stream() {
    let t = ticket("A002", "Loc", "Svc", "Time", "OPAQUE-QR-PAYLOAD");
    let r = generate_thermal_receipt(&t);
    assert!(!r.contains("OPAQUE-QR-PAYLOAD"));
}

#[test]
fn default_ticket_fields() {
    let t = TicketData::default();
    assert_eq!(t.ticket_number, "A001");
    assert_eq!(t.location, "RS Contoh");
    assert_eq!(t.service_type, "Pemeriksaan Umum");
    assert_eq!(t.qr_data, "TEST-QR-001");
}

#[test]
fn default_ticket_timestamp_layout() {
    let t = TicketData::default();
    let b = t.timestamp.as_bytes();
    assert_eq!(b.len(), 16);
    assert_eq!(b[2], b'/');
    assert_eq!(b[5], b'/');
    assert_eq!(b[10], b' ');
    assert_eq!(b[13], b':');
    for i in [0, 1, 3, 4, 6, 7, 8, 9, 11, 12, 14, 15] {
        assert!(b[i].is_ascii_digit());
    }
}

#[test]
fn timestamp_formatting_is_exact() {
    assert_eq!(format_timestamp(1, 1, 2024, 9, 0), "01/01/2024 09:00");
    assert_eq!(format_timestamp(31, 12, 999, 23, 59), "31/12/0999 23:59");
    assert_eq!(format_timestamp(5, 7, 12345, 0, 5), "05/07/12345 00:05");
    assert_eq!(format_timestamp(5, 7, -44, 8, 30), "05/07/-0044 08:30");
}
