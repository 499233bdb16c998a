use thermal_ticket::detection::parse_lpstat_printers;
use thermal_ticket::json_listing::parse_printer_json;
use thermal_ticket::PrinterStatus;

#[test]
fn lpstat_lines_become_records() {
    let out = "printer Zebra_ZT230 is idle.  enabled since Mon\nprinter HP_LaserJet disabled\nsystem default destination: Zebra_ZT230\n";
    let printers = parse_lpstat_printers(out);
    assert_eq!(printers.len(), 2);
    assert_eq!(printers[0].name, "Zebra_ZT230");
    assert_eq!(printers[0].driver, "System Default");
    assert_eq!(printers[0].port, "USB/Network");
    assert_eq!(printers[0].status, PrinterStatus::Ready);
    assert!(printers[0].is_thermal);
    assert_eq!(printers[1].name, "HP_LaserJet");
    assert!(!printers[1].is_thermal);
}

#[test]
fn lpstat_malformed_lines_are_skipped() {
    assert_eq!(parse_lpstat_printers("").len(), 0);
    assert_eq!(parse_lpstat_printers("printer").len(), 0);
    assert_eq!(parse_lpstat_printers("printer   \n\nno printers here\n").len(), 0);
    let printers = parse_lpstat_printers("junk\nprinter POS58 idle\n");
    assert_eq!(printers.len(), 1);
    assert_eq!(printers[0].name, "POS58");
    assert!(printers[0].is_thermal);
}

#[test]
fn json_array_listing() {
    let json = "[{\"Name\":\"EPSON TM-T82\",\"DriverName\":\"EPSON TM Series\",\"PortName\":\"USB001\",\"PrinterStatus\":0},{\"Name\":\"HP OfficeJet\",\"DriverName\":\"HP Universal\",\"PortName\":\"WSD-0001\",\"PrinterStatus\":4}]";
    let printers = parse_printer_json(json).expect("well-formed listing");
    assert_eq!(printers.len(), 2);
    assert_eq!(printers[0].name, "EPSON TM-T82");
    assert_eq!(printers[0].driver, "EPSON TM Series");
    assert_eq!(printers[0].port, "USB001");
    assert_eq!(printers[0].status, PrinterStatus::Ready);
    assert!(printers[0].is_thermal);
    assert_eq!(printers[1].status, PrinterStatus::PaperJam);
    assert!(!printers[1].is_thermal);
}

#[test]
fn json_single_entry_listing() {
    let json = "{\"Name\":\"Star TSP100\",\"DriverName\":\"Star Line\",\"PortName\":\"USB002\",\"PrinterStatus\":1}";
    let printers = parse_printer_json(json).expect("well-formed listing");
    assert_eq!(printers.len(), 1);
    assert_eq!(printers[0].name, "Star TSP100");
    assert_eq!(printers[0].status, PrinterStatus::Paused);
    assert!(printers[0].is_thermal);
}

#[test]
fn json_missing_fields_fall_back() {
    let json = "{\"Name\":\"Mystery\"}";
    let printers = parse_printer_json(json).expect("well-formed listing");
    assert_eq!(printers.len(), 1);
    assert_eq!(printers[0].name, "Mystery");
    assert_eq!(printers[0].driver, "Unknown");
    assert_eq!(printers[0].port, "Unknown");
    assert_eq!(printers[0].status, PrinterStatus::Ready);
}

#[test]
fn json_unknown_status_code_maps_to_unknown() {
    let json = "{\"Name\":\"X\",\"DriverName\":\"D\",\"PortName\":\"P\",\"PrinterStatus\":42}";
    let printers = parse_printer_json(json).expect("well-formed listing");
    assert_eq!(printers[0].status, PrinterStatus::Unknown);
}

#[test]
fn json_malformed_listing_is_none() {
    assert!(parse_printer_json("").is_none());
    assert!(parse_printer_json("{not json").is_none());
}

#[test]
fn json_listing_keeps_order_and_count() {
    let json = "[{\"Name\":\"One\"},{\"Name\":\"Two\"},{\"Name\":\"Three\"}]";
    let printers = parse_printer_json(json).expect("well-formed listing");
    assert_eq!(printers.len(), 3);
    assert_eq!(printers[0].name, "One");
    assert_eq!(printers[1].name, "Two");
    assert_eq!(printers[2].name, "Three");
}

#[test]
fn json_discovery_is_deterministic() {
    let json = "[{\"Name\":\"EPSON TM-T82\",\"DriverName\":\"D\",\"PortName\":\"P\",\"PrinterStatus\":2}]";
    let a = parse_printer_json(json).expect("well-formed listing");
    let b = parse_printer_json(json).expect("well-formed listing");
    assert_eq!(a.len(), b.len());
    for (x, y) in a.iter().zip(b.iter()) {
        assert_eq!(x.name, y.name);
        assert_eq!(x.driver, y.driver);
        assert_eq!(x.port, y.port);
        assert_eq!(x.status, y.status);
        assert_eq!(x.is_thermal, y.is_thermal);
    }
}

#[test]
fn json_bare_non_object_still_yields_a_fallback_record() {
    let printers = parse_printer_json("42").expect("well-formed listing");
    assert_eq!(printers.len(), 1);
    assert_eq!(printers[0].name, "Unknown");
    assert_eq!(printers[0].driver, "Unknown");
    assert_eq!(printers[0].port, "Unknown");
    assert_eq!(printers[0].status, PrinterStatus::Ready);
}
