use thermal_ticket::detection::is_thermal_printer;

#[test]
fn case_insensitive_on_name() {
    assert_eq!(
        is_thermal_printer("ZEBRA ZT", "", ""),
        is_thermal_printer("zebra zt", "", "")
    );
    assert!(is_thermal_printer("ZEBRA ZT", "", ""));
}

#[test]
fn pure_in_its_inputs() {
    let a = is_thermal_printer("EPSON TM-T82", "Generic Driver", "USB001");
    let b = is_thermal_printer("EPSON TM-T82", "Generic Driver", "USB001");
    assert_eq!(a, b);
}

#[test]
fn brand_in_name_classifies() {
    assert!(is_thermal_printer("Epson TM-T88V Receipt", "", ""));
    assert!(is_thermal_printer("Star TSP143", "", ""));
    assert!(is_thermal_printer("BIXOLON SRP-350", "", ""));
    assert!(is_thermal_printer("My 80mm Printer", "", ""));
}

#[test]
fn driver_hit_alone_classifies() {
    assert!(is_thermal_printer("Front Desk", "Generic thermal driver", ""));
}

#[test]
fn port_vendor_id_classifies() {
    assert!(is_thermal_printer("Front Desk", "", "USB\\VID_0519&PID_0001"));
    assert!(is_thermal_printer("Front Desk", "", "usb\\vid_0fe6"));
}

#[test]
fn office_printer_is_not_thermal() {
    assert!(!is_thermal_printer("HP LaserJet 1020", "HP Driver", "LPT1"));
    assert!(!is_thermal_printer("", "", ""));
}
