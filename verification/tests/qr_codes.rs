use thermal_ticket::qr::{generate_qr_code, generate_qr_svg};

#[test]
fn qr_rendering_is_deterministic_and_nonempty() {
    let a = generate_qr_code("TEST-QR-001", 200).expect("payload fits");
    let b = generate_qr_code("TEST-QR-001", 200).expect("payload fits");
    assert_eq!(a, b);
    assert!(!a.is_empty());
    // the rendered raster is a drawing, not the payload echoed back
    assert_ne!(a, "TEST-QR-001");
}

#[test]
fn different_payloads_render_differently() {
    let a = generate_qr_code("TEST-QR-001", 200).expect("payload fits");
    let b = generate_qr_code("TEST-QR-002", 200).expect("payload fits");
    assert_ne!(a, b);
}

#[test]
fn svg_passthrough_returns_the_payload() {
    let r = generate_qr_svg("TEST-QR-001").expect("payload fits");
    assert_eq!(r, "TEST-QR-001");
}

#[test]
fn oversized_payload_is_rejected() {
    let huge = "x".repeat(8000);
    assert!(generate_qr_code(&huge, 200).is_err());
    assert!(generate_qr_svg(&huge).is_err());
}
