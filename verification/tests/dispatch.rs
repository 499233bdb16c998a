use thermal_ticket::printing::{confirmation_message, dispatch_outcome, spool_outcome, PrintError};

#[test]
fn success_yields_confirmation() {
    let r = dispatch_outcome(true, String::new(), "A001", "EPSON TM-T82");
    match r {
        Ok(msg) => assert_eq!(msg, "Tiket A001 berhasil dicetak ke EPSON TM-T82"),
        Err(_) => panic!("success must yield the confirmation"),
    }
}

#[test]
fn spooler_failure_is_never_silent_success() {
    let r = dispatch_outcome(
        false,
        "The printer does not exist.".to_string(),
        "A001",
        "NoSuchPrinter",
    );
    match r {
        Ok(_) => panic!("a failed spool must not read as success"),
        Err(PrintError::PrintJob(m)) => assert_eq!(m, "The printer does not exist."),
        Err(_) => panic!("a spooler failure is a print-job error"),
    }
}

#[test]
fn spooling_an_artifact_follows_the_same_rule() {
    assert!(spool_outcome(true, String::new()).is_ok());
    match spool_outcome(false, "no such printer".to_string()) {
        Ok(()) => panic!("a failed spool must not read as success"),
        Err(PrintError::PrintJob(m)) => assert_eq!(m, "no such printer"),
        Err(_) => panic!("a spooler failure is a print-job error"),
    }
}

#[test]
fn confirmation_names_ticket_and_printer() {
    let msg = confirmation_message("B002", "Kasir");
    assert_eq!(msg, "Tiket B002 berhasil dicetak ke Kasir");
}
