use base64::engine::general_purpose::STANDARD;
use base64::Engine;
use receipt_printer::driver::{
    conclude_flush, load, print_base64, test_print, PrintJob, WindowsDriver, TEST_RECEIPT,
};
use receipt_printer::error::DriverError;
use receipt_printer::payload::decode_payload;

/// Flushes with the printer found; gives the payload of the job.
fn flush_found(driver: &mut WindowsDriver) -> Result<Vec<u8>, DriverError> {
    driver.flush(Some(())).map(|job| job.payload)
}

/// Flushes with the printer missing; gives the payload of the job, if any.
fn flush_missing(driver: &mut WindowsDriver) -> Result<Vec<u8>, DriverError> {
    driver.flush::<()>(None).map(|job| job.payload)
}

fn prepared(printer_name: &str, base64_data: &str) -> WindowsDriver {
    match print_base64(printer_name, base64_data) {
        Ok(driver) => driver,
        Err(error) => panic!("not prepared: {:?}", error),
    }
}

#[test]
fn new_adapter_has_name_and_empty_buffer() {
    let mut driver = WindowsDriver::new(String::from("Receipt1"));
    assert_eq!(driver.name(), "Receipt1");
    assert_eq!(flush_found(&mut driver), Ok(Vec::new()));
    assert_eq!(driver.name(), "Receipt1");
}

#[test]
fn writes_accumulate_in_order() {
    let mut driver = WindowsDriver::new(String::from("Receipt1"));
    assert_eq!(driver.write(&[1, 2, 3]), Ok(()));
    assert_eq!(driver.write(&[]), Ok(()));
    assert_eq!(driver.write(&[4, 5]), Ok(()));
    assert_eq!(flush_found(&mut driver), Ok(vec![1, 2, 3, 4, 5]));
}

#[test]
fn read_reports_zero_bytes_and_leaves_buffer_alone() {
    let mut driver = WindowsDriver::new(String::from("Receipt1"));
    assert_eq!(driver.write(&[9, 8, 7]), Ok(()));
    let mut buf = [0xaa_u8; 4];
    assert_eq!(driver.read(&mut buf), Ok(0));
    assert_eq!(buf, [0xaa_u8; 4]);
    assert_eq!(flush_found(&mut driver), Ok(vec![9, 8, 7]));
}

#[test]
fn flush_drains_whole_buffer() {
    let mut driver = WindowsDriver::new(String::from("Receipt1"));
    assert_eq!(driver.write(&[0x1b, 0x40]), Ok(()));
    assert_eq!(flush_found(&mut driver), Ok(vec![0x1b, 0x40]));
    assert_eq!(flush_found(&mut driver), Ok(Vec::new()));
}

#[test]
fn flush_after_drain_carries_only_new_bytes() {
    let mut driver = WindowsDriver::new(String::from("Receipt1"));
    assert_eq!(driver.write(&[1, 2]), Ok(()));
    assert_eq!(flush_found(&mut driver), Ok(vec![1, 2]));
    assert_eq!(driver.write(&[3]), Ok(()));
    assert_eq!(flush_found(&mut driver), Ok(vec![3]));
}

#[test]
fn flush_without_printer_fails_and_keeps_buffer() {
    let mut driver = WindowsDriver::new(String::from("NoSuchPrinter"));
    assert_eq!(driver.write(&[0x78]), Ok(()));
    assert_eq!(
        flush_missing(&mut driver),
        Err(DriverError::PrinterNotFound(String::from("NoSuchPrinter")))
    );
    assert_eq!(flush_found(&mut driver), Ok(vec![0x78]));
}

#[test]
fn printer_is_looked_up_at_each_flush() {
    let mut driver = WindowsDriver::new(String::from("Receipt1"));
    assert_eq!(driver.write(&[1]), Ok(()));
    assert!(flush_missing(&mut driver).is_err());
    assert_eq!(driver.write(&[2]), Ok(()));
    assert_eq!(flush_found(&mut driver), Ok(vec![1, 2]));
    assert!(flush_missing(&mut driver).is_err());
}

#[test]
fn conclude_flush_passes_success() {
    assert_eq!(conclude_flush(Ok(())), Ok(()));
}

#[test]
fn conclude_flush_reports_rejected_job() {
    assert_eq!(
        conclude_flush(Err(String::from("spooler offline"))),
        Err(DriverError::Submission(String::from("spooler offline")))
    );
}

#[test]
fn load_holds_exactly_the_payload() {
    let mut driver = match load("Kitchen", &[7, 7, 7]) {
        Ok(driver) => driver,
        Err(error) => panic!("not loaded: {:?}", error),
    };
    assert_eq!(driver.name(), "Kitchen");
    assert_eq!(flush_found(&mut driver), Ok(vec![7, 7, 7]));
}

#[test]
fn decode_payload_decodes_standard_base64() {
    assert_eq!(decode_payload("aGVsbG8="), Ok(vec![0x68, 0x65, 0x6c, 0x6c, 0x6f]));
    assert_eq!(decode_payload(""), Ok(Vec::new()));
    assert_eq!(decode_payload("G0A="), Ok(vec![0x1b, 0x40]));
    assert_eq!(decode_payload("+/8="), Ok(vec![0xfb, 0xff]));
}

#[test]
fn decode_payload_rejects_invalid_text() {
    for text in ["a", "aGVsbG8", "aGVs bG8=", "-_8=", "aGVsbG8=\n", "!!!!", "aGVsbG9="] {
        match decode_payload(text) {
            Err(DriverError::Decode(_)) => {}
            other => panic!("{:?} gave {:?}", text, other),
        }
    }
}

#[test]
fn decode_failure_carries_the_decoder_description() {
    let expected = match STANDARD.decode("a!==") {
        Err(error) => error.to_string(),
        Ok(bytes) => panic!("decoded to {:?}", bytes),
    };
    assert!(!expected.is_empty());
    assert_ne!(expected, "a!==");
    assert_eq!(decode_payload("a!=="), Err(DriverError::Decode(expected)));
}

#[test]
fn print_hello_submits_decoded_bytes() {
    let encoded = STANDARD.encode("hello");
    assert_eq!(encoded, "aGVsbG8=");
    let mut driver = prepared("Receipt1", &encoded);
    assert_eq!(driver.name(), "Receipt1");
    let payload = flush_found(&mut driver);
    assert_eq!(payload, Ok(vec![0x68, 0x65, 0x6c, 0x6c, 0x6f]));
    assert_eq!(conclude_flush(Ok(())), Ok(()));
    assert_eq!(flush_found(&mut driver), Ok(Vec::new()));
}

#[test]
fn print_submits_any_bytes_unmodified() {
    let mut samples: Vec<Vec<u8>> = vec![
        Vec::new(),
        vec![0],
        vec![0xff],
        vec![0, 0, 0],
        vec![0x1b, 0x40, 0x0a, 0x1d, 0x56, 0x01],
        (0..=255).collect(),
    ];
    let mut long: Vec<u8> = Vec::new();
    for i in 0..5000_u32 {
        long.push((i.wrapping_mul(31) % 251) as u8);
    }
    samples.push(long);
    for bytes in samples {
        let mut driver = prepared("Receipt1", &STANDARD.encode(&bytes));
        assert_eq!(flush_found(&mut driver), Ok(bytes));
    }
}

#[test]
fn print_on_missing_printer_submits_nothing() {
    let mut driver = prepared("NoSuchPrinter", &STANDARD.encode("x"));
    assert_eq!(
        flush_missing(&mut driver),
        Err(DriverError::PrinterNotFound(String::from("NoSuchPrinter")))
    );
}

#[test]
fn print_of_invalid_base64_prepares_no_adapter() {
    match print_base64("Receipt1", "not base64!") {
        Err(DriverError::Decode(description)) => assert!(!description.is_empty()),
        Err(other) => panic!("wrong failure: {:?}", other),
        Ok(_) => panic!("an adapter was prepared"),
    }
}

#[test]
fn test_print_loads_the_fixed_receipt() {
    let expected: Vec<u8> = vec![
        0x1b, 0x40, 0x1b, 0x61, 0x01, 0x1b, 0x21, 0x30, b'T', b'E', b'S', b'T', 0x0a, 0x1b, 0x21,
        0x00, b'P', b'r', b'i', b'n', b't', b'e', b'r', 0x0a, 0x1b, 0x61, 0x00, 0x0a, 0x0a, 0x0a,
        0x1d, 0x56, 0x01,
    ];
    assert_eq!(TEST_RECEIPT.to_vec(), expected);
    let mut driver = match test_print("Receipt1") {
        Ok(driver) => driver,
        Err(error) => panic!("not prepared: {:?}", error),
    };
    assert_eq!(driver.name(), "Receipt1");
    assert_eq!(flush_found(&mut driver), Ok(expected));
}

#[test]
fn test_print_is_the_same_for_every_printer() {
    let mut payloads: Vec<Vec<u8>> = Vec::new();
    for name in ["Receipt1", "Kitchen", "", "Bar \u{e9}"] {
        for _ in 0..2 {
            let mut driver = match test_print(name) {
                Ok(driver) => driver,
                Err(error) => panic!("not prepared: {:?}", error),
            };
            match flush_found(&mut driver) {
                Ok(payload) => payloads.push(payload),
                Err(error) => panic!("not flushed: {:?}", error),
            }
        }
    }
    assert_eq!(payloads.len(), 8);
    for payload in &payloads {
        assert_eq!(payload.as_slice(), &TEST_RECEIPT[..]);
    }
}

#[test]
fn test_print_on_missing_printer_submits_nothing() {
    let mut driver = match test_print("Gone") {
        Ok(driver) => driver,
        Err(error) => panic!("not prepared: {:?}", error),
    };
    assert_eq!(flush_missing(&mut driver), Err(DriverError::PrinterNotFound(String::from("Gone"))));
}

#[test]
fn flush_hands_the_looked_up_printer_through() {
    let mut driver = WindowsDriver::new(String::from("Receipt1"));
    assert_eq!(driver.write(&[1, 2, 3]), Ok(()));
    assert_eq!(
        driver.flush(Some("handle of Receipt1")),
        Ok(PrintJob { printer: "handle of Receipt1", payload: vec![1, 2, 3] })
    );
    assert_eq!(driver.flush(Some(7_u32)), Ok(PrintJob { printer: 7_u32, payload: Vec::new() }));
}
