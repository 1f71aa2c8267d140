use rawspool::enumerate::{collect_names, device_names, plan_fill, PrinterRecord, SizeQueryDecision};
use rawspool::report::{contains_name, success_message, u64_to_decimal, unavailable_listing};

fn record(name: &str) -> PrinterRecord {
    PrinterRecord { name_units: Some(name.encode_utf16().collect()) }
}

#[test]
fn zero_required_size_skips_the_fill_call() {
    assert_eq!(plan_fill(0), SizeQueryDecision::NoDevices);
}

#[test]
fn nonzero_required_size_is_used_exactly() {
    assert_eq!(plan_fill(8192), SizeQueryDecision::Fill { bytes: 8192 });
}

#[test]
fn one_name_per_record_in_order() {
    let records = vec![record("LabelPrinter1"), record("OfficeJet")];
    let names = collect_names(&records);
    assert_eq!(names, vec!["LabelPrinter1".to_string(), "OfficeJet".to_string()]);
}

#[test]
fn missing_name_becomes_placeholder() {
    let records = vec![record("LabelPrinter1"), PrinterRecord { name_units: None }];
    let names = collect_names(&records);
    assert_eq!(names, vec!["LabelPrinter1".to_string(), "Unknown Printer".to_string()]);
}

#[test]
fn malformed_utf16_decodes_lossily() {
    // An unpaired high surrogate becomes the replacement character.
    let records = vec![PrinterRecord { name_units: Some(vec![0x0041, 0xD800, 0x0042]) }];
    let names = collect_names(&records);
    assert_eq!(names, vec!["A\u{FFFD}B".to_string()]);
}

#[test]
fn empty_record_list_gives_empty_names() {
    let names = collect_names(&Vec::new());
    assert!(names.is_empty());
}

#[test]
fn failed_fill_discards_the_buffer() {
    let records = vec![record("LabelPrinter1")];
    let names = device_names(false, &records);
    assert!(names.is_empty());
}

#[test]
fn successful_fill_decodes_every_record() {
    let records = vec![record("LabelPrinter1"), record("OfficeJet")];
    let names = device_names(true, &records);
    assert_eq!(names.len(), records.len());
    assert_eq!(names, vec!["LabelPrinter1".to_string(), "OfficeJet".to_string()]);
}

#[test]
fn requested_name_found_when_present() {
    let available = vec!["LabelPrinter1".to_string(), "OfficeJet".to_string()];
    assert!(contains_name(&available, &"OfficeJet".to_string()));
}

#[test]
fn unknown_device_is_not_found_and_listing_indexes_from_one() {
    let available = vec!["LabelPrinter1".to_string(), "OfficeJet".to_string()];
    assert!(!contains_name(&available, &"ZebraZT410".to_string()));
    let listing = unavailable_listing(&available);
    assert_eq!(listing, vec!["1: LabelPrinter1".to_string(), "2: OfficeJet".to_string()]);
}

#[test]
fn listing_of_no_devices_is_empty() {
    let listing = unavailable_listing(&Vec::new());
    assert!(listing.is_empty());
}

#[test]
fn decimal_rendering_is_exact() {
    assert_eq!(u64_to_decimal(0), "0");
    assert_eq!(u64_to_decimal(9), "9");
    assert_eq!(u64_to_decimal(10), "10");
    assert_eq!(u64_to_decimal(37), "37");
    assert_eq!(u64_to_decimal(1234567890), "1234567890");
    assert_eq!(u64_to_decimal(u64::MAX), "18446744073709551615");
}

#[test]
fn success_line_spells_the_count() {
    assert_eq!(success_message(37), "wrote 37 bytes");
    assert_eq!(success_message(0), "wrote 0 bytes");
}
