use orchestrator::devices::parse_devices;
use orchestrator::devices::split_lines;
use orchestrator::devices::status_of_token;
use orchestrator::devices::tokenize;
use orchestrator::devices::DeviceStatus;

#[test]
fn example_output_two_records() {
    let out = "List of devices attached\nABC123\tdevice\nXYZ999\tunauthorized\n\n";
    let records = parse_devices(out);
    assert_eq!(records.len(), 2);
    assert_eq!(records[0].id, "ABC123");
    assert_eq!(records[0].status, DeviceStatus::Device);
    assert_eq!(records[0].model, None);
    assert_eq!(records[1].id, "XYZ999");
    assert_eq!(records[1].status, DeviceStatus::Unauthorized);
    assert_eq!(records[1].model, None);
}

#[test]
fn well_formed_lines_parse_one_to_one() {
    let out = "List of devices attached\na1 device\nb2 offline\nc3 unauthorized";
    let records = parse_devices(out);
    assert_eq!(records.len(), 3);
    assert_eq!(records[0].id, "a1");
    assert_eq!(records[1].id, "b2");
    assert_eq!(records[2].id, "c3");
    assert_eq!(records[0].status, DeviceStatus::Device);
    assert_eq!(records[1].status, DeviceStatus::Offline);
    assert_eq!(records[2].status, DeviceStatus::Unauthorized);
}

#[test]
fn malformed_lines_drop_only_themselves() {
    let with_noise = "header\nlonelytoken\na1 device\n\n   \nb2 offline\njusttheid";
    let clean = "header\na1 device\nb2 offline";
    let noisy_records = parse_devices(with_noise);
    let clean_records = parse_devices(clean);
    assert_eq!(noisy_records.len(), 2);
    assert_eq!(noisy_records.len(), clean_records.len());
    for (a, b) in noisy_records.iter().zip(clean_records.iter()) {
        assert_eq!(a.id, b.id);
        assert_eq!(a.status, b.status);
        assert_eq!(a.model, b.model);
    }
}

#[test]
fn unknown_status_token_maps_to_unknown() {
    let records = parse_devices("header\nzz recovery");
    assert_eq!(records.len(), 1);
    assert_eq!(records[0].status, DeviceStatus::Unknown);
    assert_eq!(status_of_token("sideload"), DeviceStatus::Unknown);
    assert_eq!(status_of_token("device"), DeviceStatus::Device);
    assert_eq!(status_of_token("offline"), DeviceStatus::Offline);
    assert_eq!(status_of_token("unauthorized"), DeviceStatus::Unauthorized);
}

#[test]
fn third_token_becomes_model_hint() {
    let records = parse_devices("header\nABC device model:Pixel_3 extra:ignored");
    assert_eq!(records.len(), 1);
    assert_eq!(records[0].model.as_deref(), Some("Pixel_3"));
    // A third token without the key is taken as the model itself.
    let plain = parse_devices("header\nABC device (Nexus)");
    assert_eq!(plain[0].model.as_deref(), Some("(Nexus)"));
}

#[test]
fn empty_and_header_only_output_yield_nothing() {
    assert_eq!(parse_devices("").len(), 0);
    assert_eq!(parse_devices("List of devices attached").len(), 0);
    assert_eq!(parse_devices("List of devices attached\n").len(), 0);
}

#[test]
fn carriage_returns_are_token_separators() {
    let records = parse_devices("header\r\nABC\tdevice\r\n");
    assert_eq!(records.len(), 1);
    assert_eq!(records[0].id, "ABC");
    assert_eq!(records[0].status, DeviceStatus::Device);
}

#[test]
fn split_lines_counts_separators() {
    assert_eq!(split_lines(""), vec![""]);
    assert_eq!(split_lines("a\nb"), vec!["a", "b"]);
    assert_eq!(split_lines("a\nb\n"), vec!["a", "b", ""]);
    assert_eq!(split_lines("\n\n"), vec!["", "", ""]);
}

#[test]
fn tokenize_collapses_whitespace_runs() {
    assert_eq!(tokenize("  a \t b  "), vec!["a", "b"]);
    assert_eq!(tokenize(""), Vec::<String>::new());
    assert_eq!(tokenize(" \t\r "), Vec::<String>::new());
    assert_eq!(tokenize("one"), vec!["one"]);
}
