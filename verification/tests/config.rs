use noctis_dicom::config::{parse_port, Config, ConfigError, DEFAULT_PORT};

fn owned(text: &str) -> Option<String> {
    Some(text.to_string())
}

#[test]
fn port_of_plain_digits() {
    assert_eq!(parse_port("11112"), Some(11112));
    assert_eq!(parse_port("104"), Some(104));
    assert_eq!(parse_port("0"), Some(0));
}

#[test]
fn port_takes_one_leading_plus() {
    assert_eq!(parse_port("+80"), Some(80));
    assert_eq!(parse_port("++80"), None);
    assert_eq!(parse_port("+"), None);
    assert_eq!(parse_port("8+0"), None);
}

#[test]
fn port_takes_leading_zeros() {
    assert_eq!(parse_port("00080"), Some(80));
    assert_eq!(parse_port("0000000000000000000000000000000000065535"), Some(65535));
}

#[test]
fn port_at_the_upper_bound() {
    assert_eq!(parse_port("65535"), Some(65535));
    assert_eq!(parse_port("65536"), None);
    assert_eq!(parse_port("70000"), None);
    assert_eq!(parse_port("99999999999999999999999999"), None);
    assert_eq!(parse_port("4294967296"), None);
    assert_eq!(parse_port("4294967376"), None);
}

#[test]
fn port_refuses_what_is_no_number() {
    assert_eq!(parse_port(""), None);
    assert_eq!(parse_port("-1"), None);
    assert_eq!(parse_port("-0"), None);
    assert_eq!(parse_port(" 80"), None);
    assert_eq!(parse_port("80 "), None);
    assert_eq!(parse_port("8_0"), None);
    assert_eq!(parse_port("0x50"), None);
    assert_eq!(parse_port("80.0"), None);
    assert_eq!(parse_port("dicom"), None);
    assert_eq!(parse_port("\u{ff11}\u{ff12}"), None);
    assert_eq!(parse_port("\u{0661}"), None);
    assert_eq!(parse_port("65536x"), None);
}

#[test]
fn port_agrees_with_the_standard_parser() {
    let samples = [
        "", "+", "-", "0", "+0", "-0", "1", "+1", "01", "11112", "65535", "65536", "655350",
        "065535", "+65535", "+65536", "12a", "a12", "1 2", "\t1", "1\n", "+-1", "-+1", "١٢٣",
        "18446744073709551616", "000000000000000000000000", "４２", "4 2", "42 ", "0x2A",
    ];
    for sample in samples {
        assert_eq!(parse_port(sample), sample.parse::<u16>().ok(), "{:?}", sample);
    }
    for number in 0..=70000u32 {
        let text = format!("{}", number);
        assert_eq!(parse_port(&text), text.parse::<u16>().ok());
    }
}

#[test]
fn unset_options_take_their_defaults() {
    let config = Config::resolve(None, None, None, None).unwrap();
    assert_eq!(config.port, 11112);
    assert_eq!(config.port, DEFAULT_PORT);
    assert_eq!(config.local_title, "NOCTIS_SCP");
    assert_eq!(config.endpoint, "http://127.0.0.1:9000/dicom/ingest");
    assert_eq!(config.storage_root, "./media/dicom/received");
}

#[test]
fn set_options_are_taken_as_they_are() {
    let config = Config::resolve(
        owned("4242"),
        owned("ARCHIVE"),
        owned("http://gateway:8080/ingest"),
        owned("/var/lib/dicom"),
    )
    .unwrap();
    assert_eq!(config.port, 4242);
    assert_eq!(config.local_title, "ARCHIVE");
    assert_eq!(config.endpoint, "http://gateway:8080/ingest");
    assert_eq!(config.storage_root, "/var/lib/dicom");
}

#[test]
fn some_options_set_and_some_unset() {
    let config = Config::resolve(None, owned(""), None, owned("store")).unwrap();
    assert_eq!(config.port, 11112);
    assert_eq!(config.local_title, "");
    assert_eq!(config.endpoint, "http://127.0.0.1:9000/dicom/ingest");
    assert_eq!(config.storage_root, "store");
}

#[test]
fn invalid_port_is_an_error() {
    for text in ["", "port", "-5", "65536", " 104", "104 ", "1e3"] {
        let resolved = Config::resolve(owned(text), None, None, None);
        assert!(matches!(resolved, Err(ConfigError::InvalidPort)), "{:?}", text);
    }
}

#[test]
fn port_zero_is_a_port() {
    let config = Config::resolve(owned("0"), None, None, None).unwrap();
    assert_eq!(config.port, 0);
}
