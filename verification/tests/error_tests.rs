use thunder_mirror::error::Error;

#[test]
fn test_error_display() {
    let err = Error::transport("connection failed");
    assert_eq!(err.to_string(), "Transport error: connection failed");
}

#[test]
fn protocol_error_display() {
    let err = Error::protocol("bad header");
    assert!(matches!(err, Error::Protocol(_)));
    assert_eq!(err.to_string(), "Protocol error: bad header");
}

#[test]
fn config_error_display() {
    let err = Error::config("no port");
    assert!(matches!(err, Error::Config(_)));
    assert_eq!(err.to_string(), "Configuration error: no port");
}

#[test]
fn every_kind_has_its_prefix() {
    assert_eq!(Error::Capture("a".to_string()).to_string(), "Capture error: a");
    assert_eq!(Error::Encode("b".to_string()).to_string(), "Encoding error: b");
    assert_eq!(Error::Decode("c".to_string()).to_string(), "Decoding error: c");
    assert_eq!(Error::Render("d".to_string()).to_string(), "Render error: d");
    assert_eq!(Error::Io("e".to_string()).to_string(), "IO error: e");
    assert_eq!(Error::Other("f".to_string()).to_string(), "f");
}

#[test]
fn empty_message_leaves_the_prefix() {
    assert_eq!(Error::transport("").to_string(), "Transport error: ");
}
