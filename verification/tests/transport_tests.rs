use thunder_mirror::transport::{
    listen_address, TransportParams, ALPN_PROTOCOL, CERTIFICATE_NAME, DEFAULT_BIND_ADDRESS,
};

#[test]
fn streaming_parameters() {
    let p = TransportParams::streaming();
    assert_eq!(p.receive_window, 16 * 1024 * 1024);
    assert_eq!(p.stream_receive_window, 8 * 1024 * 1024);
    assert_eq!(p.datagram_receive_buffer_size, 16 * 1024 * 1024);
    assert_eq!(p.keep_alive_interval_secs, 5);
    assert_eq!(p.max_idle_timeout_secs, 60);
}

#[test]
fn names_of_the_endpoint() {
    assert_eq!(ALPN_PROTOCOL, "thunder-mirror");
    assert_eq!(CERTIFICATE_NAME, "localhost");
    assert_eq!(DEFAULT_BIND_ADDRESS, "0.0.0.0");
}

#[test]
fn listen_address_names_every_interface() {
    assert_eq!(listen_address(9999), "0.0.0.0:9999");
    assert_eq!(listen_address(0), "0.0.0.0:0");
    assert_eq!(listen_address(65535), "0.0.0.0:65535");
    assert_eq!(listen_address(80), "0.0.0.0:80");
}
