//! What the transport endpoint is set up with. The endpoint itself, its
//! sockets and its TLS session belong to the program around this library;
//! the numbers that it is configured with are stated here.

use vstd::prelude::*;

use crate::error::{decimal_digits, text_with_number};

verus! {

/// The application protocol that both ends name in the TLS handshake.
pub const ALPN_PROTOCOL: &'static str = "thunder-mirror";

/// The name that the endpoint's self-signed certificate is made out to.
pub const CERTIFICATE_NAME: &'static str = "localhost";

/// The address that the endpoint binds to unless told otherwise.
pub const DEFAULT_BIND_ADDRESS: &'static str = "0.0.0.0";

/// The transport parameters of an endpoint.
#[derive(Debug, Clone, Copy, PartialEq, Eq, Structural)]
pub struct TransportParams {
    /// Receive window of a connection, in bytes.
    pub receive_window: u32,
    /// Receive window of one stream, in bytes.
    pub stream_receive_window: u32,
    /// Receive buffer for unreliable datagrams, in bytes.
    pub datagram_receive_buffer_size: usize,
    /// Seconds between keep-alive probes.
    pub keep_alive_interval_secs: u64,
    /// Seconds without a packet after which the connection is closed.
    pub max_idle_timeout_secs: u64,
}

impl TransportParams {
    /// The parameters for high-bandwidth, low-latency streaming: a 16 MiB
    /// connection window, an 8 MiB stream window, a 16 MiB datagram buffer,
    /// keep-alive every 5 seconds, idle timeout after 60.
    pub fn streaming() -> (p: TransportParams)
        ensures
            p == (TransportParams {
                receive_window: 0x100_0000,
                stream_receive_window: 0x80_0000,
                datagram_receive_buffer_size: 0x100_0000,
                keep_alive_interval_secs: 5,
                max_idle_timeout_secs: 60,
            }),
    {
        TransportParams {
            receive_window: 0x100_0000,
            stream_receive_window: 0x80_0000,
            datagram_receive_buffer_size: 0x100_0000,
            keep_alive_interval_secs: 5,
            max_idle_timeout_secs: 60,
        }
    }
}

/// The socket address, as text, on which the endpoint listens for `port` on
/// every interface.
pub fn listen_address(port: u16) -> (address: String)
    ensures
        address@ == "0.0.0.0:"@ + decimal_digits(port as nat),
{
    text_with_number("0.0.0.0:", port as u64)
}

} // verus!
