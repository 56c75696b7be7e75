//! Receive side of a low-latency screen-mirroring link: wire framing, stream
//! reassembly, the bounded frame channel, colour conversion and the presenter's
//! frame handling, with machine-checked contracts.

use vstd::prelude::*;

pub mod buffer;
pub mod channel;
pub mod cli;
pub mod color;
pub mod config;
pub mod decoder;
pub mod discovery;
pub mod endian;
pub mod error;
pub mod framebuffer;
pub mod logging;
pub mod picture;
pub mod presenter;
pub mod protocol;
pub mod reassembler;
pub mod shell;
pub mod stats;
pub mod stream_laws;
pub mod telemetry;
pub mod test_pattern;
pub mod text;
pub mod transport;

verus! {

/// Library version.
pub const VERSION: &'static str = "0.2.0";

/// Default address of the sending machine on the bridge network.
pub const DEFAULT_MAC_IP: &'static str = "192.168.50.1";

/// Default address of the receiving machine on the bridge network.
pub const DEFAULT_WIN_IP: &'static str = "192.168.50.2";

/// Default streaming port.
pub const DEFAULT_PORT: u16 = 9999;

} // verus!
