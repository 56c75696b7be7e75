//! Rules of service advertisement that do not touch the network: what the
//! service is called, and which of the machine's addresses are advertised.

use vstd::prelude::*;

verus! {

/// The service type under which a receiver is advertised.
pub const SERVICE_TYPE: &'static str = "_thunder-mirror._udp.local.";

/// The name under which a receiver is advertised when the machine's host
/// name cannot be had.
pub const FALLBACK_SERVICE_NAME: &'static str = "ThunderMirror-Receiver";

/// Whether an IPv4 address is a loopback address: one in 127.0.0.0/8.
pub open spec fn is_loopback(address: [u8; 4]) -> bool {
    address[0] == 127
}

/// The addresses that are advertised, of the addresses of the machine's
/// interfaces in the order given: every IPv4 address that is no loopback
/// address. An interface without an IPv4 address stands as `None`.
pub open spec fn advertised(interfaces: Seq<Option<[u8; 4]>>) -> Seq<[u8; 4]>
    decreases interfaces.len(),
{
    if interfaces.len() == 0 {
        Seq::empty()
    } else {
        let before = advertised(interfaces.drop_last());
        match interfaces.last() {
            Some(address) => if is_loopback(address) {
                before
            } else {
                before.push(address)
            },
            None => before,
        }
    }
}

/// Picks the addresses to advertise. Link-local addresses are kept: a
/// direct cable between two machines has no others.
pub fn advertised_addresses(interfaces: &Vec<Option<[u8; 4]>>) -> (addresses: Vec<[u8; 4]>)
    ensures
        addresses@ == advertised(interfaces@),
{
    let mut addresses: Vec<[u8; 4]> = Vec::new();
    let mut i: usize = 0;
    while i < interfaces.len()
        invariant
            i <= interfaces@.len(),
            addresses@ == advertised(interfaces@.take(i as int)),
        decreases interfaces@.len() - i,
    {
        assert(interfaces@.take(i + 1).drop_last() =~= interfaces@.take(i as int));
        match interfaces[i] {
            Some(address) => {
                if address[0] != 127 {
                    addresses.push(address);
                }
            },
            None => {},
        }
        i = i + 1;
    }
    assert(interfaces@.take(i as int) =~= interfaces@);
    addresses
}

/// The host name under which a service of the given name is advertised.
pub fn host_name(service_name: &str) -> (name: String)
    ensures
        name@ == service_name@ + ".local."@,
{
    String::from_str(service_name).concat(".local.")
}

} // verus!
