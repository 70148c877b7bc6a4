use vstd::prelude::*;

use vstd::bytes::{spec_u64_to_le_bytes, u64_to_le_bytes};

verus! {

/// IPv4 address of the relay target, in host order: the loopback address
/// 127.0.0.1.
pub const RELAY_ADDRESS: u32 = 0x7f000001;

/// Port of the relay target, in host order.
pub const RELAY_PORT: u16 = 8000;

/// The fixed target of one capture loop's outbound relay connection.
/// Address and port are kept in host order; a socket layer that wants them
/// in network order gets them through the two conversions below.
#[derive(Clone, Copy, Debug, PartialEq, Eq, Structural)]
pub struct NetworkEndpoint {
    /// IPv4 address, host order.
    pub address: u32,
    /// Port, host order.
    pub port: u16,
}

impl NetworkEndpoint {
    /// The relay target every loop instance connects to.
    pub fn relay() -> (e: NetworkEndpoint)
        ensures
            e.address == RELAY_ADDRESS,
            e.port == RELAY_PORT,
    {
        NetworkEndpoint { address: RELAY_ADDRESS, port: RELAY_PORT }
    }
}

/// The relay's wire format for one forwarded frame: an eight-byte header
/// naming the frame's buffer descriptor, little-endian; the frame's bytes
/// follow it on the connection.
pub fn frame_header(descriptor: u64) -> (header: Vec<u8>)
    ensures
        header@ == spec_u64_to_le_bytes(descriptor),
        header@.len() == 8,
{
    u64_to_le_bytes(descriptor)
}

/// `port` with its two bytes swapped: on a little-endian host, the
/// network-order (big-endian) form of the port.
pub fn port_to_network_order(port: u16) -> (r: u16)
    ensures
        r == (port % 256) * 256 + port / 256,
{
    proof {
        assert((port << 8u16 | port >> 8u16) == (port % 256) * 256 + port / 256)
            by (bit_vector);
    }
    (port << 8u16) | (port >> 8u16)
}

/// `address` with its four bytes reversed: on a little-endian host, the
/// network-order (big-endian) form of the IPv4 address.
pub fn address_to_network_order(address: u32) -> (r: u32)
    ensures
        r == (address % 256) * 0x1000000 + (address / 256 % 256) * 0x10000 + (address / 0x10000
            % 256) * 256 + address / 0x1000000,
{
    proof {
        assert((address << 24u32 | (address & 0xff00) << 8u32 | (address >> 8u32) & 0xff00 | address
            >> 24u32) == (address % 256) * 0x1000000 + (address / 256 % 256) * 0x10000 + (address
            / 0x10000 % 256) * 256 + address / 0x1000000) by (bit_vector);
    }
    (address << 24u32) | ((address & 0xff00) << 8u32) | ((address >> 8u32) & 0xff00) | (address
        >> 24u32)
}

} // verus!
