//! The network address that the game is told it has.
use vstd::prelude::*;

verus! {

/// The number that four octets spell in network (big-endian) order.
pub open spec fn octets_value(octets: [u8; 4]) -> int {
    octets[0] as int * 0x100_0000 + octets[1] as int * 0x1_0000 + octets[2] as int * 0x100
        + octets[3] as int
}

/// The address as the game stores it: the big-endian number of the octets
/// read as a two's complement `i32` (as `i32::from_be_bytes` does).
pub open spec fn address_value(octets: [u8; 4]) -> int {
    if octets_value(octets) < 0x8000_0000 {
        octets_value(octets)
    } else {
        octets_value(octets) - 0x1_0000_0000
    }
}

/// The address of an IPv4 address's octets, as the game stores it.
pub fn address_from_octets(octets: [u8; 4]) -> (ip: i32)
    ensures
        ip == address_value(octets),
{
    let a = octets[0] as u32;
    let b = octets[1] as u32;
    let c = octets[2] as u32;
    let d = octets[3] as u32;
    let v: u32 = a * 0x100_0000 + b * 0x1_0000 + c * 0x100 + d;
    assert(v == octets_value(octets));
    let ip = v as i32;
    assert(ip == (if v < 0x8000_0000u32 { v as int } else { v as int - 0x1_0000_0000 })) by (bit_vector)
        requires
            ip == v as i32,
    ;
    ip
}

} // verus!
