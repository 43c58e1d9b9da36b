//! Netmasks from prefix lengths.
use vstd::prelude::*;
use crate::endpoint::{Endpoint, IpAddress};
use crate::record::AddressFamily;

verus! {

/// The octet whose `n` highest bits are set and whose other bits are clear.
/// Eight or more gives 255.
pub open spec fn high_bits8(n: u8) -> u8 {
    if n == 0 {
        0u8
    } else if n >= 8 {
        255u8
    } else {
        255u8 << ((8 - n) as u8)
    }
}

/// Bit `j` of an octet, counted from the highest (bit 0) to the lowest (bit 7).
pub open spec fn bit8(o: u8, j: u8) -> bool {
    (o >> ((7 - j) as u8)) & 1u8 == 1u8
}

/// How many bits of the unit at `idx` a prefix of `bits` bits reaches, where
/// each unit is `width` bits wide: between nothing and the whole unit.
pub open spec fn covered(bits: u8, idx: int, width: int) -> u8 {
    if bits >= idx * width + width {
        width as u8
    } else if bits > idx * width {
        (bits - idx * width) as u8
    } else {
        0u8
    }
}

/// The IPv4 netmask with `bits` leading one-bits, octet by octet: 255 where
/// the prefix covers the whole octet, the octet's highest bits where the
/// prefix ends inside it, and 0 where the prefix does not reach it.
pub open spec fn spec_netmask_v4(bits: u8) -> [u8; 4] {
    [
        high_bits8(covered(bits, 0, 8)),
        high_bits8(covered(bits, 1, 8)),
        high_bits8(covered(bits, 2, 8)),
        high_bits8(covered(bits, 3, 8)),
    ]
}

/// Bit `i` of four octets read as one 32-bit pattern, highest bit first.
pub open spec fn v4_bit(octets: Seq<u8>, i: int) -> bool {
    bit8(octets[i / 8], (i % 8) as u8)
}

proof fn lemma_high_bits8(n: u8, j: u8)
    by (bit_vector)
    requires
        n <= 8,
        j < 8,
    ensures
        bit8(high_bits8(n), j) <==> j < n,
{
}

/// The IPv4 netmask of any prefix length has exactly that many leading
/// one-bits, and zero-bits after them: bit `i` of its 32 bits is set if and
/// only if `i` is below the length.
pub proof fn lemma_netmask_v4_leading_ones(bits: u8)
    ensures
        forall|i: int| 0 <= i < 32 ==> (#[trigger] v4_bit(spec_netmask_v4(bits)@, i) <==> i < bits),
{
    let mask = spec_netmask_v4(bits)@;
    assert forall|i: int| 0 <= i < 32 implies (#[trigger] v4_bit(mask, i) <==> i < bits) by {
        lemma_high_bits8(covered(bits, i / 8, 8), (i % 8) as u8);
    }
}

fn octet_of_prefix(bits: u8, idx: u8) -> (r: u8)
    requires
        idx < 4,
    ensures
        r == high_bits8(covered(bits, idx as int, 8)),
{
    let start: u8 = idx * 8;
    if bits >= start + 8 {
        255
    } else if bits > start {
        255u8 << (8 - (bits - start))
    } else {
        0
    }
}

/// The IPv4 netmask of a prefix length: `bits` one-bits, then zero-bits. A
/// length above 32 fills all four octets.
pub fn netmask_v4(bits: u8) -> (r: [u8; 4])
    ensures
        r == spec_netmask_v4(bits),
        forall|i: int| 0 <= i < 32 ==> (#[trigger] v4_bit(r@, i) <==> i < bits),
{
    let r = [
        octet_of_prefix(bits, 0),
        octet_of_prefix(bits, 1),
        octet_of_prefix(bits, 2),
        octet_of_prefix(bits, 3),
    ];
    proof {
        assert(r@ =~= spec_netmask_v4(bits)@);
        lemma_netmask_v4_leading_ones(bits);
    }
    r
}

/// The sixteen-bit group whose `n` highest bits are set and whose other bits
/// are clear. Sixteen or more gives 0xffff.
pub open spec fn high_bits16(n: u8) -> u16 {
    if n == 0 {
        0u16
    } else if n >= 16 {
        0xffffu16
    } else {
        0xffffu16 << ((16 - n) as u16)
    }
}

/// Bit `j` of a group, counted from the highest (bit 0) to the lowest (bit 15).
pub open spec fn bit16(g: u16, j: u8) -> bool {
    (g >> ((15 - j) as u16)) & 1u16 == 1u16
}

/// The IPv6 netmask with `bits` leading one-bits, group by group: 0xffff
/// where the prefix covers the whole group, the group's highest bits where
/// the prefix ends inside it, and 0 where the prefix does not reach it.
pub open spec fn spec_netmask_v6(bits: u8) -> [u16; 8] {
    [
        high_bits16(covered(bits, 0, 16)),
        high_bits16(covered(bits, 1, 16)),
        high_bits16(covered(bits, 2, 16)),
        high_bits16(covered(bits, 3, 16)),
        high_bits16(covered(bits, 4, 16)),
        high_bits16(covered(bits, 5, 16)),
        high_bits16(covered(bits, 6, 16)),
        high_bits16(covered(bits, 7, 16)),
    ]
}

/// Bit `i` of eight groups read as one 128-bit pattern, highest bit first.
pub open spec fn v6_bit(groups: Seq<u16>, i: int) -> bool {
    bit16(groups[i / 16], (i % 16) as u8)
}

proof fn lemma_high_bits16(n: u8, j: u8)
    by (bit_vector)
    requires
        n <= 16,
        j < 16,
    ensures
        bit16(high_bits16(n), j) <==> j < n,
{
}

/// The IPv6 netmask of any prefix length has exactly that many leading
/// one-bits, and zero-bits after them: bit `i` of its 128 bits is set if and
/// only if `i` is below the length.
pub proof fn lemma_netmask_v6_leading_ones(bits: u8)
    ensures
        forall|i: int|
            0 <= i < 128 ==> (#[trigger] v6_bit(spec_netmask_v6(bits)@, i) <==> i < bits),
{
    let mask = spec_netmask_v6(bits)@;
    assert forall|i: int| 0 <= i < 128 implies (#[trigger] v6_bit(mask, i) <==> i < bits) by {
        lemma_high_bits16(covered(bits, i / 16, 16), (i % 16) as u8);
    }
}

fn group_of_prefix(bits: u8, idx: u8) -> (r: u16)
    requires
        idx < 8,
    ensures
        r == high_bits16(covered(bits, idx as int, 16)),
{
    let start: u8 = idx * 16;
    if bits as u16 >= start as u16 + 16 {
        0xffff
    } else if bits > start {
        0xffffu16 << (16 - (bits - start) as u16)
    } else {
        0
    }
}

/// The IPv6 netmask of a prefix length: `bits` one-bits, then zero-bits. A
/// length above 128 fills all eight groups.
pub fn netmask_v6(bits: u8) -> (r: [u16; 8])
    ensures
        r == spec_netmask_v6(bits),
        forall|i: int| 0 <= i < 128 ==> (#[trigger] v6_bit(r@, i) <==> i < bits),
{
    let r = [
        group_of_prefix(bits, 0),
        group_of_prefix(bits, 1),
        group_of_prefix(bits, 2),
        group_of_prefix(bits, 3),
        group_of_prefix(bits, 4),
        group_of_prefix(bits, 5),
        group_of_prefix(bits, 6),
        group_of_prefix(bits, 7),
    ];
    proof {
        assert(r@ =~= spec_netmask_v6(bits)@);
        lemma_netmask_v6_leading_ones(bits);
    }
    r
}

/// The netmask that a prefix length stands for in an address family: an
/// IPv4 mask with port zero for up to 32 bits of an IPv4 address, an IPv6
/// mask with port zero for up to 128 bits of an IPv6 address, and nothing
/// otherwise.
pub open spec fn spec_get_netmask(bits: u8, family: AddressFamily) -> Option<Endpoint> {
    match family {
        AddressFamily::IPv4 if bits <= 32 => Some(
            Endpoint { ip: IpAddress::V4(spec_netmask_v4(bits)), port: 0 },
        ),
        AddressFamily::IPv6 if bits <= 128 => Some(
            Endpoint { ip: IpAddress::V6(spec_netmask_v6(bits)), port: 0 },
        ),
        _ => None,
    }
}

/// The netmask of an address with an on-link prefix of `bits` bits, as an
/// endpoint of the address's own family with port zero. A length beyond the
/// family's range, or a family that has no netmask, gives `None`: a mask is
/// never cut short and never guessed.
pub fn get_netmask(bits: u8, family: AddressFamily) -> (r: Option<Endpoint>)
    ensures
        r == spec_get_netmask(bits, family),
        bits > 128 ==> r is None,
{
    match family {
        AddressFamily::IPv4 => {
            if bits <= 32 {
                Some(Endpoint::new(IpAddress::V4(netmask_v4(bits)), 0))
            } else {
                None
            }
        },
        AddressFamily::IPv6 => {
            if bits <= 128 {
                Some(Endpoint::new(IpAddress::V6(netmask_v6(bits)), 0))
            } else {
                None
            }
        },
        _ => None,
    }
}

} // verus!
