//! Byte images of the kernel's control requests, for Linux on little-endian
//! targets.
//!
//! `struct ifreq` is 40 bytes: the 16-byte name, then a 24-byte union whose
//! used part depends on the request. `struct in6_ifreq` is 24 bytes: the
//! 16-byte address, the prefix length and the interface index.
use vstd::prelude::*;

use crate::name::{IfName, IFNAMSIZ};

verus! {

/// Size of `struct ifreq`.
pub const IFREQ_SIZE: usize = 40;

/// Size of `struct in6_ifreq`.
pub const IN6_IFREQ_SIZE: usize = 24;

/// Address family of IPv4 sockets.
pub const AF_INET: u16 = 2;

/// Address family of IPv6 sockets.
pub const AF_INET6: u16 = 10;

/// Hardware type of Ethernet addresses.
pub const ARPHRD_ETHER: u16 = 1;

/// Attach or allocate a TUN/TAP interface on the control device.
pub const TUNSETIFF: u64 = 0x400454ca;

/// Read the interface flags.
pub const SIOCGIFFLAGS: u64 = 0x8913;

/// Write the interface flags.
pub const SIOCSIFFLAGS: u64 = 0x8914;

/// Set an interface address.
pub const SIOCSIFADDR: u64 = 0x8916;

/// Set the hardware address.
pub const SIOCSIFHWADDR: u64 = 0x8924;

/// Look up the interface index.
pub const SIOCGIFINDEX: u64 = 0x8933;

/// A 16-bit value in little-endian byte order.
pub open spec fn le16(v: u16) -> Seq<u8> {
    seq![(v % 256) as u8, (v / 256) as u8]
}

/// A 32-bit value in little-endian byte order.
pub open spec fn le32(v: u32) -> Seq<u8> {
    seq![(v % 256) as u8, ((v / 256) % 256) as u8, ((v / 65536) % 256) as u8, (v / 16777216) as u8]
}

/// The 16-bit little-endian value at `at`.
pub open spec fn le16_at(b: Seq<u8>, at: int) -> u16 {
    (b[at] + 256 * b[at + 1]) as u16
}

/// The 32-bit little-endian value at `at`.
pub open spec fn le32_at(b: Seq<u8>, at: int) -> u32 {
    (b[at] + 256 * b[at + 1] + 65536 * b[at + 2] + 16777216 * b[at + 3]) as u32
}

/// An `ifreq` image: the name, then `tail`, then zeros.
pub open spec fn ifreq(name: Seq<u8>, tail: Seq<u8>) -> Seq<u8> {
    Seq::new(
        IFREQ_SIZE as nat,
        |i: int|
            if i < IFNAMSIZ {
                name[i]
            } else if i - IFNAMSIZ < tail.len() {
                tail[i - IFNAMSIZ]
            } else {
                0u8
            },
    )
}

/// The bytes of a `sockaddr_in` for `octets`, port zero, up to the address.
pub open spec fn sockaddr_in_prefix(octets: Seq<u8>) -> Seq<u8> {
    le16(AF_INET) + seq![0u8, 0u8] + octets
}

/// An IPv6 address in network byte order: each segment high byte first.
pub open spec fn ipv6_bytes(segments: Seq<u16>) -> Seq<u8> {
    Seq::new(
        16,
        |i: int|
            if i % 2 == 0 {
                (segments[i / 2] / 256) as u8
            } else {
                (segments[i / 2] % 256) as u8
            },
    )
}

/// An `in6_ifreq` image.
pub open spec fn in6_ifreq(segments: Seq<u16>, prefix_len: u32, index: i32) -> Seq<u8> {
    ipv6_bytes(segments) + le32(prefix_len) + le32(index as u32)
}

/// Builds an `ifreq` image from a name and the bytes of the union.
pub fn ifreq_image(name: &IfName, tail: &[u8]) -> (r: [u8; 40])
    requires
        tail@.len() <= IFREQ_SIZE - IFNAMSIZ,
    ensures
        r@ == ifreq(name@, tail@),
{
    let nb = name.as_bytes();
    let mut out = [0u8; 40];
    let mut i: usize = 0;
    while i < IFNAMSIZ
        invariant
            nb@ == name@,
            nb@.len() == IFNAMSIZ,
            out@.len() == IFREQ_SIZE,
            i <= IFNAMSIZ,
            forall|k: int| 0 <= k < i ==> out@[k] == nb@[k],
            forall|k: int| i <= k < IFREQ_SIZE ==> out@[k] == 0u8,
        decreases IFNAMSIZ - i,
    {
        out[i] = nb[i];
        i = i + 1;
    }
    let mut j: usize = 0;
    while j < tail.len()
        invariant
            nb@ == name@,
            tail@.len() <= IFREQ_SIZE - IFNAMSIZ,
            out@.len() == IFREQ_SIZE,
            j <= tail@.len(),
            forall|k: int| 0 <= k < IFNAMSIZ ==> out@[k] == nb@[k],
            forall|k: int| 0 <= k < j ==> out@[IFNAMSIZ + k] == tail@[k],
            forall|k: int| IFNAMSIZ + j <= k < IFREQ_SIZE ==> out@[k] == 0u8,
        decreases tail@.len() - j,
    {
        out[IFNAMSIZ + j] = tail[j];
        j = j + 1;
    }
    assert(out@ =~= ifreq(name@, tail@));
    out
}

/// The little-endian bytes of a 16-bit value.
pub fn le16_bytes(v: u16) -> (r: [u8; 2])
    ensures
        r@ == le16(v),
{
    let r = [(v % 256) as u8, (v / 256) as u8];
    assert(r@ =~= le16(v));
    r
}

/// The little-endian bytes of a 32-bit value.
pub fn le32_bytes(v: u32) -> (r: [u8; 4])
    ensures
        r@ == le32(v),
{
    let r = [(v % 256) as u8, ((v / 256) % 256) as u8, ((v / 65536) % 256) as u8, (v / 16777216) as u8];
    assert(r@ =~= le32(v));
    r
}

/// Reads the 16-bit little-endian value at `at`.
pub fn read_le16(b: &[u8; 40], at: usize) -> (r: u16)
    requires
        at + 2 <= IFREQ_SIZE,
    ensures
        r == le16_at(b@, at as int),
{
    (b[at] as u16) + (b[at + 1] as u16) * 256
}

/// Reads the 32-bit little-endian value at `at`.
pub fn read_le32(b: &[u8; 40], at: usize) -> (r: u32)
    requires
        at + 4 <= IFREQ_SIZE,
    ensures
        r == le32_at(b@, at as int),
{
    (b[at] as u32) + (b[at + 1] as u32) * 256 + (b[at + 2] as u32) * 65536 + (b[at + 3] as u32)
        * 16777216
}

} // verus!
