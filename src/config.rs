//! Interface creation and configuration: the requests each step sends and
//! the decisions taken on the kernel's answers.
use vstd::prelude::*;

use crate::abi::{
    ifreq, ifreq_image, in6_ifreq, ipv6_bytes, le16, le16_at, le16_bytes, le32, le32_at, le32_bytes,
    read_le16, read_le32, sockaddr_in_prefix, AF_INET, ARPHRD_ETHER, IN6_IFREQ_SIZE,
};
use crate::error::TunError;
use crate::name::{IfName, IFNAMSIZ};

verus! {

/// Interface exchanges IP packets.
pub const IFF_TUN: u16 = 0x0001;

/// Interface exchanges Ethernet frames.
pub const IFF_TAP: u16 = 0x0002;

/// Frames carry no packet-information header.
pub const IFF_NO_PI: u16 = 0x1000;

/// Interface is administratively up.
pub const IFF_UP: u16 = 0x0001;

/// Interface link is running.
pub const IFF_RUNNING: u16 = 0x0040;

/// The kind of virtual interface to create.
#[derive(Debug, Copy, Clone, PartialEq, Eq, Hash, Structural)]
pub enum TunTapType {
    /// IP-layer packets.
    Tun,
    /// Link-layer (Ethernet) frames.
    Tap,
}

/// The flags of the creation request for `kind`.
pub open spec fn kind_flags(kind: TunTapType) -> u16 {
    match kind {
        TunTapType::Tun => (IFF_TUN | IFF_NO_PI) as u16,
        TunTapType::Tap => (IFF_TAP | IFF_NO_PI) as u16,
    }
}

/// True when both the up and the running bit are set.
pub open spec fn is_up(f: u16) -> bool {
    &&& f & IFF_UP == IFF_UP
    &&& f & IFF_RUNNING == IFF_RUNNING
}

/// `f` with the up and running bits set.
pub open spec fn raised(f: u16) -> u16 {
    f | IFF_UP | IFF_RUNNING
}

/// The flags of the creation request for `kind`.
pub fn creation_flags(kind: TunTapType) -> (r: u16)
    ensures
        r == kind_flags(kind),
{
    match kind {
        TunTapType::Tun => IFF_TUN | IFF_NO_PI,
        TunTapType::Tap => IFF_TAP | IFF_NO_PI,
    }
}

/// The request that attaches an interface of `kind` named `name` on the
/// control device.
pub fn create_request(name: &IfName, kind: TunTapType) -> (r: [u8; 40])
    ensures
        r@ == ifreq(name@, le16(kind_flags(kind))),
{
    let f = le16_bytes(creation_flags(kind));
    ifreq_image(name, f.as_slice())
}

/// The name the kernel assigned, as left in the answered request.
pub fn assigned_name(answer: &[u8; 40]) -> (r: IfName)
    ensures
        r@ == answer@.subrange(0, IFNAMSIZ as int),
{
    let mut b = [0u8; 16];
    let mut i: usize = 0;
    while i < IFNAMSIZ
        invariant
            b@.len() == IFNAMSIZ,
            i <= IFNAMSIZ,
            forall|k: int| 0 <= k < i ==> b@[k] == answer@[k],
        decreases IFNAMSIZ - i,
    {
        b[i] = answer[i];
        i = i + 1;
    }
    assert(b@ =~= answer@.subrange(0, IFNAMSIZ as int));
    IfName::from_bytes(b)
}

/// The request that reads the flags of `name`.
pub fn flags_query(name: &IfName) -> (r: [u8; 40])
    ensures
        r@ == ifreq(name@, le16(0)),
{
    let f = le16_bytes(0);
    ifreq_image(name, f.as_slice())
}

/// The flags in an answered flags request.
pub fn flags_of(answer: &[u8; 40]) -> (r: u16)
    ensures
        r == le16_at(answer@, IFNAMSIZ as int),
{
    read_le16(answer, IFNAMSIZ)
}

/// Decides the second step of bringing `name` up, from the answer to the
/// flags query: `None` when the interface is already up and running,
/// otherwise the request that sets both bits and keeps all others.
pub fn up_step(name: &IfName, answer: &[u8; 40]) -> (r: Option<[u8; 40]>)
    ensures
        is_up(le16_at(answer@, IFNAMSIZ as int)) ==> r is None,
        !is_up(le16_at(answer@, IFNAMSIZ as int)) ==> (r matches Some(req) && req@ == ifreq(
            name@,
            le16(raised(le16_at(answer@, IFNAMSIZ as int))),
        )),
{
    let f = flags_of(answer);
    if f & IFF_UP == IFF_UP && f & IFF_RUNNING == IFF_RUNNING {
        None
    } else {
        let b = le16_bytes(f | IFF_UP | IFF_RUNNING);
        Some(ifreq_image(name, b.as_slice()))
    }
}

/// Bringing an interface up is idempotent: the raised flags count as up, so
/// a second bring-up sends no request, and raising them again changes
/// nothing. Flags that are already up are left as they are.
pub proof fn lemma_up_idempotent(f: u16)
    ensures
        is_up(raised(f)),
        raised(raised(f)) == raised(f),
        is_up(f) ==> raised(f) == f,
{
    assert(is_up(raised(f))) by (bit_vector);
    assert(raised(raised(f)) == raised(f)) by (bit_vector);
    assert(is_up(f) ==> raised(f) == f) by (bit_vector);
}

/// The request that sets the IPv4 address `octets` (in network byte order)
/// on `name`.
pub fn ipv4_request(name: &IfName, octets: [u8; 4]) -> (r: [u8; 40])
    ensures
        r@ == ifreq(name@, sockaddr_in_prefix(octets@)),
{
    let fam = le16_bytes(AF_INET);
    let tail = [fam[0], fam[1], 0u8, 0u8, octets[0], octets[1], octets[2], octets[3]];
    assert(tail@ =~= sockaddr_in_prefix(octets@));
    ifreq_image(name, tail.as_slice())
}

/// The request that looks up the index of `name`.
pub fn index_query(name: &IfName) -> (r: [u8; 40])
    ensures
        r@ == ifreq(name@, le32(0xffff_ffff)),
{
    let b = le32_bytes(0xffff_ffff);
    ifreq_image(name, b.as_slice())
}

/// The interface index in an answered index query.
pub fn index_of(answer: &[u8; 40]) -> (r: i32)
    ensures
        r == le32_at(answer@, IFNAMSIZ as int) as i32,
{
    read_le32(answer, IFNAMSIZ) as i32
}

/// The IPv6 address `segments` in network byte order.
pub fn ipv6_octets(segments: [u16; 8]) -> (r: [u8; 16])
    ensures
        r@ == ipv6_bytes(segments@),
{
    let mut out = [0u8; 16];
    let mut k: usize = 0;
    while k < 8
        invariant
            out@.len() == 16,
            k <= 8,
            forall|j: int| 0 <= j < 2 * k ==> out@[j] == ipv6_bytes(segments@)[j],
        decreases 8 - k,
    {
        out[2 * k] = (segments[k] / 256) as u8;
        out[2 * k + 1] = (segments[k] % 256) as u8;
        k = k + 1;
    }
    assert(out@ =~= ipv6_bytes(segments@));
    out
}

/// The request that adds the IPv6 address `segments` with `prefix_len` to
/// the interface whose index was answered to the index query.
///
/// Fails with `InvalidState` when the answered index is negative.
pub fn ipv6_request(index_answer: &[u8; 40], segments: [u16; 8], prefix_len: u32) -> (r: Result<
    [u8; 24],
    TunError,
>)
    ensures
        (le32_at(index_answer@, IFNAMSIZ as int) as i32) < 0 ==> r == Err::<[u8; 24], TunError>(
            TunError::InvalidState,
        ),
        (le32_at(index_answer@, IFNAMSIZ as int) as i32) >= 0 ==> (r matches Ok(req) && req@
            == in6_ifreq(
            segments@,
            prefix_len,
            le32_at(index_answer@, IFNAMSIZ as int) as i32,
        )),
{
    let index = index_of(index_answer);
    if index < 0 {
        return Err(TunError::InvalidState);
    }
    let a = ipv6_octets(segments);
    let p = le32_bytes(prefix_len);
    let x = le32_bytes(index as u32);
    let mut out = [0u8; 24];
    let mut i: usize = 0;
    while i < 16
        invariant
            out@.len() == IN6_IFREQ_SIZE,
            i <= 16,
            forall|k: int| 0 <= k < i ==> out@[k] == a@[k],
        decreases 16 - i,
    {
        out[i] = a[i];
        i = i + 1;
    }
    out[16] = p[0];
    out[17] = p[1];
    out[18] = p[2];
    out[19] = p[3];
    out[20] = x[0];
    out[21] = x[1];
    out[22] = x[2];
    out[23] = x[3];
    assert(out@ =~= in6_ifreq(segments@, prefix_len, index));
    Ok(out)
}

/// The request that sets the Ethernet hardware address `mac` on `name`.
pub fn mac_request(name: &IfName, mac: [u8; 6]) -> (r: [u8; 40])
    ensures
        r@ == ifreq(name@, le16(ARPHRD_ETHER) + mac@),
{
    let fam = le16_bytes(ARPHRD_ETHER);
    let tail = [fam[0], fam[1], mac[0], mac[1], mac[2], mac[3], mac[4], mac[5]];
    assert(tail@ =~= le16(ARPHRD_ETHER) + mac@);
    ifreq_image(name, tail.as_slice())
}

} // verus!
