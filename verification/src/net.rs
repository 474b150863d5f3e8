//! Whether the device can reach the server over IPv6, judged from the
//! addresses of its own network interfaces.
use vstd::prelude::*;

verus! {

/// Whether the IPv6 address with these eight 16-bit segments is the loopback
/// address `::1`.
pub open spec fn is_loopback_v6(s: [u16; 8]) -> bool {
    s@[0] == 0 && s@[1] == 0 && s@[2] == 0 && s@[3] == 0 && s@[4] == 0 && s@[5] == 0 && s@[6] == 0
        && s@[7] == 1
}

/// Whether the IPv6 address with these segments is a unicast link-local
/// address (`fe80::/10`).
pub open spec fn is_unicast_link_local_v6(s: [u16; 8]) -> bool {
    s@[0] & 0xffc0u16 == 0xfe80u16
}

/// Whether an interface address may carry traffic beyond the device and its link.
pub open spec fn is_reachable_v6(s: [u16; 8]) -> bool {
    !is_loopback_v6(s) && !is_unicast_link_local_v6(s)
}

/// Whether the interface address `segments` may carry traffic beyond the
/// device and its link: neither loopback nor unicast link-local.
pub fn is_reachable_ipv6(segments: [u16; 8]) -> (r: bool)
    ensures
        r == is_reachable_v6(segments),
{
    let loopback = segments[0] == 0 && segments[1] == 0 && segments[2] == 0 && segments[3] == 0
        && segments[4] == 0 && segments[5] == 0 && segments[6] == 0 && segments[7] == 1;
    let link_local = segments[0] & 0xffc0u16 == 0xfe80u16;
    !loopback && !link_local
}

/// Whether any of the device's IPv6 interface addresses (given as segments)
/// is neither loopback nor unicast link-local.
pub fn has_ipv6_connectivity(addrs: &Vec<[u16; 8]>) -> (r: bool)
    ensures
        r == exists|i: int| 0 <= i < addrs@.len() && is_reachable_v6(#[trigger] addrs@[i]),
{
    let mut i: usize = 0;
    while i < addrs.len()
        invariant
            i <= addrs.len(),
            forall|j: int| 0 <= j < i ==> !is_reachable_v6(#[trigger] addrs@[j]),
        decreases addrs.len() - i,
    {
        if is_reachable_ipv6(addrs[i]) {
            return true;
        }
        i = i + 1;
    }
    false
}

} // verus!
