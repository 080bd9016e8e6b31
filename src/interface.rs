//! Snapshots of network interfaces and the choice of the one to capture on.
use vstd::prelude::*;

use crate::error::CaptureError;

verus! {

/// An IP address as assigned to an interface.
#[derive(Clone, Copy, Debug, PartialEq, Eq)]
pub enum IpAddress {
    V4([u8; 4]),
    V6([u16; 8]),
}

/// An assigned address together with its network prefix length.
#[derive(Clone, Copy, Debug, PartialEq, Eq)]
pub struct IpPrefix {
    pub address: IpAddress,
    pub prefix: u8,
}

/// What the system reports of one network interface at enumeration time.
#[derive(Clone, Debug)]
pub struct InterfaceInfo {
    /// Unique among the interfaces of one enumeration.
    pub name: String,
    pub ips: Vec<IpPrefix>,
    /// As reported; not trusted for selection.
    pub is_up: bool,
    pub is_loopback: bool,
}

/// An interface is fit for capture when it is not loopback and has at least
/// one assigned address. The up-flag plays no part.
pub open spec fn usable(iface: InterfaceInfo) -> bool {
    !iface.is_loopback && iface.ips@.len() > 0
}

/// Index of the first usable interface at or after `start`.
pub open spec fn first_usable_from(ifaces: Seq<InterfaceInfo>, start: int) -> Option<int>
    decreases ifaces.len() - start,
{
    if start < 0 || start >= ifaces.len() {
        None
    } else if usable(ifaces[start]) {
        Some(start)
    } else {
        first_usable_from(ifaces, start + 1)
    }
}

/// Index of the first usable interface, in enumeration order.
pub open spec fn first_usable(ifaces: Seq<InterfaceInfo>) -> Option<int> {
    first_usable_from(ifaces, 0)
}

/// Picks the interface to capture on: the first, in the order given, that is
/// not loopback and has an address. Fails with `NoUsableInterface` when none is.
pub fn select_capture_interface(interfaces: &Vec<InterfaceInfo>) -> (r: Result<
    &InterfaceInfo,
    CaptureError,
>)
    ensures
        r is Ok <==> first_usable(interfaces@) is Some,
        r matches Ok(chosen) ==> *chosen == interfaces@[first_usable(interfaces@)->Some_0],
        r matches Err(e) ==> e == CaptureError::NoUsableInterface,
{
    let mut i: usize = 0;
    while i < interfaces.len()
        invariant
            i <= interfaces@.len(),
            first_usable_from(interfaces@, i as int) == first_usable(interfaces@),
        decreases interfaces@.len() - i,
    {
        let iface = &interfaces[i];
        if !iface.is_loopback && iface.ips.len() > 0 {
            return Ok(iface);
        }
        i += 1;
    }
    Err(CaptureError::NoUsableInterface)
}

proof fn lemma_first_usable_from_is_first(ifaces: Seq<InterfaceInfo>, start: int)
    requires
        0 <= start <= ifaces.len(),
    ensures
        match first_usable_from(ifaces, start) {
            Some(i) => start <= i < ifaces.len() && usable(ifaces[i]) && forall|j: int|
                start <= j < i ==> !usable(#[trigger] ifaces[j]),
            None => forall|j: int| start <= j < ifaces.len() ==> !usable(#[trigger] ifaces[j]),
        },
    decreases ifaces.len() - start,
{
    if start < ifaces.len() && !usable(ifaces[start]) {
        lemma_first_usable_from_is_first(ifaces, start + 1);
    }
}

/// Selection is first match: the chosen index holds a usable interface and
/// every interface before it is unusable; with no choice, none is usable.
pub proof fn lemma_first_usable_is_first(ifaces: Seq<InterfaceInfo>)
    ensures
        match first_usable(ifaces) {
            Some(i) => 0 <= i < ifaces.len() && usable(ifaces[i]) && forall|j: int|
                0 <= j < i ==> !usable(#[trigger] ifaces[j]),
            None => forall|j: int| 0 <= j < ifaces.len() ==> !usable(#[trigger] ifaces[j]),
        },
{
    lemma_first_usable_from_is_first(ifaces, 0);
}

/// A list of loopback interfaces only, or of address-less interfaces only,
/// yields no choice.
pub proof fn lemma_no_usable_interface(ifaces: Seq<InterfaceInfo>)
    requires
        (forall|i: int| 0 <= i < ifaces.len() ==> (#[trigger] ifaces[i]).is_loopback) || (forall|
            i: int,
        |
            0 <= i < ifaces.len() ==> (#[trigger] ifaces[i]).ips@.len() == 0),
    ensures
        first_usable(ifaces) is None,
{
    lemma_first_usable_is_first(ifaces);
    if let Some(i) = first_usable(ifaces) {
        assert(usable(ifaces[i]));
    }
}

/// Between a loopback interface with an address, an addressed non-loopback
/// interface and a non-loopback interface without addresses, the second is
/// chosen, whatever the up-flags say.
pub proof fn lemma_skips_loopback_and_unaddressed(
    loopback: InterfaceInfo,
    addressed: InterfaceInfo,
    unaddressed: InterfaceInfo,
)
    requires
        loopback.is_loopback,
        loopback.ips@.len() > 0,
        !addressed.is_loopback,
        addressed.ips@.len() > 0,
        !unaddressed.is_loopback,
        unaddressed.ips@.len() == 0,
    ensures
        first_usable(seq![loopback, addressed, unaddressed]) == Some(1int),
{
    let s = seq![loopback, addressed, unaddressed];
    assert(!usable(s[0]) && usable(s[1]));
    assert(first_usable_from(s, 1) == Some(1int));
}

/// Two lists that differ only in up-flags yield the same choice.
pub proof fn lemma_up_flag_ignored(a: Seq<InterfaceInfo>, b: Seq<InterfaceInfo>)
    requires
        a.len() == b.len(),
        forall|i: int|
            0 <= i < a.len() ==> (#[trigger] a[i]).name == b[i].name && a[i].ips == b[i].ips
                && a[i].is_loopback == b[i].is_loopback,
    ensures
        first_usable(a) == first_usable(b),
{
    lemma_first_usable_is_first(a);
    lemma_first_usable_is_first(b);
    assert forall|j: int| 0 <= j < a.len() implies usable(#[trigger] a[j]) == usable(b[j]) by {
        assert(a[j].ips == b[j].ips);
    }
    match (first_usable(a), first_usable(b)) {
        (Some(i), Some(k)) => {
            if i < k {
                assert(usable(b[i]));
            } else if k < i {
                assert(usable(a[k]));
            }
        },
        (Some(i), None) => {
            assert(usable(b[i]));
        },
        (None, Some(k)) => {
            assert(usable(a[k]));
        },
        (None, None) => {},
    }
}

} // verus!
