//! Picking a worker's network address out of the hypervisor's report.
//!
//! The hypervisor reports a worker's interfaces as a list of named
//! entries, each carrying typed addresses.  Resolution is best-effort
//! telemetry only: the worker is live whether or not an address is
//! found.  The rule is fixed: the first IPv4 address of the first
//! interface that bears the wanted name and has one.

use vstd::prelude::*;

verus! {

/// The hypervisor's type number for an IPv4 address.
pub const IPV4_KIND: i64 = 0;

/// One address of one interface, with the hypervisor's type numbering.
#[derive(Clone, PartialEq, Eq, Debug)]
pub struct IpAddress {
    /// The hypervisor's address-type number; zero is IPv4.
    pub kind: i64,
    /// The address text as the hypervisor reports it.
    pub addr: String,
}

/// One guest interface with its addresses, in reported order.
#[derive(Clone, PartialEq, Eq, Debug)]
pub struct NetInterface {
    /// The interface name inside the guest.
    pub name: String,
    /// The interface's addresses, in reported order.
    pub addrs: Vec<IpAddress>,
}

/// The first IPv4 address of the list, if it has one.
pub open spec fn first_v4(addrs: Seq<IpAddress>) -> Option<Seq<char>>
    decreases addrs.len(),
{
    if addrs.len() == 0 {
        None
    } else if addrs.first().kind == IPV4_KIND {
        Some(addrs.first().addr@)
    } else {
        first_v4(addrs.drop_first())
    }
}

/// The address the resolution rule picks: scanning the interfaces in
/// reported order, the first IPv4 address of the first entry that is
/// named `target` and carries one.
pub open spec fn resolved_ipv4(ifs: Seq<NetInterface>, target: Seq<char>) -> Option<Seq<char>>
    decreases ifs.len(),
{
    if ifs.len() == 0 {
        None
    } else if ifs.first().name@ == target && first_v4(ifs.first().addrs@) is Some {
        first_v4(ifs.first().addrs@)
    } else {
        resolved_ipv4(ifs.drop_first(), target)
    }
}

/// The first IPv4 address of one interface's list, if any.
fn first_ipv4_addr(addrs: &Vec<IpAddress>) -> (r: Option<String>)
    ensures
        r is Some <==> first_v4(addrs@) is Some,
        r matches Some(s) ==> Some(s@) == first_v4(addrs@),
{
    let mut i: usize = 0;
    proof {
        assert(addrs@.skip(0) =~= addrs@);
    }
    while i < addrs.len()
        invariant
            0 <= i <= addrs@.len(),
            first_v4(addrs@) == first_v4(addrs@.skip(i as int)),
        decreases addrs@.len() - i,
    {
        proof {
            assert(addrs@.skip(i as int).first() == addrs@[i as int]);
            assert(addrs@.skip(i as int).drop_first() =~= addrs@.skip(i as int + 1));
        }
        let entry = &addrs[i];
        if entry.kind == IPV4_KIND {
            return Some(entry.addr.clone());
        }
        i = i + 1;
    }
    proof {
        assert(addrs@.skip(addrs@.len() as int) =~= Seq::<IpAddress>::empty());
    }
    None
}

/// Resolves the worker's address: the first IPv4 address of the first
/// interface named `target` that has one, or nothing when no interface
/// does.
pub fn find_ipv4(interfaces: &Vec<NetInterface>, target: &String) -> (r: Option<String>)
    ensures
        r is Some <==> resolved_ipv4(interfaces@, target@) is Some,
        r matches Some(s) ==> Some(s@) == resolved_ipv4(interfaces@, target@),
{
    let mut i: usize = 0;
    proof {
        assert(interfaces@.skip(0) =~= interfaces@);
    }
    while i < interfaces.len()
        invariant
            0 <= i <= interfaces@.len(),
            resolved_ipv4(interfaces@, target@) == resolved_ipv4(
                interfaces@.skip(i as int),
                target@,
            ),
        decreases interfaces@.len() - i,
    {
        proof {
            assert(interfaces@.skip(i as int).first() == interfaces@[i as int]);
            assert(interfaces@.skip(i as int).drop_first() =~= interfaces@.skip(i as int + 1));
        }
        let entry = &interfaces[i];
        if entry.name == *target {
            let found = first_ipv4_addr(&entry.addrs);
            if found.is_some() {
                return found;
            }
        }
        i = i + 1;
    }
    proof {
        assert(interfaces@.skip(interfaces@.len() as int) =~= Seq::<NetInterface>::empty());
    }
    None
}

} // verus!
