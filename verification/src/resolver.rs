//! Name resolution: which of the addresses of a host are used, and in what
//! order.

use crate::error::Error;
use vstd::prelude::*;

verus! {

/// Which kinds of address the resolver hands out, and in what order.
#[derive(Debug, Clone, Copy, PartialEq, Eq, Structural)]
pub enum IpFamily {
    /// Both kinds, in the order in which the lookup gave them.
    Any,
    /// IPv4 addresses only.
    Ipv4Only,
    /// IPv6 addresses only.
    Ipv6Only,
    /// Both kinds, IPv6 addresses first.
    Ipv6ThenIpv4,
    /// Both kinds, IPv4 addresses first.
    Ipv4ThenIpv6,
}

/// A socket address as plain values.
#[derive(Debug, Clone, Copy, PartialEq, Eq)]
pub enum SocketAddr {
    V4 { octets: [u8; 4], port: u16 },
    V6 { segments: [u16; 8], port: u16 },
}

/// The addresses of `addrs` that are IPv6, where `v6`, or IPv4, where not,
/// in their order.
pub open spec fn of_kind(addrs: Seq<SocketAddr>, v6: bool) -> Seq<SocketAddr>
    decreases addrs.len(),
{
    if addrs.len() == 0 {
        Seq::empty()
    } else if (addrs.last() is V6) == v6 {
        of_kind(addrs.drop_last(), v6).push(addrs.last())
    } else {
        of_kind(addrs.drop_last(), v6)
    }
}

impl IpFamily {
    /// What is handed out of the addresses that a lookup gave.
    pub open spec fn wanted(self, addrs: Seq<SocketAddr>) -> Seq<SocketAddr> {
        match self {
            IpFamily::Any => addrs,
            IpFamily::Ipv4Only => of_kind(addrs, false),
            IpFamily::Ipv6Only => of_kind(addrs, true),
            IpFamily::Ipv6ThenIpv4 => of_kind(addrs, true) + of_kind(addrs, false),
            IpFamily::Ipv4ThenIpv6 => of_kind(addrs, false) + of_kind(addrs, true),
        }
    }

    /// Keeps the addresses of the wanted kinds, in the wanted order.
    pub fn keep_wanted(self, addrs: Vec<SocketAddr>) -> (r: Vec<SocketAddr>)
        ensures
            r@ == self.wanted(addrs@),
    {
        let (v4, v6) = part_by_kind(&addrs);
        match self {
            IpFamily::Any => addrs,
            IpFamily::Ipv4Only => v4,
            IpFamily::Ipv6Only => v6,
            IpFamily::Ipv6ThenIpv4 => {
                let mut out = v6;
                let mut rest = v4;
                out.append(&mut rest);
                out
            },
            IpFamily::Ipv4ThenIpv6 => {
                let mut out = v4;
                let mut rest = v6;
                out.append(&mut rest);
                out
            },
        }
    }

    /// The addresses to connect to, of those that a lookup gave: the wanted
    /// ones in the wanted order, and [`Error::Dns`] where none is wanted.
    pub fn resolved(self, addrs: Vec<SocketAddr>) -> (r: Result<Vec<SocketAddr>, Error>)
        ensures
            self.wanted(addrs@).len() == 0 ==> r matches Err(Error::Dns),
            self.wanted(addrs@).len() > 0 ==> (r matches Ok(v) && v@ == self.wanted(addrs@)),
    {
        let kept = self.keep_wanted(addrs);
        if kept.len() == 0 {
            Err(Error::Dns)
        } else {
            Ok(kept)
        }
    }
}

/// Parts `addrs` into its IPv4 and its IPv6 addresses, each in their order.
fn part_by_kind(addrs: &Vec<SocketAddr>) -> (r: (Vec<SocketAddr>, Vec<SocketAddr>))
    ensures
        r.0@ == of_kind(addrs@, false),
        r.1@ == of_kind(addrs@, true),
{
    let mut v4: Vec<SocketAddr> = Vec::new();
    let mut v6: Vec<SocketAddr> = Vec::new();
    let mut i: usize = 0;
    while i < addrs.len()
        invariant
            i <= addrs.len(),
            v4@ == of_kind(addrs@.take(i as int), false),
            v6@ == of_kind(addrs@.take(i as int), true),
        decreases addrs.len() - i,
    {
        proof {
            assert(addrs@.take(i as int + 1).drop_last() =~= addrs@.take(i as int));
        }
        match addrs[i] {
            SocketAddr::V4 { .. } => v4.push(addrs[i]),
            SocketAddr::V6 { .. } => v6.push(addrs[i]),
        }
        i += 1;
    }
    proof {
        assert(addrs@.take(addrs@.len() as int) =~= addrs@);
    }
    (v4, v6)
}

/// Every address that is handed out is one of the wanted kind, and none of
/// the wanted kind is left out.
pub proof fn lemma_of_kind(addrs: Seq<SocketAddr>, v6: bool)
    ensures
        forall|i: int|
            0 <= i < of_kind(addrs, v6).len() ==> (#[trigger] of_kind(addrs, v6)[i] is V6) == v6,
        forall|i: int|
            0 <= i < of_kind(addrs, v6).len() ==> addrs.contains(#[trigger] of_kind(addrs, v6)[i]),
        forall|i: int|
            0 <= i < addrs.len() && (addrs[i] is V6) == v6 ==> of_kind(addrs, v6).contains(
                #[trigger] addrs[i],
            ),
        of_kind(addrs, true).len() + of_kind(addrs, false).len() == addrs.len(),
    decreases addrs.len(),
{
    if addrs.len() > 0 {
        let rest = addrs.drop_last();
        lemma_of_kind(rest, v6);
        lemma_of_kind(rest, !v6);
        let out = of_kind(addrs, v6);
        assert forall|i: int| 0 <= i < out.len() implies addrs.contains(#[trigger] out[i]) by {
            if i < of_kind(rest, v6).len() {
                let a = of_kind(rest, v6)[i];
                assert(rest.contains(a));
                let j = choose|j: int| 0 <= j < rest.len() && rest[j] == a;
                assert(addrs[j] == a);
            } else {
                assert(addrs[addrs.len() - 1] == out[i]);
            }
        }
        assert forall|i: int| 0 <= i < addrs.len() && (addrs[i] is V6) == v6 implies out.contains(
            #[trigger] addrs[i],
        ) by {
            if i < rest.len() {
                assert(rest[i] == addrs[i]);
                assert(of_kind(rest, v6).contains(rest[i]));
                let j = choose|j: int|
                    0 <= j < of_kind(rest, v6).len() && of_kind(rest, v6)[j] == rest[i];
                assert(out[j] == addrs[i]);
            } else {
                assert(out[out.len() - 1] == addrs[i]);
            }
        }
    }
}

} // verus!
