//! The virtual interface: link-layer and network addresses, the
//! address-resolution (neighbor) cache, and the bound virtual device.
//!
//! One [`VirtualInterface`] is created per opened physical interface, polled
//! repeatedly by the driver, and dropped at teardown. The neighbor cache maps
//! virtual network addresses to link-layer addresses; a newer entry for an
//! address shadows an older one.

use vstd::prelude::*;
use crate::device::RawsockDevice;

verus! {

/// A 48-bit Ethernet link-layer address.
#[derive(Clone, Copy, PartialEq, Eq, Debug)]
pub struct MacAddress {
    pub octets: [u8; 6],
}

/// A 32-bit virtual network address, most significant octet first.
#[derive(Clone, Copy, PartialEq, Eq, Structural, Debug)]
pub struct Ipv4Address {
    pub bits: u32,
}

impl Ipv4Address {
    /// The address written `a.b.c.d`.
    pub fn from_octets(a: u8, b: u8, c: u8, d: u8) -> (r: Self)
        ensures
            r.bits == a * 0x1000000 + b * 0x10000 + c * 0x100 + d,
    {
        Ipv4Address {
            bits: (a as u32) * 0x1000000 + (b as u32) * 0x10000 + (c as u32) * 0x100 + (d as u32),
        }
    }
}

/// A network address with a prefix length: the virtual network a bridged
/// interface is assigned to.
#[derive(Clone, Copy, PartialEq, Eq, Structural, Debug)]
pub struct Ipv4Cidr {
    pub address: Ipv4Address,
    pub prefix_len: u8,
}

impl Ipv4Cidr {
    /// A well-formed prefix length never exceeds the address width.
    pub open spec fn well_formed(self) -> bool {
        self.prefix_len <= 32
    }

    /// Bind an address to a prefix length of at most the address width.
    pub fn new(address: Ipv4Address, prefix_len: u8) -> (r: Self)
        requires
            prefix_len <= 32,
        ensures
            r == (Ipv4Cidr { address, prefix_len }),
            r.well_formed(),
    {
        Ipv4Cidr { address, prefix_len }
    }
}

/// What a front-first scan of the neighbor entries resolves `ip` to: the
/// newest entry for an address wins.
pub open spec fn resolve(entries: Seq<(Ipv4Address, MacAddress)>, ip: Ipv4Address) -> Option<
    MacAddress,
>
    decreases entries.len(),
{
    if entries.len() == 0 {
        None
    } else if entries[0].0 == ip {
        Some(entries[0].1)
    } else {
        resolve(entries.drop_first(), ip)
    }
}

/// The virtual network interface: its link-layer address, its assigned
/// virtual network, its address-resolution cache, and the device it
/// exchanges frames through.
pub struct VirtualInterface {
    pub mac: MacAddress,
    pub ip: Ipv4Cidr,
    pub neighbors: Vec<(Ipv4Address, MacAddress)>,
    /// The frame-exchange capability the poll loop drives.
    pub device: RawsockDevice,
}

impl VirtualInterface {
    /// The interface's link-layer address.
    pub open spec fn spec_mac(self) -> MacAddress {
        self.mac
    }

    /// The interface's assigned virtual network.
    pub open spec fn spec_ip(self) -> Ipv4Cidr {
        self.ip
    }

    /// The neighbor entries, newest first.
    pub open spec fn neighbor_entries(self) -> Seq<(Ipv4Address, MacAddress)> {
        self.neighbors@
    }

    /// Bind a fresh interface — empty neighbor cache — to a device.
    pub fn new(mac: MacAddress, ip: Ipv4Cidr, device: RawsockDevice) -> (r: Self)
        requires
            ip.well_formed(),
        ensures
            r.spec_mac() == mac,
            r.spec_ip() == ip,
            r.neighbor_entries() == Seq::<(Ipv4Address, MacAddress)>::empty(),
            r.device == device,
    {
        VirtualInterface { mac, ip, neighbors: Vec::new(), device }
    }

    /// The interface's link-layer address.
    pub fn mac(&self) -> (r: &MacAddress)
        ensures
            *r == self.spec_mac(),
    {
        &self.mac
    }

    /// The interface's assigned virtual network.
    pub fn ip(&self) -> (r: Ipv4Cidr)
        ensures
            r == self.spec_ip(),
    {
        self.ip
    }

    /// Record that `ip` resolves to `mac`: the new entry shadows any older
    /// one for the same address and leaves every other address's resolution
    /// untouched.
    pub fn fill_neighbor(&mut self, ip: Ipv4Address, mac: MacAddress)
        ensures
            final(self).neighbor_entries() == old(self).neighbor_entries().insert(
                0,
                (ip, mac),
            ),
            final(self).spec_mac() == old(self).spec_mac(),
            final(self).spec_ip() == old(self).spec_ip(),
            final(self).device == old(self).device,
            resolve(final(self).neighbor_entries(), ip) == Some(mac),
            forall|other: Ipv4Address|
                other != ip ==> resolve(final(self).neighbor_entries(), other) == resolve(
                    old(self).neighbor_entries(),
                    other,
                ),
    {
        self.neighbors.insert(0, (ip, mac));
        proof {
            assert(self.neighbors@.drop_first() =~= old(self).neighbors@);
        }
    }

    /// Resolve a virtual network address to the link-layer address most
    /// recently recorded for it, if any.
    pub fn lookup_neighbor(&self, ip: Ipv4Address) -> (r: Option<MacAddress>)
        ensures
            r == resolve(self.neighbor_entries(), ip),
    {
        let n = self.neighbors.len();
        let mut i: usize = 0;
        proof {
            assert(self.neighbors@.skip(0) =~= self.neighbors@);
        }
        while i < n
            invariant
                n == self.neighbors@.len(),
                i <= n,
                resolve(self.neighbor_entries(), ip) == resolve(
                    self.neighbors@.skip(i as int),
                    ip,
                ),
            decreases n - i,
        {
            let entry = self.neighbors[i];
            if entry.0.bits == ip.bits {
                proof {
                    assert(self.neighbors@.skip(i as int)[0] == self.neighbors@[i as int]);
                    assert(entry.0 == ip);
                }
                return Some(entry.1);
            }
            proof {
                assert(self.neighbors@.skip(i as int).drop_first() =~= self.neighbors@.skip(
                    i as int + 1,
                ));
            }
            i = i + 1;
        }
        proof {
            assert(self.neighbors@.skip(n as int) =~= Seq::<(Ipv4Address, MacAddress)>::empty());
        }
        None
    }
}

} // verus!
