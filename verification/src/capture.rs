//! Capture and interface discovery: every enumerated physical interface is
//! attempted independently, and opening never aborts the whole run on a
//! single failure — successes and typed per-interface errors are both
//! returned, and together they always account for every descriptor.
//!
//! The capture capability itself — enumerating interfaces, opening a filtered
//! handle, resolving the link-layer address — is a blocking, external
//! facility. The process around the library runs those steps in order for
//! each descriptor, stops at the first failing step, and hands the library
//! one plain [`InterfaceProbe`] record per descriptor; everything decided
//! from there on is specified and verified here.

use vstd::prelude::*;
use crate::channel::ChannelPort;
use crate::device::RawsockDevice;
use crate::iface::Ipv4Cidr;
use crate::iface::MacAddress;
use crate::iface::VirtualInterface;

verus! {

/// The framing format a physical interface speaks. The bridge forwards raw
/// Ethernet frames, so every other data-link type is rejected at open time.
#[derive(Clone, Copy, PartialEq, Eq, Structural, Debug)]
pub enum DataLink {
    Ethernet,
    Radiotap,
    Ieee80211,
    Other,
}

/// Why one interface could not be opened. Per-interface and non-fatal to the
/// run: the failure is collected and reported while other interfaces
/// continue.
#[derive(Clone, Copy, PartialEq, Eq, Structural, Debug)]
pub enum OpenError {
    /// No packet-capture library could be loaded for this attempt.
    NoCaptureLibrary,
    /// The capture capability failed to open the interface.
    OpenFailed,
    /// The capture filter could not be applied to the opened handle.
    FilterFailed,
    /// The interface speaks a framing format other than Ethernet.
    WrongDataLink(DataLink),
    /// The interface's link-layer address could not be resolved; this is an
    /// open failure, never a later runtime error.
    AddressResolutionFailed,
}

/// One enumerated physical interface: its system name and a human-readable
/// description. Immutable once enumerated.
#[derive(PartialEq, Eq, Debug)]
pub struct InterfaceDescriptor {
    pub name: String,
    pub description: String,
}

impl InterfaceDescriptor {
    /// Pair a system name with its description.
    pub fn new(name: String, description: String) -> (d: Self)
        ensures
            d == (InterfaceDescriptor { name, description }),
    {
        InterfaceDescriptor { name, description }
    }

    /// An equal, independently owned copy.
    pub fn duplicate(&self) -> (d: Self)
        ensures
            d == *self,
    {
        InterfaceDescriptor { name: self.name.clone(), description: self.description.clone() }
    }
}

/// What the capture capability reported when one descriptor was attempted:
/// the open steps run in order — open the handle, apply the filter, read the
/// data-link type, resolve the link-layer address — and the record stops at
/// the first step that failed.
#[derive(Clone, Copy, PartialEq, Eq, Debug)]
pub enum ProbeOutcome {
    /// No capture library was available to open this interface with.
    NoLibrary,
    /// The capture capability could not open the interface.
    OpenFailed,
    /// The handle opened but the capture filter could not be applied.
    FilterFailed,
    /// The handle opened and was filtered; the data-link type was read, and
    /// address resolution either produced a link-layer address or failed.
    Opened { data_link: DataLink, mac: Option<MacAddress> },
}

/// One attempted descriptor: what was enumerated, and what became of it.
#[derive(Debug)]
pub struct InterfaceProbe {
    pub desc: InterfaceDescriptor,
    pub outcome: ProbeOutcome,
}

/// What one probe record means: the link-layer address of a fully opened
/// Ethernet interface, or the typed error surfaced for it. A non-Ethernet
/// data-link type and a failed address resolution are open failures like the
/// earlier steps' own.
pub open spec fn open_outcome(o: ProbeOutcome) -> Result<MacAddress, OpenError> {
    match o {
        ProbeOutcome::NoLibrary => Err(OpenError::NoCaptureLibrary),
        ProbeOutcome::OpenFailed => Err(OpenError::OpenFailed),
        ProbeOutcome::FilterFailed => Err(OpenError::FilterFailed),
        ProbeOutcome::Opened { data_link, mac } => if data_link != DataLink::Ethernet {
            Err(OpenError::WrongDataLink(data_link))
        } else {
            match mac {
                Some(m) => Ok(m),
                None => Err(OpenError::AddressResolutionFailed),
            }
        },
    }
}

/// The probes that open successfully, in input order.
pub open spec fn opened_of(probes: Seq<InterfaceProbe>) -> Seq<InterfaceProbe>
    decreases probes.len(),
{
    if probes.len() == 0 {
        Seq::empty()
    } else {
        let rest = opened_of(probes.drop_last());
        if open_outcome(probes.last().outcome) is Ok {
            rest.push(probes.last())
        } else {
            rest
        }
    }
}

/// The typed error and descriptor of every probe that fails, in input order.
pub open spec fn failures_of(probes: Seq<InterfaceProbe>) -> Seq<(OpenError, InterfaceDescriptor)>
    decreases probes.len(),
{
    if probes.len() == 0 {
        Seq::empty()
    } else {
        let rest = failures_of(probes.drop_last());
        match open_outcome(probes.last().outcome) {
            Ok(_) => rest,
            Err(e) => rest.push((e, probes.last().desc)),
        }
    }
}

/// Opening is a partition: every descriptor lands in exactly one of the two
/// result lists, so the total count always equals the input count. In
/// particular, only a run where every single descriptor fails opens nothing.
pub proof fn lemma_open_all_is_total(probes: Seq<InterfaceProbe>)
    ensures
        opened_of(probes).len() + failures_of(probes).len() == probes.len(),
    decreases probes.len(),
{
    if probes.len() > 0 {
        lemma_open_all_is_total(probes.drop_last());
    }
}

/// One per-interface open failure paired with the descriptor it concerns.
#[derive(Debug, PartialEq, Eq)]
pub struct ErrorWithDesc(pub OpenError, pub InterfaceDescriptor);

/// An opened, filtered Ethernet interface: its descriptor, resolved
/// link-layer address, data-link type, assigned virtual network, and the
/// fresh virtual device created for it.
pub struct RawsockInterface {
    pub desc: InterfaceDescriptor,
    pub mac: MacAddress,
    pub data_link: DataLink,
    pub device: RawsockDevice,
    pub ip: Ipv4Cidr,
}

/// A freshly created channel port: both directions open, nothing queued.
pub open spec fn fresh_port(p: ChannelPort) -> bool {
    &&& p.inbound.items() == Seq::<Vec<u8>>::empty()
    &&& !p.inbound.is_closed()
    &&& p.outbound.items() == Seq::<Vec<u8>>::empty()
    &&& !p.outbound.is_closed()
}

impl RawsockInterface {
    /// The resolved link-layer address.
    pub open spec fn spec_mac(self) -> MacAddress {
        self.mac
    }

    /// The interface's data-link type; opening only succeeds for Ethernet.
    pub open spec fn spec_data_link(self) -> DataLink {
        self.data_link
    }

    /// The virtual device bound to this interface.
    pub open spec fn spec_device(self) -> RawsockDevice {
        self.device
    }

    /// The virtual network this interface was assigned.
    pub open spec fn spec_ip(self) -> Ipv4Cidr {
        self.ip
    }

    /// The assigned virtual network is well formed.
    pub open spec fn well_formed(self) -> bool {
        self.spec_ip().well_formed()
    }

    /// The interface's system name.
    pub fn name(&self) -> (r: &String)
        ensures
            *r == self.desc.name,
    {
        &self.desc.name
    }

    /// The resolved link-layer address.
    pub fn mac(&self) -> (r: &MacAddress)
        ensures
            *r == self.spec_mac(),
    {
        &self.mac
    }

    /// The interface's data-link type.
    pub fn data_link(&self) -> (r: DataLink)
        ensures
            r == self.spec_data_link(),
    {
        self.data_link
    }

    /// Split into the virtual device, which the poll loop drives, and the
    /// capture-side identity, which the process pairs with the physical
    /// handle it keeps for this interface.
    pub fn split_device(self) -> (r: (RawsockDevice, RawsockRunner))
        ensures
            r.0 == self.spec_device(),
            r.1.desc == self.desc,
    {
        (self.device, RawsockRunner { desc: self.desc })
    }

    /// Split into a fresh virtual interface — this interface's link-layer
    /// address and network, an empty neighbor cache, and the device bound in
    /// — and the capture-side identity.
    pub fn split_iface(self) -> (r: (VirtualInterface, RawsockRunner))
        requires
            self.well_formed(),
        ensures
            r.0.spec_mac() == self.spec_mac(),
            r.0.spec_ip() == self.spec_ip(),
            r.0.neighbor_entries() == Seq::<(crate::iface::Ipv4Address, MacAddress)>::empty(),
            r.0.device == self.spec_device(),
            r.1.desc == self.desc,
    {
        let iface = VirtualInterface::new(self.mac, self.ip, self.device);
        (iface, RawsockRunner { desc: self.desc })
    }
}

/// The capture-thread side of one opened interface: the identity the process
/// uses to pair its blocking capture loop with the interface's channel port.
pub struct RawsockRunner {
    pub desc: InterfaceDescriptor,
}

/// Everything `itf` promises about the probe it was opened from: same
/// descriptor, the resolved link-layer address, the Ethernet data-link type,
/// the set's assigned network, and a fresh channel port behind the device.
pub open spec fn matches_probe(itf: RawsockInterface, probe: InterfaceProbe, ip: Ipv4Cidr) -> bool {
    &&& itf.desc == probe.desc
    &&& open_outcome(probe.outcome) == Ok::<MacAddress, OpenError>(itf.spec_mac())
    &&& itf.spec_data_link() == DataLink::Ethernet
    &&& itf.spec_ip() == ip
    &&& itf.well_formed()
    &&& fresh_port(itf.spec_device().port)
}

/// One enumeration of the capture capability: each descriptor's probe
/// record, the virtual network to assign to opened interfaces, and the
/// capture library's version string.
pub struct RawsockInterfaceSet {
    pub probes: Vec<InterfaceProbe>,
    pub ip: Ipv4Cidr,
    pub lib_version: String,
}

impl RawsockInterfaceSet {
    /// The probe records, in enumeration order.
    pub open spec fn spec_probes(self) -> Seq<InterfaceProbe> {
        self.probes@
    }

    /// The virtual network assigned to every opened interface.
    pub open spec fn spec_ip(self) -> Ipv4Cidr {
        self.ip
    }

    /// The capture library's version string.
    pub open spec fn spec_lib_version(self) -> Seq<char> {
        self.lib_version@
    }

    /// The assigned network is well formed.
    pub open spec fn well_formed(self) -> bool {
        self.spec_ip().well_formed()
    }

    /// Take one enumeration's probe records, the network to assign, and the
    /// capture library's version as reported when it was loaded.
    pub fn new(probes: Vec<InterfaceProbe>, ip: Ipv4Cidr, lib_version: String) -> (r: Self)
        requires
            ip.well_formed(),
        ensures
            r.spec_probes() == probes@,
            r.spec_ip() == ip,
            r.spec_lib_version() == lib_version@,
            r.well_formed(),
    {
        RawsockInterfaceSet { probes, ip, lib_version }
    }

    /// The capture library's version string, as reported when it was loaded.
    pub fn lib_version(&self) -> (r: &String)
        ensures
            r@ == self.spec_lib_version(),
    {
        &self.lib_version
    }

    /// Attempt every enumerated descriptor independently and return both the
    /// opened interfaces and the per-interface failures, each in enumeration
    /// order. No single failure aborts the run, and nothing is silently
    /// skipped: the two lists together account for every descriptor.
    pub fn open_all_interface(&self) -> (r: (Vec<RawsockInterface>, Vec<ErrorWithDesc>))
        requires
            self.well_formed(),
        ensures
            r.0@.len() == opened_of(self.spec_probes()).len(),
            forall|k: int|
                0 <= k < r.0@.len() ==> matches_probe(
                    #[trigger] r.0@[k],
                    opened_of(self.spec_probes())[k],
                    self.spec_ip(),
                ),
            r.1@.map_values(|e: ErrorWithDesc| (e.0, e.1)) == failures_of(self.spec_probes()),
            r.0@.len() + r.1@.len() == self.spec_probes().len(),
    {
        let mut opened: Vec<RawsockInterface> = Vec::new();
        let mut failed: Vec<ErrorWithDesc> = Vec::new();
        let n = self.probes.len();
        let mut i: usize = 0;
        proof {
            assert(self.probes@.subrange(0, 0) =~= Seq::<InterfaceProbe>::empty());
        }
        while i < n
            invariant
                self.well_formed(),
                n == self.probes@.len(),
                i <= n,
                opened@.len() == opened_of(self.probes@.subrange(0, i as int)).len(),
                forall|k: int|
                    0 <= k < opened@.len() ==> matches_probe(
                        #[trigger] opened@[k],
                        opened_of(self.probes@.subrange(0, i as int))[k],
                        self.spec_ip(),
                    ),
                failed@.map_values(|e: ErrorWithDesc| (e.0, e.1)) == failures_of(
                    self.probes@.subrange(0, i as int),
                ),
                opened@.len() + failed@.len() == i,
            decreases n - i,
        {
            let probe: &InterfaceProbe = &self.probes[i];
            let created = self.create_device(probe);
            proof {
                assert(self.probes@.subrange(0, i as int + 1).drop_last() =~= self.probes@.subrange(
                    0,
                    i as int,
                ));
                assert(self.probes@.subrange(0, i as int + 1).last() == self.probes@[i as int]);
            }
            match created {
                Ok(itf) => {
                    opened.push(itf);
                },
                Err(e) => {
                    failed.push(e);
                    proof {
                        assert(failed@.map_values(|e: ErrorWithDesc| (e.0, e.1)) =~= failures_of(
                            self.probes@.subrange(0, i as int + 1),
                        ));
                    }
                },
            }
            i = i + 1;
        }
        proof {
            assert(self.probes@.subrange(0, n as int) =~= self.probes@);
        }
        (opened, failed)
    }

    /// Attempt one probe: surface the typed error paired with the descriptor,
    /// or build the opened interface with a fresh channel port and virtual
    /// device.
    fn create_device(&self, probe: &InterfaceProbe) -> (r: Result<RawsockInterface, ErrorWithDesc>)
        requires
            self.well_formed(),
        ensures
            open_outcome(probe.outcome) is Err ==> r is Err && (r->Err_0).0 == open_outcome(
                probe.outcome,
            )->Err_0 && (r->Err_0).1 == probe.desc,
            open_outcome(probe.outcome) is Ok ==> r is Ok && matches_probe(
                r->Ok_0,
                *probe,
                self.spec_ip(),
            ),
    {
        match &probe.outcome {
            ProbeOutcome::NoLibrary => Err(
                ErrorWithDesc(OpenError::NoCaptureLibrary, probe.desc.duplicate()),
            ),
            ProbeOutcome::OpenFailed => Err(
                ErrorWithDesc(OpenError::OpenFailed, probe.desc.duplicate()),
            ),
            ProbeOutcome::FilterFailed => Err(
                ErrorWithDesc(OpenError::FilterFailed, probe.desc.duplicate()),
            ),
            ProbeOutcome::Opened { data_link, mac } => match data_link {
                DataLink::Ethernet => match mac {
                    Some(m) => {
                        let port = ChannelPort::new();
                        Ok(
                            RawsockInterface {
                                desc: probe.desc.duplicate(),
                                mac: *m,
                                data_link: DataLink::Ethernet,
                                device: RawsockDevice::new(port),
                                ip: self.ip,
                            },
                        )
                    },
                    None => Err(
                        ErrorWithDesc(OpenError::AddressResolutionFailed, probe.desc.duplicate()),
                    ),
                },
                _ => Err(ErrorWithDesc(OpenError::WrongDataLink(*data_link), probe.desc.duplicate())),
            },
        }
    }
}

} // verus!
