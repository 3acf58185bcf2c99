//! Plain readings of the host's counters: what an aggregation takes in.

use vstd::prelude::*;
use crate::record::MemStats;

verus! {

/// One disk as the probe reports it: size and space still available, in bytes.
#[derive(Clone, Debug, PartialEq, Eq)]
pub struct DiskReading {
    pub name: String,
    pub mount_point: String,
    pub total: u64,
    pub available: u64,
}

/// Disk I/O byte counters of one process.
#[derive(Clone, Copy, Debug, PartialEq, Eq)]
pub struct ProcessIo {
    pub read_bytes: u64,
    pub written_bytes: u64,
}

/// One network interface as the probe reports it: bytes moved since the
/// previous refresh, and the cumulative counters.
#[derive(Clone, Debug, PartialEq, Eq)]
pub struct NetReading {
    pub name: String,
    pub transmitted: u64,
    pub received: u64,
    pub total_transmitted: u64,
    pub total_received: u64,
}

/// Everything one aggregation reads, each list in the order in which the
/// probe enumerated it. `core_usage_bits` holds one IEEE 754 single-precision
/// bit pattern per logical core.
#[derive(Clone, Debug, PartialEq, Eq)]
pub struct ProbeReadings {
    pub mem: MemStats,
    pub core_usage_bits: Vec<u32>,
    pub disks: Vec<DiskReading>,
    pub processes: Vec<ProcessIo>,
    pub networks: Vec<NetReading>,
}

/// How the per-process disk I/O counters are folded into one figure.
#[derive(Clone, Copy, Debug, PartialEq, Eq, Structural)]
pub enum IoPolicy {
    /// Add up the counters of every enumerated process.
    SumAll,
    /// Take the counters of the first enumerated process only.
    FirstOnly,
}

/// Model of [`DiskReading`].
pub ghost struct DiskReadingView {
    pub name: Seq<char>,
    pub mount_point: Seq<char>,
    pub total: nat,
    pub available: nat,
}

/// Model of [`NetReading`].
pub ghost struct NetReadingView {
    pub name: Seq<char>,
    pub transmitted: nat,
    pub received: nat,
    pub total_transmitted: nat,
    pub total_received: nat,
}

/// Model of [`ProbeReadings`].
pub ghost struct ProbeView {
    pub mem: MemStats,
    pub cores: Seq<u32>,
    pub disks: Seq<DiskReadingView>,
    pub processes: Seq<ProcessIo>,
    pub networks: Seq<NetReadingView>,
}

/// The models of the entries of `disks`, in order.
pub open spec fn disk_views(disks: Seq<DiskReading>) -> Seq<DiskReadingView> {
    Seq::new(disks.len(), |i: int| disks[i]@)
}

/// The models of the entries of `networks`, in order.
pub open spec fn net_views(networks: Seq<NetReading>) -> Seq<NetReadingView> {
    Seq::new(networks.len(), |i: int| networks[i]@)
}

impl View for DiskReading {
    type V = DiskReadingView;

    open spec fn view(&self) -> DiskReadingView {
        DiskReadingView {
            name: self.name@,
            mount_point: self.mount_point@,
            total: self.total as nat,
            available: self.available as nat,
        }
    }
}

impl View for NetReading {
    type V = NetReadingView;

    open spec fn view(&self) -> NetReadingView {
        NetReadingView {
            name: self.name@,
            transmitted: self.transmitted as nat,
            received: self.received as nat,
            total_transmitted: self.total_transmitted as nat,
            total_received: self.total_received as nat,
        }
    }
}

impl View for ProbeReadings {
    type V = ProbeView;

    open spec fn view(&self) -> ProbeView {
        ProbeView {
            mem: self.mem,
            cores: self.core_usage_bits@,
            disks: disk_views(self.disks@),
            processes: self.processes@,
            networks: net_views(self.networks@),
        }
    }
}

impl IoPolicy {
    /// The policy for a host whose operating system goes by `os`, the
    /// lower-case name of the target (`"linux"`, `"windows"`, ...): the
    /// first process only on Windows and FreeBSD, every process elsewhere.
    pub fn for_os(os: &str) -> (policy: IoPolicy)
        ensures
            policy == Self::spec_for_os(os@),
    {
        let name = os.to_owned();
        if name == "windows".to_owned() || name == "freebsd".to_owned() {
            IoPolicy::FirstOnly
        } else {
            IoPolicy::SumAll
        }
    }

    /// See [`IoPolicy::for_os`].
    pub open spec fn spec_for_os(os: Seq<char>) -> IoPolicy {
        if os == "windows"@ || os == "freebsd"@ {
            IoPolicy::FirstOnly
        } else {
            IoPolicy::SumAll
        }
    }
}

} // verus!
