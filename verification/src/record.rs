//! The snapshot record and its mathematical model.

use vstd::prelude::*;
use crate::sums::sum;

verus! {

/// Memory and swap totals, in bytes.
#[derive(Clone, Copy, Debug, PartialEq, Eq)]
pub struct MemStats {
    pub total: u64,
    pub used: u64,
    pub free: u64,
    pub available: u64,
    pub total_swap: u64,
    pub used_swap: u64,
    pub free_swap: u64,
}

/// One logical core. `usage_bits` is the IEEE 754 single-precision bit
/// pattern of the percentage of time the core was busy since the previous
/// refresh; the library carries it through without interpreting it.
#[derive(Clone, Copy, Debug, PartialEq, Eq)]
pub struct CpuCoreStats {
    pub usage_bits: u32,
}

/// All logical cores, by logical-core index.
#[derive(Clone, Debug, PartialEq, Eq)]
pub struct CpuStats {
    pub cpus: Vec<CpuCoreStats>,
}

/// One mounted disk.
#[derive(Clone, Debug, PartialEq, Eq)]
pub struct DiskPartStats {
    pub name: String,
    pub mount_point: String,
    pub total: u64,
    pub free: u64,
    pub used: u64,
}

/// All disks, with their sums and the aggregated process I/O.
#[derive(Clone, Debug, PartialEq, Eq)]
pub struct DiskStats {
    pub total: u64,
    pub free: u64,
    pub used: u64,
    pub read: u64,
    pub write: u64,
    pub disks: Vec<DiskPartStats>,
}

/// One network interface: bytes sent and received since the previous refresh.
#[derive(Clone, Debug, PartialEq, Eq)]
pub struct NetInterfaceStats {
    pub name: String,
    pub up: u64,
    pub down: u64,
}

/// All network interfaces, with cumulative and per-interval sums.
#[derive(Clone, Debug, PartialEq, Eq)]
pub struct NetStats {
    pub total_up: u64,
    pub total_down: u64,
    pub up: u64,
    pub down: u64,
    pub interfaces: Vec<NetInterfaceStats>,
}

/// One snapshot of the host.
#[derive(Clone, Debug, PartialEq, Eq)]
pub struct SysStats {
    pub mem: MemStats,
    pub cpu: CpuStats,
    pub disks: DiskStats,
    pub net: NetStats,
}

/// Model of [`DiskPartStats`].
pub ghost struct DiskPartView {
    pub name: Seq<char>,
    pub mount_point: Seq<char>,
    pub total: nat,
    pub free: nat,
    pub used: nat,
}

/// Model of [`DiskStats`].
pub ghost struct DiskStatsView {
    pub total: nat,
    pub free: nat,
    pub used: nat,
    pub read: nat,
    pub write: nat,
    pub disks: Seq<DiskPartView>,
}

/// Model of [`NetInterfaceStats`].
pub ghost struct NetInterfaceView {
    pub name: Seq<char>,
    pub up: nat,
    pub down: nat,
}

/// Model of [`NetStats`].
pub ghost struct NetStatsView {
    pub total_up: nat,
    pub total_down: nat,
    pub up: nat,
    pub down: nat,
    pub interfaces: Seq<NetInterfaceView>,
}

/// Model of [`SysStats`]. `cores` holds the usage bit pattern of each core.
pub ghost struct SysStatsView {
    pub mem: MemStats,
    pub cores: Seq<u32>,
    pub disks: DiskStatsView,
    pub net: NetStatsView,
}

impl View for CpuStats {
    type V = Seq<u32>;

    open spec fn view(&self) -> Seq<u32> {
        Seq::new(self.cpus@.len(), |i: int| self.cpus@[i].usage_bits)
    }
}

impl View for DiskPartStats {
    type V = DiskPartView;

    open spec fn view(&self) -> DiskPartView {
        DiskPartView {
            name: self.name@,
            mount_point: self.mount_point@,
            total: self.total as nat,
            free: self.free as nat,
            used: self.used as nat,
        }
    }
}

impl View for DiskStats {
    type V = DiskStatsView;

    open spec fn view(&self) -> DiskStatsView {
        DiskStatsView {
            total: self.total as nat,
            free: self.free as nat,
            used: self.used as nat,
            read: self.read as nat,
            write: self.write as nat,
            disks: Seq::new(self.disks@.len(), |i: int| self.disks@[i]@),
        }
    }
}

impl View for NetInterfaceStats {
    type V = NetInterfaceView;

    open spec fn view(&self) -> NetInterfaceView {
        NetInterfaceView { name: self.name@, up: self.up as nat, down: self.down as nat }
    }
}

impl View for NetStats {
    type V = NetStatsView;

    open spec fn view(&self) -> NetStatsView {
        NetStatsView {
            total_up: self.total_up as nat,
            total_down: self.total_down as nat,
            up: self.up as nat,
            down: self.down as nat,
            interfaces: Seq::new(self.interfaces@.len(), |i: int| self.interfaces@[i]@),
        }
    }
}

impl View for SysStats {
    type V = SysStatsView;

    open spec fn view(&self) -> SysStatsView {
        SysStatsView { mem: self.mem, cores: self.cpu@, disks: self.disks@, net: self.net@ }
    }
}

impl DiskPartView {
    /// Used and free space make up the whole disk.
    pub open spec fn balanced(self) -> bool {
        self.used + self.free == self.total
    }
}

impl DiskStatsView {
    /// The `total` of each entry, in order.
    pub open spec fn part_totals(self) -> Seq<nat> {
        Seq::new(self.disks.len(), |i: int| self.disks[i].total)
    }

    /// The `free` of each entry, in order.
    pub open spec fn part_frees(self) -> Seq<nat> {
        Seq::new(self.disks.len(), |i: int| self.disks[i].free)
    }

    /// The `used` of each entry, in order.
    pub open spec fn part_useds(self) -> Seq<nat> {
        Seq::new(self.disks.len(), |i: int| self.disks[i].used)
    }

    /// `total`, `free` and `used` are the sums of the entries' fields.
    pub open spec fn sums_hold(self) -> bool {
        &&& self.total == sum(self.part_totals())
        &&& self.free == sum(self.part_frees())
        &&& self.used == sum(self.part_useds())
    }

    /// Used and free space make up the whole, over all disks together.
    pub open spec fn balanced(self) -> bool {
        self.used + self.free == self.total
    }

    /// Every entry is balanced.
    pub open spec fn parts_balanced(self) -> bool {
        forall|i: int| 0 <= i < self.disks.len() ==> (#[trigger] self.disks[i]).balanced()
    }
}

impl NetStatsView {
    /// The `up` of each interface, in order.
    pub open spec fn interface_ups(self) -> Seq<nat> {
        Seq::new(self.interfaces.len(), |i: int| self.interfaces[i].up)
    }

    /// The `down` of each interface, in order.
    pub open spec fn interface_downs(self) -> Seq<nat> {
        Seq::new(self.interfaces.len(), |i: int| self.interfaces[i].down)
    }

    /// `up` and `down` are the sums of the interfaces' fields.
    pub open spec fn deltas_hold(self) -> bool {
        &&& self.up == sum(self.interface_ups())
        &&& self.down == sum(self.interface_downs())
    }
}

impl SysStatsView {
    /// What holds of every record the library hands out: the disk sums, the
    /// balance of each disk and of all disks together, and the per-interval
    /// network sums.
    pub open spec fn consistent(self) -> bool {
        &&& self.disks.sums_hold()
        &&& self.disks.parts_balanced()
        &&& self.disks.balanced()
        &&& self.net.deltas_hold()
    }
}

} // verus!
