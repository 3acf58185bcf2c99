//! Folding probe readings into a snapshot record.

use vstd::prelude::*;
use crate::laws::{lemma_disk_parts_balanced, lemma_disk_sums, lemma_disk_totals_balanced, lemma_net_deltas};
use crate::reading::{disk_views, net_views, DiskReading, DiskReadingView, IoPolicy, NetReading, NetReadingView, ProbeReadings, ProbeView, ProcessIo};
use crate::record::{CpuCoreStats, CpuStats, DiskPartStats, DiskPartView, DiskStats, DiskStatsView, NetInterfaceStats, NetInterfaceView, NetStats, NetStatsView, SysStats, SysStatsView};
use crate::sums::{lemma_sum_prefix_le, lemma_sum_take_next, sum};

verus! {

/// Why a set of readings has no record.
#[derive(Clone, Copy, Debug, PartialEq, Eq, Structural)]
pub enum AggregateError {
    /// Some disk reports more available space than its size.
    FreeExceedsTotal,
    /// The disk sizes add up to more than a 64-bit counter holds.
    DiskTotalsOverflow,
    /// The process I/O counters add up to more than a 64-bit counter holds.
    ProcessIoOverflow,
    /// Some network sum is more than a 64-bit counter holds.
    NetTotalsOverflow,
}

/// The size of each disk, in order.
pub open spec fn disk_totals(disks: Seq<DiskReadingView>) -> Seq<nat> {
    Seq::new(disks.len(), |i: int| disks[i].total)
}

/// The available space of each disk, in order.
pub open spec fn disk_availables(disks: Seq<DiskReadingView>) -> Seq<nat> {
    Seq::new(disks.len(), |i: int| disks[i].available)
}

/// The space in use on each disk, in order.
pub open spec fn disk_useds(disks: Seq<DiskReadingView>) -> Seq<nat> {
    Seq::new(disks.len(), |i: int| (disks[i].total - disks[i].available) as nat)
}

/// No disk reports more available space than its size.
pub open spec fn disks_sound(disks: Seq<DiskReadingView>) -> bool {
    forall|i: int| 0 <= i < disks.len() ==> (#[trigger] disks[i]).available <= disks[i].total
}

/// The bytes read by each process, in order.
pub open spec fn process_reads(processes: Seq<ProcessIo>) -> Seq<nat> {
    Seq::new(processes.len(), |i: int| processes[i].read_bytes as nat)
}

/// The bytes written by each process, in order.
pub open spec fn process_writes(processes: Seq<ProcessIo>) -> Seq<nat> {
    Seq::new(processes.len(), |i: int| processes[i].written_bytes as nat)
}

/// The bytes read that `policy` attributes to the host.
pub open spec fn io_read(policy: IoPolicy, processes: Seq<ProcessIo>) -> nat {
    match policy {
        IoPolicy::SumAll => sum(process_reads(processes)),
        IoPolicy::FirstOnly => if processes.len() > 0 {
            processes[0].read_bytes as nat
        } else {
            0
        },
    }
}

/// The bytes written that `policy` attributes to the host.
pub open spec fn io_write(policy: IoPolicy, processes: Seq<ProcessIo>) -> nat {
    match policy {
        IoPolicy::SumAll => sum(process_writes(processes)),
        IoPolicy::FirstOnly => if processes.len() > 0 {
            processes[0].written_bytes as nat
        } else {
            0
        },
    }
}

/// The bytes each interface sent since the previous refresh, in order.
pub open spec fn net_ups(networks: Seq<NetReadingView>) -> Seq<nat> {
    Seq::new(networks.len(), |i: int| networks[i].transmitted)
}

/// The bytes each interface received since the previous refresh, in order.
pub open spec fn net_downs(networks: Seq<NetReadingView>) -> Seq<nat> {
    Seq::new(networks.len(), |i: int| networks[i].received)
}

/// The cumulative bytes each interface sent, in order.
pub open spec fn net_total_ups(networks: Seq<NetReadingView>) -> Seq<nat> {
    Seq::new(networks.len(), |i: int| networks[i].total_transmitted)
}

/// The cumulative bytes each interface received, in order.
pub open spec fn net_total_downs(networks: Seq<NetReadingView>) -> Seq<nat> {
    Seq::new(networks.len(), |i: int| networks[i].total_received)
}

/// The record entry of one disk: `free` is the available space, `used` the rest.
pub open spec fn spec_part(disk: DiskReadingView) -> DiskPartView {
    DiskPartView {
        name: disk.name,
        mount_point: disk.mount_point,
        total: disk.total,
        free: disk.available,
        used: (disk.total - disk.available) as nat,
    }
}

/// The record entry of one interface: its per-interval counters.
pub open spec fn spec_interface(net: NetReadingView) -> NetInterfaceView {
    NetInterfaceView { name: net.name, up: net.transmitted, down: net.received }
}

/// The disk subtree of the record for these readings.
pub open spec fn spec_disks(
    policy: IoPolicy,
    disks: Seq<DiskReadingView>,
    processes: Seq<ProcessIo>,
) -> DiskStatsView {
    DiskStatsView {
        total: sum(disk_totals(disks)),
        free: sum(disk_availables(disks)),
        used: sum(disk_useds(disks)),
        read: io_read(policy, processes),
        write: io_write(policy, processes),
        disks: Seq::new(disks.len(), |i: int| spec_part(disks[i])),
    }
}

/// The network subtree of the record for these readings.
pub open spec fn spec_net(networks: Seq<NetReadingView>) -> NetStatsView {
    NetStatsView {
        total_up: sum(net_total_ups(networks)),
        total_down: sum(net_total_downs(networks)),
        up: sum(net_ups(networks)),
        down: sum(net_downs(networks)),
        interfaces: Seq::new(networks.len(), |i: int| spec_interface(networks[i])),
    }
}

/// Why the disk subtree cannot be built, if it cannot.
pub open spec fn spec_disks_error(
    policy: IoPolicy,
    disks: Seq<DiskReadingView>,
    processes: Seq<ProcessIo>,
) -> Option<AggregateError> {
    if !disks_sound(disks) {
        Some(AggregateError::FreeExceedsTotal)
    } else if sum(disk_totals(disks)) > u64::MAX {
        Some(AggregateError::DiskTotalsOverflow)
    } else if io_read(policy, processes) > u64::MAX || io_write(policy, processes) > u64::MAX {
        Some(AggregateError::ProcessIoOverflow)
    } else {
        None
    }
}

/// Every network sum fits a 64-bit counter.
pub open spec fn net_fits(networks: Seq<NetReadingView>) -> bool {
    &&& sum(net_total_ups(networks)) <= u64::MAX
    &&& sum(net_total_downs(networks)) <= u64::MAX
    &&& sum(net_ups(networks)) <= u64::MAX
    &&& sum(net_downs(networks)) <= u64::MAX
}

/// Why these readings have no record, if they have none.
pub open spec fn spec_error(policy: IoPolicy, probe: ProbeView) -> Option<AggregateError> {
    if spec_disks_error(policy, probe.disks, probe.processes) is Some {
        spec_disks_error(policy, probe.disks, probe.processes)
    } else if !net_fits(probe.networks) {
        Some(AggregateError::NetTotalsOverflow)
    } else {
        None
    }
}

/// The record for these readings: memory and cores as read, disks and
/// networks with their sums.
pub open spec fn spec_record(policy: IoPolicy, probe: ProbeView) -> SysStatsView {
    SysStatsView {
        mem: probe.mem,
        cores: probe.cores,
        disks: spec_disks(policy, probe.disks, probe.processes),
        net: spec_net(probe.networks),
    }
}

impl CpuStats {
    /// One entry per core, in the order of `bits`.
    pub fn from_usage_bits(bits: &Vec<u32>) -> (cpu: CpuStats)
        ensures
            cpu@ == bits@,
    {
        let mut cpus: Vec<CpuCoreStats> = Vec::new();
        let mut i: usize = 0;
        while i < bits.len()
            invariant
                i <= bits.len(),
                cpus@.len() == i,
                forall|j: int| 0 <= j < i ==> cpus@[j].usage_bits == bits@[j],
            decreases bits.len() - i,
        {
            cpus.push(CpuCoreStats { usage_bits: bits[i] });
            i = i + 1;
        }
        let cpu = CpuStats { cpus };
        assert(cpu@ =~= bits@);
        cpu
    }
}

/// Whether no disk reports more available space than its size.
fn every_disk_sound(disks: &Vec<DiskReading>) -> (sound: bool)
    ensures
        sound == disks_sound(disk_views(disks@)),
{
    let mut i: usize = 0;
    while i < disks.len()
        invariant
            i <= disks.len(),
            forall|j: int| 0 <= j < i ==> (#[trigger] disk_views(disks@)[j]).available <= disk_views(disks@)[j].total,
        decreases disks.len() - i,
    {
        if disks[i].available > disks[i].total {
            assert(disk_views(disks@)[i as int].available > disk_views(disks@)[i as int].total);
            return false;
        }
        i = i + 1;
    }
    true
}

/// The process I/O figures under `policy`, or `None` if a sum does not fit.
fn fold_process_io(policy: IoPolicy, processes: &Vec<ProcessIo>) -> (io: Option<(u64, u64)>)
    ensures
        match io {
            Some((read, write)) => read == io_read(policy, processes@) && write == io_write(
                policy,
                processes@,
            ),
            None => io_read(policy, processes@) > u64::MAX || io_write(policy, processes@)
                > u64::MAX,
        },
{
    match policy {
        IoPolicy::FirstOnly => {
            if processes.len() > 0 {
                Some((processes[0].read_bytes, processes[0].written_bytes))
            } else {
                Some((0, 0))
            }
        },
        IoPolicy::SumAll => {
            let ghost reads = process_reads(processes@);
            let ghost writes = process_writes(processes@);
            let mut read: u64 = 0;
            let mut write: u64 = 0;
            let mut i: usize = 0;
            while i < processes.len()
                invariant
                    i <= processes.len(),
                    policy == IoPolicy::SumAll,
                    reads == process_reads(processes@),
                    writes == process_writes(processes@),
                    read == sum(reads.take(i as int)),
                    write == sum(writes.take(i as int)),
                decreases processes.len() - i,
            {
                let p = processes[i];
                proof {
                    lemma_sum_take_next(reads, i as int);
                    lemma_sum_take_next(writes, i as int);
                    lemma_sum_prefix_le(reads, i + 1);
                    lemma_sum_prefix_le(writes, i + 1);
                }
                if p.read_bytes > u64::MAX - read || p.written_bytes > u64::MAX - write {
                    return None;
                }
                read = read + p.read_bytes;
                write = write + p.written_bytes;
                i = i + 1;
            }
            assert(reads.take(i as int) =~= reads);
            assert(writes.take(i as int) =~= writes);
            Some((read, write))
        },
    }
}

impl DiskStats {
    /// The disk subtree for `disks` and `processes`: one entry per disk, in
    /// order, with `used` the size less the available space; the sums of the
    /// entries; and the process I/O figures under `policy`.
    pub fn aggregate(policy: IoPolicy, disks: &Vec<DiskReading>, processes: &Vec<ProcessIo>) -> (r:
        Result<DiskStats, AggregateError>)
        ensures
            match r {
                Ok(stats) => spec_disks_error(policy, disk_views(disks@), processes@) is None
                    && stats@ == spec_disks(policy, disk_views(disks@), processes@),
                Err(e) => spec_disks_error(policy, disk_views(disks@), processes@) == Some(e),
            },
    {
        if !every_disk_sound(disks) {
            return Err(AggregateError::FreeExceedsTotal);
        }
        let ghost dv = disk_views(disks@);
        let ghost totals = disk_totals(dv);
        let ghost frees = disk_availables(dv);
        let ghost useds = disk_useds(dv);
        let mut parts: Vec<DiskPartStats> = Vec::new();
        let mut total: u64 = 0;
        let mut free: u64 = 0;
        let mut used: u64 = 0;
        let mut i: usize = 0;
        while i < disks.len()
            invariant
                i <= disks.len(),
                dv == disk_views(disks@),
                disks_sound(dv),
                totals == disk_totals(dv),
                frees == disk_availables(dv),
                useds == disk_useds(dv),
                parts@.len() == i,
                forall|j: int| 0 <= j < i ==> (#[trigger] parts@[j])@ == spec_part(dv[j]),
                total == sum(totals.take(i as int)),
                free == sum(frees.take(i as int)),
                used == sum(useds.take(i as int)),
                used + free == total,
            decreases disks.len() - i,
        {
            let disk = &disks[i];
            proof {
                assert(dv[i as int].available <= dv[i as int].total);
                lemma_sum_take_next(totals, i as int);
                lemma_sum_take_next(frees, i as int);
                lemma_sum_take_next(useds, i as int);
                lemma_sum_prefix_le(totals, i + 1);
            }
            if disk.total > u64::MAX - total {
                return Err(AggregateError::DiskTotalsOverflow);
            }
            let part = DiskPartStats {
                name: disk.name.clone(),
                mount_point: disk.mount_point.clone(),
                total: disk.total,
                free: disk.available,
                used: disk.total - disk.available,
            };
            total = total + part.total;
            free = free + part.free;
            used = used + part.used;
            parts.push(part);
            i = i + 1;
        }
        proof {
            assert(totals.take(i as int) =~= totals);
            assert(frees.take(i as int) =~= frees);
            assert(useds.take(i as int) =~= useds);
        }
        match fold_process_io(policy, processes) {
            None => Err(AggregateError::ProcessIoOverflow),
            Some((read, write)) => {
                let stats = DiskStats { total, free, used, read, write, disks: parts };
                assert(stats@.disks =~= spec_disks(policy, dv, processes@).disks);
                Ok(stats)
            },
        }
    }
}

impl NetStats {
    /// The network subtree for `networks`: one entry per interface, in order,
    /// with its per-interval counters; the sums of those; and the sums of the
    /// cumulative counters. `None` exactly when a sum does not fit.
    pub fn aggregate(networks: &Vec<NetReading>) -> (r: Option<NetStats>)
        ensures
            match r {
                Some(stats) => net_fits(net_views(networks@)) && stats@ == spec_net(
                    net_views(networks@),
                ),
                None => !net_fits(net_views(networks@)),
            },
    {
        let ghost nv = net_views(networks@);
        let ghost total_ups = net_total_ups(nv);
        let ghost total_downs = net_total_downs(nv);
        let ghost ups = net_ups(nv);
        let ghost downs = net_downs(nv);
        let mut interfaces: Vec<NetInterfaceStats> = Vec::new();
        let mut total_up: u64 = 0;
        let mut total_down: u64 = 0;
        let mut up: u64 = 0;
        let mut down: u64 = 0;
        let mut i: usize = 0;
        while i < networks.len()
            invariant
                i <= networks.len(),
                nv == net_views(networks@),
                total_ups == net_total_ups(nv),
                total_downs == net_total_downs(nv),
                ups == net_ups(nv),
                downs == net_downs(nv),
                interfaces@.len() == i,
                forall|j: int| 0 <= j < i ==> (#[trigger] interfaces@[j])@ == spec_interface(nv[j]),
                total_up == sum(total_ups.take(i as int)),
                total_down == sum(total_downs.take(i as int)),
                up == sum(ups.take(i as int)),
                down == sum(downs.take(i as int)),
            decreases networks.len() - i,
        {
            let net = &networks[i];
            proof {
                lemma_sum_take_next(total_ups, i as int);
                lemma_sum_take_next(total_downs, i as int);
                lemma_sum_take_next(ups, i as int);
                lemma_sum_take_next(downs, i as int);
                lemma_sum_prefix_le(total_ups, i + 1);
                lemma_sum_prefix_le(total_downs, i + 1);
                lemma_sum_prefix_le(ups, i + 1);
                lemma_sum_prefix_le(downs, i + 1);
            }
            if net.total_transmitted > u64::MAX - total_up || net.total_received > u64::MAX
                - total_down || net.transmitted > u64::MAX - up || net.received > u64::MAX - down {
                return None;
            }
            total_up = total_up + net.total_transmitted;
            total_down = total_down + net.total_received;
            up = up + net.transmitted;
            down = down + net.received;
            interfaces.push(
                NetInterfaceStats { name: net.name.clone(), up: net.transmitted, down: net.received },
            );
            i = i + 1;
        }
        proof {
            assert(total_ups.take(i as int) =~= total_ups);
            assert(total_downs.take(i as int) =~= total_downs);
            assert(ups.take(i as int) =~= ups);
            assert(downs.take(i as int) =~= downs);
        }
        let stats = NetStats { total_up, total_down, up, down, interfaces };
        assert(stats@.interfaces =~= spec_net(nv).interfaces);
        Some(stats)
    }
}

impl SysStats {
    /// The record for `probe`: memory and cores as read, the disk subtree of
    /// [`DiskStats::aggregate`] and the network subtree of
    /// [`NetStats::aggregate`]. Fails exactly when one of them does, the disk
    /// subtree first.
    pub fn aggregate(policy: IoPolicy, probe: &ProbeReadings) -> (r: Result<
        SysStats,
        AggregateError,
    >)
        ensures
            match r {
                Ok(stats) => spec_error(policy, probe@) is None && stats@ == spec_record(
                    policy,
                    probe@,
                ) && stats@.consistent(),
                Err(e) => spec_error(policy, probe@) == Some(e),
            },
    {
        let disks = match DiskStats::aggregate(policy, &probe.disks, &probe.processes) {
            Ok(disks) => disks,
            Err(e) => {
                return Err(e);
            },
        };
        let net = match NetStats::aggregate(&probe.networks) {
            Some(net) => net,
            None => {
                return Err(AggregateError::NetTotalsOverflow);
            },
        };
        let cpu = CpuStats::from_usage_bits(&probe.core_usage_bits);
        let stats = SysStats { mem: probe.mem, cpu, disks, net };
        proof {
            lemma_disk_sums(policy, probe@);
            lemma_disk_parts_balanced(policy, probe@);
            lemma_disk_totals_balanced(policy, probe@);
            lemma_net_deltas(policy, probe@);
        }
        Ok(stats)
    }
}

} // verus!
