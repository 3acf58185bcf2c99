//! Reading a `sysinfo` probe state into plain readings, and the snapshot of
//! a probe state.
//!
//! The probe state is never refreshed here: whoever owns it decides when the
//! operating system is asked again.

use sysinfo::{CpuExt, DiskExt, NetworkExt, NetworksExt, ProcessExt, System, SystemExt};
use vstd::multiset::Multiset;
use vstd::prelude::*;
use crate::aggregate::{net_downs, net_total_downs, net_total_ups, net_ups, process_reads, process_writes, spec_error, spec_interface, spec_record, AggregateError};
use crate::reading::{disk_views, net_views, DiskReading, DiskReadingView, IoPolicy, NetReading, NetReadingView, ProbeReadings, ProbeView, ProcessIo};
use crate::record::{MemStats, SysStats};
use crate::sums::{lemma_map_keeps_entries, lemma_sum_ignores_order};

verus! {

/// The probe state of `sysinfo`, opaque to the proofs.
#[verifier::external_type_specification]
#[verifier::external_body]
pub struct ExSystem(sysinfo::System);

/// What a probe state holds since its last refresh. Cores and disks are
/// kept in a fixed order; processes and interfaces are kept in hash maps,
/// so only which ones there are is a property of the state.
pub ghost struct Held {
    pub mem: MemStats,
    pub cores: Seq<u32>,
    pub disks: Seq<DiskReadingView>,
    pub processes: Multiset<ProcessIo>,
    pub networks: Multiset<NetReadingView>,
}

/// The readings that `sys` holds.
pub uninterp spec fn held(sys: System) -> Held;

/// `SystemExt::total_memory`: the RAM size in bytes that the state holds.
#[verifier::external_body]
fn total_memory(sys: &System) -> (bytes: u64)
    ensures
        bytes == held(*sys).mem.total,
{
    sys.total_memory()
}

/// `SystemExt::available_memory`: the available RAM in bytes that the state holds.
#[verifier::external_body]
fn available_memory(sys: &System) -> (bytes: u64)
    ensures
        bytes == held(*sys).mem.available,
{
    sys.available_memory()
}

/// `SystemExt::free_memory`: the free RAM in bytes that the state holds.
#[verifier::external_body]
fn free_memory(sys: &System) -> (bytes: u64)
    ensures
        bytes == held(*sys).mem.free,
{
    sys.free_memory()
}

/// `SystemExt::used_memory`: the RAM in use, in bytes. On Linux it is
/// computed as the total less the available amount, which overflows when
/// more is available than there is; the precondition keeps that case out.
#[verifier::external_body]
fn used_memory(sys: &System) -> (bytes: u64)
    requires
        held(*sys).mem.available <= held(*sys).mem.total,
    ensures
        bytes == held(*sys).mem.used,
{
    sys.used_memory()
}

/// `SystemExt::total_swap`: the swap size in bytes that the state holds.
#[verifier::external_body]
fn total_swap(sys: &System) -> (bytes: u64)
    ensures
        bytes == held(*sys).mem.total_swap,
{
    sys.total_swap()
}

/// `SystemExt::free_swap`: the free swap in bytes that the state holds.
#[verifier::external_body]
fn free_swap(sys: &System) -> (bytes: u64)
    ensures
        bytes == held(*sys).mem.free_swap,
{
    sys.free_swap()
}

/// `SystemExt::used_swap`: the swap in use, in bytes. On Linux it is
/// computed as the total less the free amount, which overflows when more is
/// free than there is; the precondition keeps that case out.
#[verifier::external_body]
fn used_swap(sys: &System) -> (bytes: u64)
    requires
        held(*sys).mem.free_swap <= held(*sys).mem.total_swap,
    ensures
        bytes == held(*sys).mem.used_swap,
{
    sys.used_swap()
}

/// `SystemExt::cpus` with `CpuExt::cpu_usage` of each entry: the usage of
/// every logical core as its bit pattern, in the order of the state's list.
#[verifier::external_body]
fn core_usage_bits(sys: &System) -> (bits: Vec<u32>)
    ensures
        bits@ == held(*sys).cores,
{
    sys.cpus().iter().map(|cpu| cpu.cpu_usage().to_bits()).collect()
}

/// `SystemExt::disks` with `DiskExt::name`, `mount_point`, `total_space`
/// and `available_space` of each entry: every disk in the order of the
/// state's list, its two names converted to text lossily.
#[verifier::external_body]
fn disk_readings(sys: &System) -> (disks: Vec<DiskReading>)
    ensures
        disk_views(disks@) == held(*sys).disks,
{
    sys.disks().iter().map(|disk| DiskReading {
        name: disk.name().to_string_lossy().to_string(),
        mount_point: disk.mount_point().to_string_lossy().to_string(),
        total: disk.total_space(),
        available: disk.available_space(),
    }).collect()
}

/// `SystemExt::processes` with `ProcessExt::disk_usage` of each entry: the
/// bytes every process read and wrote since the previous refresh, in the
/// order in which the state's hash map is walked.
#[verifier::external_body]
fn process_io(sys: &System) -> (processes: Vec<ProcessIo>)
    ensures
        processes@.to_multiset() == held(*sys).processes,
{
    sys.processes().values().map(|process| process.disk_usage()).map(|usage| ProcessIo {
        read_bytes: usage.read_bytes,
        written_bytes: usage.written_bytes,
    }).collect()
}

/// `SystemExt::networks` with `NetworksExt::iter` and the four byte
/// counters of `NetworkExt`: every interface with its name, in the order in
/// which the state's hash map is walked.
#[verifier::external_body]
fn net_readings(sys: &System) -> (networks: Vec<NetReading>)
    ensures
        net_views(networks@).to_multiset() == held(*sys).networks,
{
    sys.networks().iter().map(|(name, net)| NetReading {
        name: name.clone(),
        transmitted: net.transmitted(),
        received: net.received(),
        total_transmitted: net.total_transmitted(),
        total_received: net.total_received(),
    }).collect()
}

/// The memory figures as they can be read from a state that holds `h`.
/// The state cannot say how much memory is in use where it holds more
/// available memory than memory, nor how much swap where it holds more free
/// swap than swap: such a figure is read as zero.
pub open spec fn readable_memory(h: Held) -> MemStats {
    MemStats {
        total: h.mem.total,
        used: if h.mem.available <= h.mem.total {
            h.mem.used
        } else {
            0
        },
        free: h.mem.free,
        available: h.mem.available,
        total_swap: h.mem.total_swap,
        used_swap: if h.mem.free_swap <= h.mem.total_swap {
            h.mem.used_swap
        } else {
            0
        },
        free_swap: h.mem.free_swap,
    }
}

/// `probe` is a reading of a state that holds `h`: memory as far as it can
/// be read, cores and disks as `h` has them, processes and interfaces those
/// of `h` in some order.
pub open spec fn reads(probe: ProbeView, h: Held) -> bool {
    &&& probe.mem == readable_memory(h)
    &&& probe.cores == h.cores
    &&& probe.disks == h.disks
    &&& probe.processes.to_multiset() == h.processes
    &&& probe.networks.to_multiset() == h.networks
}

/// Reads the memory figures out of `sys`.
pub fn read_memory(sys: &System) -> (mem: MemStats)
    ensures
        mem == readable_memory(held(*sys)),
{
    let total = total_memory(sys);
    let available = available_memory(sys);
    let total_swap = total_swap(sys);
    let free_swap = free_swap(sys);
    let used = if available <= total {
        used_memory(sys)
    } else {
        0
    };
    let used_swap = if free_swap <= total_swap {
        used_swap(sys)
    } else {
        0
    };
    MemStats { total, used, free: free_memory(sys), available, total_swap, used_swap, free_swap }
}

/// Reads everything an aggregation needs out of `sys`.
pub fn read_probe(sys: &System) -> (probe: ProbeReadings)
    ensures
        reads(probe@, held(*sys)),
{
    ProbeReadings {
        mem: read_memory(sys),
        core_usage_bits: core_usage_bits(sys),
        disks: disk_readings(sys),
        processes: process_io(sys),
        networks: net_readings(sys),
    }
}

impl SysStats {
    /// The snapshot of `sys` as it stands: the record of a reading of it,
    /// or the reason why that reading has none.
    pub fn from_system(policy: IoPolicy, sys: &System) -> (r: Result<SysStats, AggregateError>)
        ensures
            exists|probe: ProbeView| #[trigger]
                reads(probe, held(*sys)) && match r {
                    Ok(stats) => spec_error(policy, probe) is None && stats@ == spec_record(
                        policy,
                        probe,
                    ),
                    Err(e) => spec_error(policy, probe) == Some(e),
                },
            r is Ok ==> r->Ok_0@.consistent(),
    {
        let probe = read_probe(sys);
        SysStats::aggregate(policy, &probe)
    }
}

/// Two readings of one probe state give the same outcome but for the order
/// of the interfaces and, where only the first process counts, for the
/// process I/O figures: they fail alike, and their records agree on memory,
/// cores, disks, every network sum and on which interfaces there are. Where
/// every process counts they agree on the process I/O figures too.
pub proof fn lemma_readings_agree(policy: IoPolicy, h: Held, a: ProbeView, b: ProbeView)
    requires
        reads(a, h),
        reads(b, h),
    ensures
        spec_error(policy, a) == spec_error(policy, b),
        spec_record(policy, a).mem == spec_record(policy, b).mem,
        spec_record(policy, a).cores == spec_record(policy, b).cores,
        spec_record(policy, a).disks.disks == spec_record(policy, b).disks.disks,
        spec_record(policy, a).disks.total == spec_record(policy, b).disks.total,
        spec_record(policy, a).disks.free == spec_record(policy, b).disks.free,
        spec_record(policy, a).disks.used == spec_record(policy, b).disks.used,
        policy == IoPolicy::SumAll ==> spec_record(policy, a).disks == spec_record(policy, b).disks,
        spec_record(policy, a).net.total_up == spec_record(policy, b).net.total_up,
        spec_record(policy, a).net.total_down == spec_record(policy, b).net.total_down,
        spec_record(policy, a).net.up == spec_record(policy, b).net.up,
        spec_record(policy, a).net.down == spec_record(policy, b).net.down,
        spec_record(policy, a).net.interfaces.to_multiset() == spec_record(
            policy,
            b,
        ).net.interfaces.to_multiset(),
{
    let read = |p: ProcessIo| p.read_bytes as nat;
    let written = |p: ProcessIo| p.written_bytes as nat;
    assert(process_reads(a.processes) =~= a.processes.map_values(read));
    assert(process_reads(b.processes) =~= b.processes.map_values(read));
    assert(process_writes(a.processes) =~= a.processes.map_values(written));
    assert(process_writes(b.processes) =~= b.processes.map_values(written));
    lemma_sum_ignores_order(a.processes, b.processes, read);
    lemma_sum_ignores_order(a.processes, b.processes, written);

    let up = |n: NetReadingView| n.transmitted;
    let down = |n: NetReadingView| n.received;
    let total_up = |n: NetReadingView| n.total_transmitted;
    let total_down = |n: NetReadingView| n.total_received;
    assert(net_ups(a.networks) =~= a.networks.map_values(up));
    assert(net_ups(b.networks) =~= b.networks.map_values(up));
    assert(net_downs(a.networks) =~= a.networks.map_values(down));
    assert(net_downs(b.networks) =~= b.networks.map_values(down));
    assert(net_total_ups(a.networks) =~= a.networks.map_values(total_up));
    assert(net_total_ups(b.networks) =~= b.networks.map_values(total_up));
    assert(net_total_downs(a.networks) =~= a.networks.map_values(total_down));
    assert(net_total_downs(b.networks) =~= b.networks.map_values(total_down));
    lemma_sum_ignores_order(a.networks, b.networks, up);
    lemma_sum_ignores_order(a.networks, b.networks, down);
    lemma_sum_ignores_order(a.networks, b.networks, total_up);
    lemma_sum_ignores_order(a.networks, b.networks, total_down);

    let entry = |n: NetReadingView| spec_interface(n);
    assert(spec_record(policy, a).net.interfaces =~= a.networks.map_values(entry));
    assert(spec_record(policy, b).net.interfaces =~= b.networks.map_values(entry));
    lemma_map_keeps_entries(a.networks, b.networks, entry);
}

} // verus!
