//! What holds of every record, and of the records of successive readings.

use vstd::prelude::*;
use crate::aggregate::{disk_availables, disk_totals, disk_useds, disks_sound, net_downs, net_total_downs, net_total_ups, net_ups, spec_record};
use crate::reading::{DiskReadingView, IoPolicy, ProbeView};
use crate::sums::{lemma_sum_pointwise_le, sum};

verus! {

/// In every record the disk `total`, `free` and `used` are the sums of the
/// same fields over the record's disk entries.
pub proof fn lemma_disk_sums(policy: IoPolicy, probe: ProbeView)
    ensures
        spec_record(policy, probe).disks.sums_hold(),
{
    let disks = spec_record(policy, probe).disks;
    assert(disks.part_totals() =~= disk_totals(probe.disks));
    assert(disks.part_frees() =~= disk_availables(probe.disks));
    assert(disks.part_useds() =~= disk_useds(probe.disks));
}

/// In every record of sound readings each disk entry's `used` and `free`
/// add up to its `total`.
pub proof fn lemma_disk_parts_balanced(policy: IoPolicy, probe: ProbeView)
    requires
        disks_sound(probe.disks),
    ensures
        spec_record(policy, probe).disks.parts_balanced(),
{
    let disks = spec_record(policy, probe).disks;
    assert forall|i: int| 0 <= i < disks.disks.len() implies (#[trigger] disks.disks[i]).balanced() by {
        assert(probe.disks[i].available <= probe.disks[i].total);
    }
}

/// Over sound readings the space in use and the space available add up to
/// the size, summed over all disks.
pub proof fn lemma_used_and_available_sum_to_total(disks: Seq<DiskReadingView>)
    requires
        disks_sound(disks),
    ensures
        sum(disk_useds(disks)) + sum(disk_availables(disks)) == sum(disk_totals(disks)),
    decreases disks.len(),
{
    if disks.len() > 0 {
        let rest = disks.drop_last();
        assert(disks.last().available <= disks.last().total);
        assert forall|i: int| 0 <= i < rest.len() implies (#[trigger] rest[i]).available
            <= rest[i].total by {
            assert(rest[i] == disks[i]);
        }
        lemma_used_and_available_sum_to_total(rest);
        assert(disk_useds(disks).drop_last() =~= disk_useds(rest));
        assert(disk_availables(disks).drop_last() =~= disk_availables(rest));
        assert(disk_totals(disks).drop_last() =~= disk_totals(rest));
    }
}

/// In every record of sound readings the disk `used` and `free` add up to
/// the disk `total`.
pub proof fn lemma_disk_totals_balanced(policy: IoPolicy, probe: ProbeView)
    requires
        disks_sound(probe.disks),
    ensures
        spec_record(policy, probe).disks.balanced(),
{
    lemma_used_and_available_sum_to_total(probe.disks);
}

/// In every record the network `up` and `down` are the sums of the same
/// fields over the record's interfaces.
pub proof fn lemma_net_deltas(policy: IoPolicy, probe: ProbeView)
    ensures
        spec_record(policy, probe).net.deltas_hold(),
{
    let net = spec_record(policy, probe).net;
    assert(net.interface_ups() =~= net_ups(probe.networks));
    assert(net.interface_downs() =~= net_downs(probe.networks));
}

/// No byte count of a record is negative.
pub proof fn lemma_counts_not_negative(policy: IoPolicy, probe: ProbeView)
    ensures
        ({
            let r = spec_record(policy, probe);
            &&& 0 <= r.mem.total && 0 <= r.mem.used && 0 <= r.mem.free && 0 <= r.mem.available
            &&& 0 <= r.mem.total_swap && 0 <= r.mem.used_swap && 0 <= r.mem.free_swap
            &&& 0 <= r.disks.total && 0 <= r.disks.free && 0 <= r.disks.used
            &&& 0 <= r.disks.read && 0 <= r.disks.write
            &&& 0 <= r.net.total_up && 0 <= r.net.total_down && 0 <= r.net.up && 0 <= r.net.down
            &&& forall|i: int|
                0 <= i < r.disks.disks.len() ==> 0 <= (#[trigger] r.disks.disks[i]).total && 0
                    <= r.disks.disks[i].free && 0 <= r.disks.disks[i].used
            &&& forall|i: int|
                0 <= i < r.net.interfaces.len() ==> 0 <= (#[trigger] r.net.interfaces[i]).up && 0
                    <= r.net.interfaces[i].down
        }),
{
}

/// The cumulative network totals never go down from one reading to the
/// next, as long as every interface of the earlier reading is still there
/// at its index and none of its cumulative counters went down.
pub proof fn lemma_net_totals_monotone(policy: IoPolicy, earlier: ProbeView, later: ProbeView)
    requires
        earlier.networks.len() <= later.networks.len(),
        forall|i: int|
            0 <= i < earlier.networks.len() ==> (#[trigger] earlier.networks[i]).total_transmitted
                <= later.networks[i].total_transmitted,
        forall|i: int|
            0 <= i < earlier.networks.len() ==> (#[trigger] earlier.networks[i]).total_received
                <= later.networks[i].total_received,
    ensures
        spec_record(policy, earlier).net.total_up <= spec_record(policy, later).net.total_up,
        spec_record(policy, earlier).net.total_down <= spec_record(policy, later).net.total_down,
{
    assert forall|i: int| 0 <= i < earlier.networks.len() implies net_total_ups(
        earlier.networks,
    )[i] <= net_total_ups(later.networks)[i] by {
        assert(earlier.networks[i].total_transmitted <= later.networks[i].total_transmitted);
    }
    assert forall|i: int| 0 <= i < earlier.networks.len() implies net_total_downs(
        earlier.networks,
    )[i] <= net_total_downs(later.networks)[i] by {
        assert(earlier.networks[i].total_received <= later.networks[i].total_received);
    }
    lemma_sum_pointwise_le(net_total_ups(earlier.networks), net_total_ups(later.networks));
    lemma_sum_pointwise_le(net_total_downs(earlier.networks), net_total_downs(later.networks));
}

/// The shape of a record is the shape of its readings: one core entry per
/// core read, one disk entry per disk and one interface entry per interface,
/// each under the name it was read with. So two readings of as many cores
/// give records of as many cores, and two readings of the same interface
/// names give records of the same interface names.
pub proof fn lemma_topology_follows_readings(policy: IoPolicy, earlier: ProbeView, later: ProbeView)
    ensures
        spec_record(policy, earlier).cores.len() == earlier.cores.len(),
        spec_record(policy, earlier).disks.disks.len() == earlier.disks.len(),
        spec_record(policy, earlier).net.interfaces.len() == earlier.networks.len(),
        forall|i: int|
            0 <= i < earlier.networks.len() ==> (#[trigger] spec_record(
                policy,
                earlier,
            ).net.interfaces[i]).name == earlier.networks[i].name,
        earlier.cores.len() == later.cores.len() ==> spec_record(policy, earlier).cores.len()
            == spec_record(policy, later).cores.len(),
        earlier.networks.len() == later.networks.len() && (forall|i: int|
            0 <= i < earlier.networks.len() ==> (#[trigger] earlier.networks[i]).name
                == later.networks[i].name) ==> (forall|i: int|
            0 <= i < earlier.networks.len() ==> (#[trigger] spec_record(
                policy,
                earlier,
            ).net.interfaces[i]).name == spec_record(policy, later).net.interfaces[i].name),
{
    if earlier.networks.len() == later.networks.len() && (forall|i: int|
        0 <= i < earlier.networks.len() ==> (#[trigger] earlier.networks[i]).name
            == later.networks[i].name) {
        assert forall|i: int| 0 <= i < earlier.networks.len() implies (#[trigger] spec_record(
            policy,
            earlier,
        ).net.interfaces[i]).name == spec_record(policy, later).net.interfaces[i].name by {
            assert(earlier.networks[i].name == later.networks[i].name);
        }
    }
}

} // verus!
