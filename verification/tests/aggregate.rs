use sysstats::aggregate::AggregateError;
use sysstats::reading::{DiskReading, IoPolicy, NetReading, ProbeReadings, ProcessIo};
use sysstats::record::{CpuCoreStats, CpuStats, DiskPartStats, DiskStats, MemStats, NetInterfaceStats, NetStats, SysStats};

fn no_memory() -> MemStats {
    MemStats { total: 0, used: 0, free: 0, available: 0, total_swap: 0, used_swap: 0, free_swap: 0 }
}

fn disk(name: &str, mount_point: &str, total: u64, available: u64) -> DiskReading {
    DiskReading { name: name.to_string(), mount_point: mount_point.to_string(), total, available }
}

fn io(read_bytes: u64, written_bytes: u64) -> ProcessIo {
    ProcessIo { read_bytes, written_bytes }
}

fn net(name: &str, up: u64, down: u64, total_up: u64, total_down: u64) -> NetReading {
    NetReading {
        name: name.to_string(),
        transmitted: up,
        received: down,
        total_transmitted: total_up,
        total_received: total_down,
    }
}

fn sample() -> ProbeReadings {
    ProbeReadings {
        mem: MemStats {
            total: 16_000,
            used: 9_000,
            free: 2_000,
            available: 7_000,
            total_swap: 4_000,
            used_swap: 1_000,
            free_swap: 3_000,
        },
        core_usage_bits: vec![12.5f32.to_bits(), 0f32.to_bits(), 100f32.to_bits()],
        disks: vec![disk("/dev/sda1", "/", 1_000, 400), disk("/dev/sdb1", "/home", 5_000, 5_000)],
        processes: vec![io(10, 1), io(20, 2), io(30, 3)],
        networks: vec![net("lo", 0, 0, 700, 700), net("eth0", 15, 25, 1_500, 2_500)],
    }
}

#[test]
fn empty_readings_give_an_empty_record() {
    let probe = ProbeReadings {
        mem: no_memory(),
        core_usage_bits: vec![],
        disks: vec![],
        processes: vec![],
        networks: vec![],
    };
    let expected = SysStats {
        mem: no_memory(),
        cpu: CpuStats { cpus: vec![] },
        disks: DiskStats { total: 0, free: 0, used: 0, read: 0, write: 0, disks: vec![] },
        net: NetStats { total_up: 0, total_down: 0, up: 0, down: 0, interfaces: vec![] },
    };
    assert_eq!(SysStats::aggregate(IoPolicy::SumAll, &probe), Ok(expected.clone()));
    assert_eq!(SysStats::aggregate(IoPolicy::FirstOnly, &probe), Ok(expected));
}

#[test]
fn record_of_a_sample_is_exact() {
    let stats = SysStats::aggregate(IoPolicy::SumAll, &sample()).unwrap();
    let expected = SysStats {
        mem: sample().mem,
        cpu: CpuStats {
            cpus: vec![
                CpuCoreStats { usage_bits: 0x4148_0000 },
                CpuCoreStats { usage_bits: 0 },
                CpuCoreStats { usage_bits: 0x42C8_0000 },
            ],
        },
        disks: DiskStats {
            total: 6_000,
            free: 5_400,
            used: 600,
            read: 60,
            write: 6,
            disks: vec![
                DiskPartStats {
                    name: "/dev/sda1".to_string(),
                    mount_point: "/".to_string(),
                    total: 1_000,
                    free: 400,
                    used: 600,
                },
                DiskPartStats {
                    name: "/dev/sdb1".to_string(),
                    mount_point: "/home".to_string(),
                    total: 5_000,
                    free: 5_000,
                    used: 0,
                },
            ],
        },
        net: NetStats {
            total_up: 2_200,
            total_down: 3_200,
            up: 15,
            down: 25,
            interfaces: vec![
                NetInterfaceStats { name: "lo".to_string(), up: 0, down: 0 },
                NetInterfaceStats { name: "eth0".to_string(), up: 15, down: 25 },
            ],
        },
    };
    assert_eq!(stats, expected);
}

#[test]
fn memory_is_copied_verbatim() {
    let mut probe = sample();
    probe.mem = MemStats {
        total: 1,
        used: 2,
        free: 3,
        available: 4,
        total_swap: 5,
        used_swap: 6,
        free_swap: 7,
    };
    let stats = SysStats::aggregate(IoPolicy::SumAll, &probe).unwrap();
    assert_eq!(stats.mem, probe.mem);
    assert_eq!(stats.mem.available, 4);
    assert_eq!(stats.mem.used_swap, 6);
}

#[test]
fn cores_keep_their_order() {
    let bits = vec![3u32, 1, 2, 1];
    let cpu = CpuStats::from_usage_bits(&bits);
    let got: Vec<u32> = cpu.cpus.iter().map(|c| c.usage_bits).collect();
    assert_eq!(got, bits);
    assert!(CpuStats::from_usage_bits(&vec![]).cpus.is_empty());
}

#[test]
fn first_only_takes_the_first_process() {
    let stats = SysStats::aggregate(IoPolicy::FirstOnly, &sample()).unwrap();
    assert_eq!(stats.disks.read, 10);
    assert_eq!(stats.disks.write, 1);
    let all = SysStats::aggregate(IoPolicy::SumAll, &sample()).unwrap();
    assert_eq!(all.disks.read, 60);
    assert_eq!(all.disks.write, 6);
    assert_eq!(stats.disks.disks, all.disks.disks);
    assert_eq!(stats.net, all.net);
}

#[test]
fn first_only_without_processes_is_zero() {
    let stats = DiskStats::aggregate(IoPolicy::FirstOnly, &vec![], &vec![]).unwrap();
    assert_eq!((stats.read, stats.write), (0, 0));
}

#[test]
fn first_only_never_overflows() {
    let processes = vec![io(u64::MAX, u64::MAX), io(u64::MAX, 1)];
    let stats = DiskStats::aggregate(IoPolicy::FirstOnly, &vec![], &processes).unwrap();
    assert_eq!((stats.read, stats.write), (u64::MAX, u64::MAX));
    assert_eq!(
        DiskStats::aggregate(IoPolicy::SumAll, &vec![], &processes),
        Err(AggregateError::ProcessIoOverflow)
    );
}

#[test]
fn disk_sum_law_on_a_sample() {
    let stats = SysStats::aggregate(IoPolicy::SumAll, &sample()).unwrap();
    let parts = &stats.disks.disks;
    assert_eq!(stats.disks.total, parts.iter().map(|d| d.total).sum::<u64>());
    assert_eq!(stats.disks.free, parts.iter().map(|d| d.free).sum::<u64>());
    assert_eq!(stats.disks.used, parts.iter().map(|d| d.used).sum::<u64>());
    assert_eq!(stats.disks.used + stats.disks.free, stats.disks.total);
}

#[test]
fn disk_part_law_on_a_sample() {
    let stats = SysStats::aggregate(IoPolicy::SumAll, &sample()).unwrap();
    assert_eq!(stats.disks.disks.len(), 2);
    for part in &stats.disks.disks {
        assert_eq!(part.used + part.free, part.total);
    }
}

#[test]
fn net_delta_law_on_a_sample() {
    let stats = SysStats::aggregate(IoPolicy::SumAll, &sample()).unwrap();
    let ifs = &stats.net.interfaces;
    assert_eq!(stats.net.up, ifs.iter().map(|n| n.up).sum::<u64>());
    assert_eq!(stats.net.down, ifs.iter().map(|n| n.down).sum::<u64>());
}

#[test]
fn idle_interfaces_still_appear() {
    let networks = vec![net("lo", 0, 0, 0, 0), net("wlan0", 0, 0, 0, 0)];
    let stats = NetStats::aggregate(&networks).unwrap();
    assert_eq!(
        stats,
        NetStats {
            total_up: 0,
            total_down: 0,
            up: 0,
            down: 0,
            interfaces: vec![
                NetInterfaceStats { name: "lo".to_string(), up: 0, down: 0 },
                NetInterfaceStats { name: "wlan0".to_string(), up: 0, down: 0 },
            ],
        }
    );
}

#[test]
fn full_disk_has_nothing_free() {
    let stats = DiskStats::aggregate(IoPolicy::SumAll, &vec![disk("d", "/d", 77, 0)], &vec![]).unwrap();
    assert_eq!((stats.total, stats.free, stats.used), (77, 0, 77));
    assert_eq!(stats.disks[0].used, 77);
}

#[test]
fn more_available_than_total_is_refused() {
    let disks = vec![disk("a", "/a", 10, 5), disk("b", "/b", 10, 11)];
    assert_eq!(
        DiskStats::aggregate(IoPolicy::SumAll, &disks, &vec![]),
        Err(AggregateError::FreeExceedsTotal)
    );
    let mut probe = sample();
    probe.disks = disks;
    assert_eq!(
        SysStats::aggregate(IoPolicy::FirstOnly, &probe),
        Err(AggregateError::FreeExceedsTotal)
    );
}

#[test]
fn disk_totals_that_do_not_fit_are_refused() {
    let disks = vec![disk("a", "/a", u64::MAX, 0), disk("b", "/b", 1, 0)];
    assert_eq!(
        DiskStats::aggregate(IoPolicy::SumAll, &disks, &vec![]),
        Err(AggregateError::DiskTotalsOverflow)
    );
    let fits = vec![disk("a", "/a", u64::MAX - 1, 3), disk("b", "/b", 1, 1)];
    let stats = DiskStats::aggregate(IoPolicy::SumAll, &fits, &vec![]).unwrap();
    assert_eq!((stats.total, stats.free, stats.used), (u64::MAX, 4, u64::MAX - 4));
}

#[test]
fn process_sums_that_do_not_fit_are_refused() {
    let reads = vec![io(u64::MAX, 0), io(1, 0)];
    assert_eq!(
        DiskStats::aggregate(IoPolicy::SumAll, &vec![], &reads),
        Err(AggregateError::ProcessIoOverflow)
    );
    let writes = vec![io(0, 1), io(0, u64::MAX)];
    assert_eq!(
        DiskStats::aggregate(IoPolicy::SumAll, &vec![], &writes),
        Err(AggregateError::ProcessIoOverflow)
    );
    let fits = vec![io(u64::MAX - 1, 0), io(1, u64::MAX)];
    let stats = DiskStats::aggregate(IoPolicy::SumAll, &vec![], &fits).unwrap();
    assert_eq!((stats.read, stats.write), (u64::MAX, u64::MAX));
}

#[test]
fn net_sums_that_do_not_fit_are_refused() {
    let base = net("a", 1, 1, 1, 1);
    for which in 0..4 {
        let mut big = net("b", 0, 0, 0, 0);
        match which {
            0 => big.transmitted = u64::MAX,
            1 => big.received = u64::MAX,
            2 => big.total_transmitted = u64::MAX,
            _ => big.total_received = u64::MAX,
        }
        assert_eq!(NetStats::aggregate(&vec![base.clone(), big.clone()]), None);
        let mut probe = sample();
        probe.networks = vec![big, base.clone()];
        assert_eq!(
            SysStats::aggregate(IoPolicy::SumAll, &probe),
            Err(AggregateError::NetTotalsOverflow)
        );
    }
    let fits = vec![net("a", 1, 2, 3, 4), net("b", u64::MAX - 1, 0, u64::MAX - 3, 0)];
    let stats = NetStats::aggregate(&fits).unwrap();
    assert_eq!((stats.up, stats.down, stats.total_up, stats.total_down), (u64::MAX, 2, u64::MAX, 4));
}

#[test]
fn disk_errors_come_before_network_errors() {
    let mut probe = sample();
    probe.networks = vec![net("a", u64::MAX, 0, 0, 0), net("b", 1, 0, 0, 0)];
    probe.processes = vec![io(u64::MAX, 0), io(1, 0)];
    assert_eq!(
        SysStats::aggregate(IoPolicy::SumAll, &probe),
        Err(AggregateError::ProcessIoOverflow)
    );
    assert_eq!(
        SysStats::aggregate(IoPolicy::FirstOnly, &probe),
        Err(AggregateError::NetTotalsOverflow)
    );
    probe.disks = vec![disk("a", "/a", u64::MAX, 0), disk("b", "/b", 1, 0)];
    assert_eq!(
        SysStats::aggregate(IoPolicy::SumAll, &probe),
        Err(AggregateError::DiskTotalsOverflow)
    );
    probe.disks.push(disk("c", "/c", 0, 1));
    assert_eq!(
        SysStats::aggregate(IoPolicy::SumAll, &probe),
        Err(AggregateError::FreeExceedsTotal)
    );
}

#[test]
fn cumulative_totals_grow_with_the_counters() {
    let earlier = sample();
    let mut later = sample();
    later.networks[0].total_transmitted += 5;
    later.networks[1].total_received += 9;
    later.networks.push(net("tun0", 1, 1, 1, 1));
    let a = SysStats::aggregate(IoPolicy::SumAll, &earlier).unwrap();
    let b = SysStats::aggregate(IoPolicy::SumAll, &later).unwrap();
    assert!(b.net.total_up >= a.net.total_up);
    assert!(b.net.total_down >= a.net.total_down);
    assert_eq!(b.net.total_up, 2_206);
    assert_eq!(b.net.total_down, 3_210);
}

#[test]
fn topology_follows_the_readings() {
    let earlier = sample();
    let mut later = sample();
    later.core_usage_bits = vec![1, 2, 3];
    later.networks[1].transmitted = 99;
    let a = SysStats::aggregate(IoPolicy::SumAll, &earlier).unwrap();
    let b = SysStats::aggregate(IoPolicy::SumAll, &later).unwrap();
    assert_eq!(a.cpu.cpus.len(), 3);
    assert_eq!(a.cpu.cpus.len(), b.cpu.cpus.len());
    let names_a: Vec<&str> = a.net.interfaces.iter().map(|n| n.name.as_str()).collect();
    let names_b: Vec<&str> = b.net.interfaces.iter().map(|n| n.name.as_str()).collect();
    assert_eq!(names_a, vec!["lo", "eth0"]);
    assert_eq!(names_a, names_b);
}

#[test]
fn sums_do_not_depend_on_the_order() {
    let forward = sample();
    let mut backward = sample();
    backward.processes.reverse();
    backward.networks.reverse();
    let a = SysStats::aggregate(IoPolicy::SumAll, &forward).unwrap();
    let b = SysStats::aggregate(IoPolicy::SumAll, &backward).unwrap();
    assert_eq!(a.disks, b.disks);
    assert_eq!((a.net.up, a.net.down), (b.net.up, b.net.down));
    assert_eq!((a.net.total_up, a.net.total_down), (b.net.total_up, b.net.total_down));
    assert_eq!(b.net.interfaces[0].name, "eth0");
}

#[test]
fn policy_by_operating_system() {
    assert_eq!(IoPolicy::for_os("windows"), IoPolicy::FirstOnly);
    assert_eq!(IoPolicy::for_os("freebsd"), IoPolicy::FirstOnly);
    assert_eq!(IoPolicy::for_os("linux"), IoPolicy::SumAll);
    assert_eq!(IoPolicy::for_os("macos"), IoPolicy::SumAll);
    assert_eq!(IoPolicy::for_os("Windows"), IoPolicy::SumAll);
    assert_eq!(IoPolicy::for_os(""), IoPolicy::SumAll);
}
