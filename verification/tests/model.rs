use below::model::{
    bytes_per_sec, find_last, find_last_child, io_details, join_path, position_of_name, CgroupCpuModel, CgroupIoModel,
    CgroupMemoryModel, CgroupModel, CgroupPressureModel, CpuModel, DiskModel, Model,
    NetworkModel, ProcessModel, SingleProcessModel, SystemModel, VmModel, SECTOR_SIZE,
};
use below::rate::{Elapsed, Ratio};
use below::sample::{
    clone_opt_string, CgroupSample, CpuStat, DataFrame, DiskStat, IoStat, MemInfo, MemoryEvents, MemoryHigh,
    MemoryStat, NetStat, PidInfo, PidMap, Pressure, ProcStat, Sample, SystemSample, VmStat,
};
use below::store::SamplePackage;

const NANOS: u128 = 1_000_000_000;

fn secs(secs: u64) -> Elapsed {
    Elapsed::from_secs(secs)
}

// The rate of `growth` over `secs` seconds.
fn per_sec(growth: u128, secs: u128) -> Option<Ratio> {
    Some(Ratio { num: growth * NANOS, den: secs * NANOS })
}

// The percentage of `secs` seconds that `usec` microseconds are.
fn pct(usec: u128, secs: u128) -> Option<Ratio> {
    Some(Ratio { num: usec * 100, den: secs * 1_000_000 })
}

fn cgroup(usage_usec: u64, children: Vec<(&str, CgroupSample)>) -> CgroupSample {
    CgroupSample {
        cpu_stat: Some(CpuStat {
            usage_usec: Some(usage_usec),
            user_usec: Some(usage_usec / 2),
            system_usec: Some(usage_usec / 2),
            nr_throttled: Some(usage_usec / 1000),
        }),
        io_stat: None,
        memory_current: Some(4096),
        memory_stat: Some(MemoryStat { anon: Some(1), file: Some(2), pgfault: Some(usage_usec) }),
        pressure: Some(Pressure { cpu_some_usec: Some(usage_usec / 10), ..Default::default() }),
        children: Some(children.into_iter().map(|(n, c)| (n.to_string(), c)).collect()),
        memory_swap_current: Some(8),
        memory_high: Some(MemoryHigh::Max),
        memory_events: Some(MemoryEvents {
            low: Some(1),
            high: Some(2),
            max: Some(3),
            oom: Some(4),
            oom_kill: Some(5),
        }),
        inode_number: Some(42),
    }
}

fn io(rbytes: u64, wbytes: u64) -> IoStat {
    IoStat { rbytes: Some(rbytes), wbytes: Some(wbytes), rios: Some(rbytes / 10), wios: None }
}

fn no_io() -> CgroupIoModel {
    CgroupIoModel {
        rbytes_per_sec: None,
        wbytes_per_sec: None,
        rios_per_sec: None,
        wios_per_sec: None,
        rwbytes_per_sec: None,
    }
}

fn named<T>(entries: Vec<(&str, T)>) -> Vec<(String, T)> {
    entries.into_iter().map(|(n, v)| (n.to_string(), v)).collect()
}

#[test]
fn position_of_name_finds_the_first_occurrence() {
    let entries = named(vec![("a", 1), ("b", 2), ("a", 3)]);
    assert_eq!(position_of_name(&entries, &"a".to_string()), Some(0));
    assert_eq!(position_of_name(&entries, &"b".to_string()), Some(1));
    assert_eq!(position_of_name(&entries, &"c".to_string()), None);
    assert_eq!(position_of_name(&Vec::<(String, u8)>::new(), &"a".to_string()), None);
    assert_eq!(find_last(Some((&entries, secs(2))), &"a".to_string()), Some((&1, secs(2))));
    assert_eq!(find_last(Some((&entries, secs(2))), &"z".to_string()), None);
    assert_eq!(find_last::<i32>(None, &"a".to_string()), None);
}

#[test]
fn child_path_joins_with_a_slash() {
    assert_eq!(join_path(&"".to_string(), &"system.slice".to_string()), "/system.slice");
    assert_eq!(join_path(&"/a".to_string(), &"b".to_string()), "/a/b");
}

#[test]
fn host_cpu_shares() {
    let begin = ProcStat { user_usec: Some(1_000_000), system_usec: Some(500_000), idle_usec: Some(0), ..Default::default() };
    let end = ProcStat { user_usec: Some(3_000_000), system_usec: Some(1_500_000), idle_usec: Some(7_000_000), ..Default::default() };
    let model = CpuModel::new(&begin, &end, secs(10));
    assert_eq!(model.user_pct, pct(2_000_000, 10));
    assert_eq!(model.system_pct, pct(1_000_000, 10));
    assert_eq!(model.idle_pct, pct(7_000_000, 10));
    assert_eq!(model.usage_pct, pct(3_000_000, 10));
}

#[test]
fn usage_is_the_sum_of_what_is_known() {
    let begin = ProcStat { user_usec: Some(1_000_000), ..Default::default() };
    let end = ProcStat { user_usec: Some(3_000_000), system_usec: Some(1), ..Default::default() };
    let model = CpuModel::new(&begin, &end, secs(10));
    assert_eq!(model.system_pct, None);
    assert_eq!(model.usage_pct, pct(2_000_000, 10));
    let model = CpuModel::new(&ProcStat::default(), &ProcStat::default(), secs(10));
    assert_eq!(model.usage_pct, None);
}

#[test]
fn paging_rates_need_an_older_reading() {
    let begin = VmStat { pgpgin: Some(10), pgpgout: Some(50), oom_kill: Some(1) };
    let end = VmStat { pgpgin: Some(40), pgpgout: Some(20), oom_kill: Some(2) };
    let model = VmModel::new(&end, Some((&begin, secs(3))));
    assert_eq!(model.pgpgin_per_sec, per_sec(30, 3));
    // The counter went back: no rate.
    assert_eq!(model.pgpgout_per_sec, None);
    assert_eq!(model.oom_kill, Some(2));
    let model = VmModel::new(&end, None);
    assert_eq!(model, VmModel { pgpgin_per_sec: None, pgpgout_per_sec: None, oom_kill: Some(2) });
}

#[test]
fn disk_throughput_is_sectors_times_sector_size() {
    assert_eq!(SECTOR_SIZE, 512);
    let begin = DiskStat { read_sectors: Some(100), write_sectors: Some(10), read_completed: Some(1), ..Default::default() };
    let end = DiskStat { read_sectors: Some(300), write_sectors: Some(20), read_completed: Some(5), write_completed: Some(6), ..Default::default() };
    let model = DiskModel::new(&end, Some((&begin, secs(2))));
    assert_eq!(model.read_bytes_per_sec, per_sec(200 * 512, 2));
    assert_eq!(model.write_bytes_per_sec, per_sec(10 * 512, 2));
    assert_eq!(model.disk_total_bytes_per_sec, per_sec(210 * 512, 2));
    assert_eq!(model.discard_bytes_per_sec, None);
    assert_eq!(model.read_completed, Some(5));
    assert_eq!(model.write_completed, Some(6));
    assert_eq!(model.discard_completed, None);
}

#[test]
fn disk_total_survives_a_missing_contributor() {
    let begin = DiskStat { read_sectors: Some(100), write_sectors: Some(10), ..Default::default() };
    let end = DiskStat { read_sectors: Some(300), write_sectors: Some(5), ..Default::default() };
    let model = DiskModel::new(&end, Some((&begin, secs(2))));
    assert_eq!(model.write_bytes_per_sec, None);
    assert_eq!(model.disk_total_bytes_per_sec, per_sec(200 * 512, 2));
    let model = DiskModel::new(&end, None);
    assert_eq!(model.read_bytes_per_sec, None);
    assert_eq!(model.disk_total_bytes_per_sec, None);
}

#[test]
fn network_rates() {
    let begin = NetStat { rx_bytes: Some(1000), tx_bytes: Some(500), rx_packets: Some(10), tx_packets: None, tcp_retrans_segs: Some(4) };
    let end = NetStat { rx_bytes: Some(3000), tx_bytes: Some(1500), rx_packets: Some(30), tx_packets: Some(9), tcp_retrans_segs: Some(4) };
    let model = NetworkModel::new(&end, Some((&begin, secs(4))));
    assert_eq!(model.rx_bytes_per_sec, per_sec(2000, 4));
    assert_eq!(model.tx_bytes_per_sec, per_sec(1000, 4));
    assert_eq!(model.throughput_per_sec, per_sec(3000, 4));
    assert_eq!(model.rx_packets_per_sec, per_sec(20, 4));
    assert_eq!(model.tx_packets_per_sec, None);
    assert_eq!(model.tcp_retrans_segs_per_sec, per_sec(0, 4));
    let model = NetworkModel::new(&end, None);
    assert_eq!(model.rx_bytes_per_sec, None);
    assert_eq!(model.throughput_per_sec, None);
}

#[test]
fn process_model() {
    let begin = PidInfo { user_usecs: Some(100), system_usecs: Some(50), rbytes: Some(0), wbytes: Some(10), ..Default::default() };
    let end = PidInfo {
        comm: Some("below".to_string()),
        cgroup: Some("/system.slice/below.service".to_string()),
        ppid: Some(1),
        num_threads: Some(3),
        rss_pages: Some(256),
        user_usecs: Some(1_000_100),
        system_usecs: Some(500_050),
        rbytes: Some(4096),
        wbytes: Some(10),
    };
    let model = SingleProcessModel::new(77, &end, Some((&begin, secs(5))));
    assert_eq!(model.pid, 77);
    assert_eq!(model.comm, Some("below".to_string()));
    assert_eq!(model.cgroup, Some("/system.slice/below.service".to_string()));
    assert_eq!(model.ppid, Some(1));
    assert_eq!(model.num_threads, Some(3));
    assert_eq!(model.rss_pages, Some(256));
    assert_eq!(model.cpu_user_pct, pct(1_000_000, 5));
    assert_eq!(model.cpu_system_pct, pct(500_000, 5));
    assert_eq!(model.cpu_usage_pct, pct(1_500_000, 5));
    assert_eq!(model.rbytes_per_sec, per_sec(4096, 5));
    assert_eq!(model.wbytes_per_sec, per_sec(0, 5));
    assert_eq!(model.rwbytes_per_sec, per_sec(4096, 5));

    let alone = SingleProcessModel::new(77, &end, None);
    assert_eq!(alone.comm, Some("below".to_string()));
    assert_eq!(alone.rss_pages, Some(256));
    assert_eq!(alone.cpu_usage_pct, None);
    assert_eq!(alone.rwbytes_per_sec, None);
}

#[test]
fn processes_are_matched_by_pid() {
    let info = |user_usecs: u64| PidInfo { user_usecs: Some(user_usecs), ..Default::default() };
    let mut older = PidMap::new();
    older.insert(1, info(100));
    older.insert(2, info(200));
    let mut newer = PidMap::new();
    newer.insert(1, info(1_000_100));
    newer.insert(3, info(300));

    let model = ProcessModel::new(&newer, Some((&older, secs(10))));
    assert_eq!(model.processes.keys().copied().collect::<Vec<_>>(), vec![1, 3]);
    assert_eq!(model.processes[&1].pid, 1);
    assert_eq!(model.processes[&1].cpu_user_pct, pct(1_000_000, 10));
    // A process that the older sample does not know has no rates.
    assert_eq!(model.processes[&3].pid, 3);
    assert_eq!(model.processes[&3].cpu_user_pct, None);

    let model = ProcessModel::new(&newer, None);
    assert_eq!(model.processes.len(), 2);
    assert_eq!(model.processes[&1].cpu_user_pct, None);
    assert!(ProcessModel::new(&PidMap::new(), Some((&older, secs(10)))).processes.is_empty());
}

#[test]
fn system_model() {
    let older = SystemSample {
        stat: Some(ProcStat { user_usec: Some(0), ..Default::default() }),
        meminfo: Some(MemInfo { total: Some(1), ..Default::default() }),
        vmstat: Some(VmStat { pgpgin: Some(0), ..Default::default() }),
        hostname: "old".to_string(),
        kernel_version: None,
        os_release: None,
        disks: named(vec![("sdb", DiskStat { read_sectors: Some(0), ..Default::default() })]),
    };
    let newer = SystemSample {
        stat: Some(ProcStat { user_usec: Some(5_000_000), ..Default::default() }),
        meminfo: Some(MemInfo { total: Some(2), free: Some(1), available: None }),
        vmstat: Some(VmStat { pgpgin: Some(20), ..Default::default() }),
        hostname: "new".to_string(),
        kernel_version: Some("5.6".to_string()),
        os_release: Some("os".to_string()),
        disks: named(vec![
            ("sda", DiskStat { read_sectors: Some(10), read_completed: Some(3), ..Default::default() }),
            ("sdb", DiskStat { read_sectors: Some(10), ..Default::default() }),
        ]),
    };
    let model = SystemModel::new(&newer, Some((&older, secs(10))));
    assert_eq!(model.hostname, "new");
    assert_eq!(model.kernel_version, Some("5.6".to_string()));
    assert_eq!(model.os_release, Some("os".to_string()));
    assert_eq!(model.cpu.unwrap().user_pct, pct(5_000_000, 10));
    assert_eq!(model.mem, Some(MemInfo { total: Some(2), free: Some(1), available: None }));
    assert_eq!(model.vm.unwrap().pgpgin_per_sec, per_sec(20, 10));
    assert_eq!(model.disks.len(), 2);
    assert_eq!(model.disks[0].0, "sda");
    // A disk that the older sample lacks has gauges only.
    assert_eq!(model.disks[0].1.read_bytes_per_sec, None);
    assert_eq!(model.disks[0].1.read_completed, Some(3));
    assert_eq!(model.disks[1].0, "sdb");
    assert_eq!(model.disks[1].1.read_bytes_per_sec, per_sec(10 * 512, 10));

    let alone = SystemModel::new(&newer, None);
    assert_eq!(alone.hostname, "new");
    assert_eq!(alone.cpu, None);
    assert_eq!(alone.mem, Some(MemInfo { total: Some(2), free: Some(1), available: None }));
    assert_eq!(alone.vm, Some(VmModel { pgpgin_per_sec: None, pgpgout_per_sec: None, oom_kill: None }));
    assert_eq!(alone.disks[1].1.read_bytes_per_sec, None);

    // Without the readings themselves there is nothing to derive.
    let mut blank = SystemSample::default();
    blank.hostname = "h".to_string();
    let model = SystemModel::new(&blank, Some((&older, secs(10))));
    assert_eq!(model.cpu, None);
    assert_eq!(model.vm, None);
    assert_eq!(model.mem, None);
    let model = SystemModel::new(&newer, Some((&blank, secs(10))));
    assert_eq!(model.cpu, None);
    assert_eq!(model.vm.unwrap().pgpgin_per_sec, None);
}

#[test]
fn cgroup_leaf_models() {
    let begin = CpuStat { usage_usec: Some(0), user_usec: Some(0), system_usec: Some(10), nr_throttled: Some(1) };
    let end = CpuStat { usage_usec: Some(2_000_000), user_usec: Some(1_500_000), system_usec: Some(5), nr_throttled: Some(11) };
    assert_eq!(
        CgroupCpuModel::new(&begin, &end, secs(4)),
        CgroupCpuModel {
            usage_pct: pct(2_000_000, 4),
            user_pct: pct(1_500_000, 4),
            system_pct: None,
            nr_throttled_per_sec: per_sec(10, 4),
        }
    );
    let begin = Pressure { cpu_some_usec: Some(0), io_some_usec: Some(0), io_full_usec: Some(0), memory_some_usec: Some(0), memory_full_usec: None };
    let end = Pressure { cpu_some_usec: Some(100_000), io_some_usec: Some(200_000), io_full_usec: Some(50_000), memory_some_usec: Some(0), memory_full_usec: Some(1) };
    assert_eq!(
        CgroupPressureModel::new(&begin, &end, secs(1)),
        CgroupPressureModel {
            cpu_some_pct: pct(100_000, 1),
            io_some_pct: pct(200_000, 1),
            io_full_pct: pct(50_000, 1),
            memory_some_pct: pct(0, 1),
            memory_full_pct: None,
        }
    );
    let model = CgroupIoModel::new(&io(300, 50), Some((&io(100, 10), secs(2))));
    assert_eq!(
        model,
        CgroupIoModel {
            rbytes_per_sec: per_sec(200, 2),
            wbytes_per_sec: per_sec(40, 2),
            rios_per_sec: per_sec(20, 2),
            wios_per_sec: None,
            rwbytes_per_sec: per_sec(240, 2),
        }
    );
    assert_eq!(CgroupIoModel::new(&io(300, 50), None), no_io());
    assert_eq!(CgroupIoModel::empty(), no_io());
}

#[test]
fn io_of_all_devices_is_summed_rate_by_rate() {
    let older = named(vec![("8:0", io(100, 10)), ("8:16", io(0, 0))]);
    let newer = named(vec![("8:0", io(300, 50)), ("8:16", io(1000, 0)), ("8:32", io(7, 7))]);
    let (details, total) = io_details(&newer, Some((&older, secs(2))));
    assert_eq!(details.len(), 3);
    assert_eq!(details[0].0, "8:0");
    assert_eq!(details[0].1.rbytes_per_sec, per_sec(200, 2));
    assert_eq!(details[1].0, "8:16");
    assert_eq!(details[1].1.rbytes_per_sec, per_sec(1000, 2));
    // A device that the older sample lacks has no rates, and does not
    // blank the total.
    assert_eq!(details[2].0, "8:32");
    assert_eq!(details[2].1, no_io());
    assert_eq!(
        total,
        CgroupIoModel {
            rbytes_per_sec: per_sec(1200, 2),
            wbytes_per_sec: per_sec(40, 2),
            rios_per_sec: per_sec(120, 2),
            wios_per_sec: None,
            rwbytes_per_sec: per_sec(1240, 2),
        }
    );
    assert_eq!(details[0].1.plus(&details[2].1), details[0].1);

    let (details, total) = io_details(&newer, None);
    assert_eq!(details.len(), 3);
    assert_eq!(total, no_io());
    let (details, total) = io_details(&vec![], Some((&older, secs(2))));
    assert!(details.is_empty());
    assert_eq!(total, no_io());
}

#[test]
fn cgroup_memory_is_taken_from_the_newer_sample() {
    let older = cgroup(1_000, vec![]);
    let newer = cgroup(4_000, vec![]);
    let model = CgroupMemoryModel::new(&newer, Some((&older, secs(3))));
    assert_eq!(
        model,
        CgroupMemoryModel {
            total: Some(4096),
            swap: Some(8),
            anon: Some(1),
            file: Some(2),
            pgfault_per_sec: per_sec(3000, 3),
            memory_high: Some(MemoryHigh::Max),
            events_low: Some(1),
            events_high: Some(2),
            events_max: Some(3),
            events_oom: Some(4),
            events_oom_kill: Some(5),
        }
    );
    let alone = CgroupMemoryModel::new(&newer, None);
    assert_eq!(alone.total, Some(4096));
    assert_eq!(alone.pgfault_per_sec, None);
    let blank = CgroupMemoryModel::new(&CgroupSample::default(), Some((&older, secs(3))));
    assert_eq!(blank.total, None);
    assert_eq!(blank.anon, None);
    assert_eq!(blank.events_oom, None);
    assert_eq!(blank.pgfault_per_sec, None);
}

#[test]
fn cgroup_tree_has_the_shape_of_the_newer_sample() {
    let older = cgroup(
        0,
        vec![
            ("a.slice", cgroup(0, vec![("x.scope", cgroup(0, vec![]))])),
            ("gone.slice", cgroup(0, vec![])),
        ],
    );
    let newer = cgroup(
        4_000_000,
        vec![
            ("a.slice", cgroup(2_000_000, vec![("x.scope", cgroup(1_000_000, vec![])), ("y.scope", cgroup(500_000, vec![]))])),
            ("new.slice", cgroup(1_000_000, vec![])),
        ],
    );
    let model = CgroupModel::new("<root>".to_string(), String::new(), &newer, Some((&older, secs(10))));
    assert_eq!(model.name, "<root>");
    assert_eq!(model.full_path, "");
    assert_eq!(model.inode_number, Some(42));
    assert_eq!(model.cpu.unwrap().usage_pct, pct(4_000_000, 10));
    assert_eq!(model.pressure.unwrap().cpu_some_pct, pct(400_000, 10));
    assert_eq!(model.io, None);
    assert_eq!(model.io_total, None);
    assert_eq!(model.children.len(), 2);

    let a = &model.children[0];
    assert_eq!(a.name, "a.slice");
    assert_eq!(a.full_path, "/a.slice");
    assert_eq!(a.cpu.unwrap().usage_pct, pct(2_000_000, 10));
    assert_eq!(a.children.len(), 2);
    assert_eq!(a.children[0].name, "x.scope");
    assert_eq!(a.children[0].full_path, "/a.slice/x.scope");
    assert_eq!(a.children[0].cpu.unwrap().usage_pct, pct(1_000_000, 10));
    // Subtrees that the older sample lacks have gauges only.
    assert_eq!(a.children[1].name, "y.scope");
    assert_eq!(a.children[1].cpu, None);
    assert_eq!(a.children[1].memory.total, Some(4096));

    let new = &model.children[1];
    assert_eq!(new.name, "new.slice");
    assert_eq!(new.full_path, "/new.slice");
    assert_eq!(new.cpu, None);
    assert_eq!(new.pressure, None);
    assert_eq!(new.memory.total, Some(4096));
    assert_eq!(new.memory.pgfault_per_sec, None);
    assert!(new.children.is_empty());
}

#[test]
fn cgroup_model_without_an_older_sample_has_gauges_only() {
    let mut newer = cgroup(4_000_000, vec![("a.slice", cgroup(2_000_000, vec![]))]);
    newer.io_stat = Some(named(vec![("8:0", io(300, 50))]));
    let model = CgroupModel::new("<root>".to_string(), String::new(), &newer, None);
    assert_eq!(model.cpu, None);
    assert_eq!(model.pressure, None);
    assert_eq!(model.memory.total, Some(4096));
    assert_eq!(model.memory.pgfault_per_sec, None);
    assert_eq!(model.io, Some(named(vec![("8:0", no_io())])));
    assert_eq!(model.io_total, Some(no_io()));
    assert_eq!(model.children.len(), 1);
    assert_eq!(model.children[0].cpu, None);
    assert_eq!(model.children[0].memory.swap, Some(8));
}

#[test]
fn cgroup_io_is_matched_by_device() {
    let mut older = cgroup(0, vec![]);
    older.io_stat = Some(named(vec![("8:0", io(100, 10))]));
    let mut newer = cgroup(0, vec![]);
    newer.io_stat = Some(named(vec![("8:16", io(5, 5)), ("8:0", io(300, 50))]));
    let model = CgroupModel::new("<root>".to_string(), String::new(), &newer, Some((&older, secs(2))));
    let devices = model.io.unwrap();
    assert_eq!(devices[0].0, "8:16");
    assert_eq!(devices[0].1, no_io());
    assert_eq!(devices[1].0, "8:0");
    assert_eq!(devices[1].1.rwbytes_per_sec, per_sec(240, 2));
    assert_eq!(model.io_total.unwrap().rwbytes_per_sec, per_sec(240, 2));

    // Without I/O statistics in the older sample no device has rates.
    older.io_stat = None;
    let model = CgroupModel::new("<root>".to_string(), String::new(), &newer, Some((&older, secs(2))));
    assert_eq!(model.io.unwrap()[1].1, no_io());
}

#[test]
fn child_without_children_in_the_older_sample() {
    let mut older = cgroup(0, vec![]);
    older.children = None;
    let newer = cgroup(1_000_000, vec![("a.slice", cgroup(1_000_000, vec![]))]);
    let model = CgroupModel::new("<root>".to_string(), String::new(), &newer, Some((&older, secs(1))));
    assert_eq!(model.cpu.unwrap().usage_pct, pct(1_000_000, 1));
    assert_eq!(model.children[0].cpu, None);
    // A sample that lists no children gives a model without children.
    let mut newer = cgroup(1_000_000, vec![]);
    newer.children = None;
    let model = CgroupModel::new("<root>".to_string(), String::new(), &newer, Some((&older, secs(1))));
    assert!(model.children.is_empty());
}

fn sample(usage_usec: u64, rx_bytes: u64) -> Sample {
    let mut processes = PidMap::new();
    processes.insert(1, PidInfo { user_usecs: Some(usage_usec), ..Default::default() });
    Sample {
        cgroup: cgroup(usage_usec, vec![("a.slice", cgroup(usage_usec / 2, vec![]))]),
        processes,
        netstats: NetStat { rx_bytes: Some(rx_bytes), ..Default::default() },
        system: SystemSample {
            stat: Some(ProcStat { user_usec: Some(usage_usec), ..Default::default() }),
            hostname: "host1".to_string(),
            ..Default::default()
        },
    }
}

#[test]
fn model_of_two_samples() {
    let older = sample(1_000_000, 100);
    let newer = sample(3_000_000, 700);
    let model = Model::new(1234, &newer, Some((&older, secs(10))));
    assert_eq!(model.timestamp, 1234);
    assert_eq!(model.system.hostname, "host1");
    assert_eq!(model.system.cpu.unwrap().user_pct, pct(2_000_000, 10));
    assert_eq!(model.cgroup.name, "<root>");
    assert_eq!(model.cgroup.full_path, "");
    assert_eq!(model.cgroup.cpu.unwrap().usage_pct, pct(2_000_000, 10));
    assert_eq!(model.cgroup.children[0].full_path, "/a.slice");
    assert_eq!(model.cgroup.children[0].cpu.unwrap().usage_pct, pct(1_000_000, 10));
    assert_eq!(model.process.processes[&1].cpu_user_pct, pct(2_000_000, 10));
    assert_eq!(model.network.rx_bytes_per_sec, per_sec(600, 10));
}

#[test]
fn model_of_a_single_sample_has_no_rates() {
    let newer = sample(3_000_000, 700);
    let model = Model::new(1234, &newer, None);
    assert_eq!(model.timestamp, 1234);
    assert_eq!(model.system.hostname, "host1");
    assert_eq!(model.system.cpu, None);
    assert_eq!(model.cgroup.cpu, None);
    assert_eq!(model.cgroup.memory.total, Some(4096));
    assert_eq!(model.cgroup.inode_number, Some(42));
    assert_eq!(model.cgroup.children[0].cpu, None);
    assert_eq!(model.process.processes[&1].cpu_user_pct, None);
    assert_eq!(model.network.rx_bytes_per_sec, None);
}

#[test]
fn model_is_independent_of_its_samples() {
    let older = sample(1_000_000, 100);
    let newer = sample(3_000_000, 700);
    let model = Model::new(1234, &newer, Some((&older, secs(10))));
    let again = Model::new(1234, &newer, Some((&older, secs(10))));
    drop(older);
    drop(newer);
    assert_eq!(model, again);
}

#[test]
fn package_of_data_frames_becomes_a_model() {
    let package = SamplePackage {
        older_sample: Some(DataFrame { sample: sample(1_000_000, 100) }),
        newer_sample: DataFrame { sample: sample(3_000_000, 700) },
        timestamp: 50,
        duration: 30,
    };
    let model = package.to_model();
    assert_eq!(model.timestamp, 50);
    assert_eq!(model.cgroup.cpu.unwrap().usage_pct, pct(2_000_000, 30));
    assert_eq!(model, Model::new(50, &package.newer_sample.sample, Some((&package.older_sample.as_ref().unwrap().sample, secs(30)))));

    // Without an older sample the model is that of the newer sample alone.
    let package = SamplePackage {
        older_sample: None,
        newer_sample: DataFrame { sample: sample(3_000_000, 700) },
        timestamp: 3,
        duration: 0,
    };
    let model = package.to_model();
    assert_eq!(model.timestamp, 3);
    assert_eq!(model.cgroup.cpu, None);
    assert_eq!(model.cgroup.memory.total, Some(4096));
    assert_eq!(model, Model::new(3, &package.newer_sample.sample, None));
}

#[test]
fn bytes_behind_sectors() {
    assert_eq!(bytes_per_sec(Some(100), Some(300), secs(2)), per_sec(200 * 512, 2));
    assert_eq!(bytes_per_sec(Some(300), Some(100), secs(2)), None);
    assert_eq!(bytes_per_sec(None, Some(100), secs(2)), None);
}

#[test]
fn older_child_is_found_by_name() {
    let older = cgroup(7, vec![("a.slice", cgroup(1, vec![])), ("b.slice", cgroup(2, vec![]))]);
    let found = find_last_child(Some((&older, secs(3))), &"b.slice".to_string()).unwrap();
    assert_eq!(found.0.cpu_stat.unwrap().usage_usec, Some(2));
    assert_eq!(found.1, secs(3));
    assert!(find_last_child(Some((&older, secs(3))), &"c.slice".to_string()).is_none());
    assert!(find_last_child(None, &"a.slice".to_string()).is_none());
}

#[test]
fn copies_are_equal_to_what_they_copy() {
    assert_eq!(clone_opt_string(&Some("x".to_string())), Some("x".to_string()));
    assert_eq!(clone_opt_string(&None), None);
    let info = PidInfo {
        comm: Some("below".to_string()),
        cgroup: Some("/a".to_string()),
        ppid: Some(1),
        num_threads: Some(2),
        user_usecs: Some(3),
        system_usecs: Some(4),
        rss_pages: Some(5),
        rbytes: Some(6),
        wbytes: Some(7),
    };
    assert_eq!(info.clone(), info);
    let package = SamplePackage { older_sample: Some(1u8), newer_sample: 2u8, timestamp: 3, duration: 4 };
    let copy = package.clone();
    assert_eq!(
        (copy.older_sample, copy.newer_sample, copy.timestamp, copy.duration),
        (Some(1), 2, 3, 4)
    );
}
