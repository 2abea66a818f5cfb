//! The model: a view of one sample, or of two successive samples, in which
//! each cumulative counter is replaced by the rate at which it grew.
//!
//! Gauges are taken from the newer sample as they are. Rates and
//! percentages need the older sample and the time between the two; without
//! them, or where a counter is missing or went back, they are absent.

use crate::rate::Elapsed;
use crate::rate::Ratio;
use crate::rate::count_per_sec;
use crate::rate::count_per_sec_spec;
use crate::rate::opt_add;
use crate::rate::opt_add_spec;
use crate::rate::opt_multiply;
use crate::rate::opt_multiply_spec;
use crate::rate::usec_pct;
use crate::rate::usec_pct_spec;
use crate::sample::CgroupSample;
use crate::sample::CgroupSampleView;
use crate::sample::CpuStat;
use crate::sample::DiskStat;
use crate::sample::IoStat;
use crate::sample::MemInfo;
use crate::sample::MemoryHigh;
use crate::sample::NetStat;
use crate::sample::PidInfo;
use crate::sample::PidMap;
use crate::sample::Pressure;
use crate::sample::ProcStat;
use crate::sample::Sample;
use crate::sample::SampleView;
use crate::sample::SystemSample;
use crate::sample::SystemSampleView;
use crate::sample::VmStat;
use crate::sample::children_view;
use crate::sample::clone_opt_string;
use crate::sample::lemma_children_of_view;
use crate::sample::named_view;
use crate::sample::opt_string_view;
use std::collections::BTreeMap;
use vstd::prelude::*;
use vstd::std_specs::iter::IteratorSpec;
use vstd::string::StringExecFns;

verus! {

/// The number of bytes in a disk sector.
pub const SECTOR_SIZE: u64 = 512;

/// The position of the first of `names` that is `name`.
pub open spec fn index_of_name(names: Seq<Seq<char>>, name: Seq<char>) -> Option<int> {
    if exists|i: int| 0 <= i < names.len() && names[i] == name {
        Some(
            choose|i: int|
                0 <= i < names.len() && names[i] == name && forall|j: int|
                    0 <= j < i ==> names[j] != name,
        )
    } else {
        None
    }
}

/// The names of a list of named values.
pub open spec fn names_of<T>(entries: Seq<(Seq<char>, T)>) -> Seq<Seq<char>> {
    Seq::new(entries.len(), |i: int| entries[i].0)
}

/// The names of a list of named values, each as a sequence of characters.
pub open spec fn names_in<T>(entries: Seq<(String, T)>) -> Seq<Seq<char>> {
    Seq::new(entries.len(), |i: int| entries[i].0@)
}

/// The value that goes by `name` in a list of named values: the first one,
/// should the name occur more than once.
pub open spec fn find_named<T>(entries: Seq<(Seq<char>, T)>, name: Seq<char>) -> Option<T> {
    match index_of_name(names_of(entries), name) {
        Some(i) => Some(entries[i].1),
        None => None,
    }
}

/// `index_of_name` is the position at which the name occurs with no
/// occurrence before it.
pub proof fn lemma_index_of_name(names: Seq<Seq<char>>, name: Seq<char>, i: int)
    requires
        0 <= i <= names.len(),
        forall|j: int| 0 <= j < i ==> names[j] != name,
        i < names.len() ==> names[i] == name,
    ensures
        index_of_name(names, name) == if i < names.len() {
            Some(i)
        } else {
            None
        },
{
    if i < names.len() {
        let found = choose|k: int|
            0 <= k < names.len() && names[k] == name && forall|j: int|
                0 <= j < k ==> names[j] != name;
        assert(found == i) by {
            if found < i {
                assert(names[found] != name);
            }
            if i < found {
                assert(names[i] != name);
            }
        }
    }
}

/// Finds the first entry that goes by `name`.
pub fn position_of_name<T>(entries: &Vec<(String, T)>, name: &String) -> (r: Option<usize>)
    ensures
        match r {
            Some(i) => index_of_name(names_in(entries@), name@) == Some(i as int) && i
                < entries@.len(),
            None => index_of_name(names_in(entries@), name@) is None,
        },
{
    let ghost names = names_in(entries@);
    let mut i: usize = 0;
    while i < entries.len()
        invariant
            i <= entries@.len(),
            names == names_in(entries@),
            forall|j: int| 0 <= j < i ==> names[j] != name@,
        decreases entries@.len() - i,
    {
        if entries[i].0 == *name {
            proof {
                lemma_index_of_name(names, name@, i as int);
            }
            return Some(i);
        }
        i += 1;
    }
    proof {
        lemma_index_of_name(names, name@, i as int);
    }
    None
}

/// The older reading that goes by `name`, where there is an older list and
/// it holds the name.
pub open spec fn last_named<T>(last: Option<(Seq<(Seq<char>, T)>, Elapsed)>, name: Seq<char>) -> Option<
    (T, Elapsed),
> {
    match last {
        Some((entries, d)) => match find_named(entries, name) {
            Some(begin) => Some((begin, d)),
            None => None,
        },
        None => None,
    }
}

/// Looks a name up in the list of an older sample.
pub fn find_last<'a, T>(last: Option<(&'a Vec<(String, T)>, Elapsed)>, name: &String) -> (r: Option<
    (&'a T, Elapsed),
>)
    ensures
        match r {
            Some((begin, d)) => Some((*begin, d)),
            None => None,
        } == last_named(
            match last {
                Some((entries, d)) => Some((named_view(entries@), d)),
                None => None,
            },
            name@,
        ),
{
    match last {
        Some((entries, d)) => {
            assert(names_in(entries@) =~= names_of(named_view(entries@)));
            match position_of_name(entries, name) {
                Some(i) => Some((&entries[i].1, d)),
                None => None,
            }
        },
        None => None,
    }
}

/// The share of time that the processors of the host spent in each mode.
#[derive(Clone, Copy, Debug, PartialEq, Eq)]
pub struct CpuModel {
    pub usage_pct: Option<Ratio>,
    pub user_pct: Option<Ratio>,
    pub system_pct: Option<Ratio>,
    pub idle_pct: Option<Ratio>,
}

/// The processor shares between two readings; usage is what was spent in
/// user and kernel mode together, as far as it is known.
pub open spec fn cpu_model_spec(begin: ProcStat, end: ProcStat, delta: Elapsed) -> CpuModel {
    let user_pct = usec_pct_spec(begin.user_usec, end.user_usec, delta);
    let system_pct = usec_pct_spec(begin.system_usec, end.system_usec, delta);
    CpuModel {
        usage_pct: opt_add_spec(user_pct, system_pct),
        user_pct,
        system_pct,
        idle_pct: usec_pct_spec(begin.idle_usec, end.idle_usec, delta),
    }
}

impl CpuModel {
    pub fn new(begin: &ProcStat, end: &ProcStat, delta: Elapsed) -> (r: CpuModel)
        ensures
            r == cpu_model_spec(*begin, *end, delta),
    {
        let user_pct = usec_pct(begin.user_usec, end.user_usec, delta);
        let system_pct = usec_pct(begin.system_usec, end.system_usec, delta);
        CpuModel {
            usage_pct: opt_add(user_pct, system_pct),
            user_pct,
            system_pct,
            idle_pct: usec_pct(begin.idle_usec, end.idle_usec, delta),
        }
    }
}

/// Paging activity of the host.
#[derive(Clone, Copy, Debug, PartialEq, Eq)]
pub struct VmModel {
    pub pgpgin_per_sec: Option<Ratio>,
    pub pgpgout_per_sec: Option<Ratio>,
    pub oom_kill: Option<u64>,
}

/// The paging activity between an older reading, if any, and a newer one.
pub open spec fn vm_model_spec(end: VmStat, last: Option<(VmStat, Elapsed)>) -> VmModel {
    match last {
        Some((begin, d)) => VmModel {
            pgpgin_per_sec: count_per_sec_spec(begin.pgpgin, end.pgpgin, d),
            pgpgout_per_sec: count_per_sec_spec(begin.pgpgout, end.pgpgout, d),
            oom_kill: end.oom_kill,
        },
        None => VmModel { pgpgin_per_sec: None, pgpgout_per_sec: None, oom_kill: end.oom_kill },
    }
}

impl VmModel {
    pub fn new(end: &VmStat, last: Option<(&VmStat, Elapsed)>) -> (r: VmModel)
        ensures
            r == vm_model_spec(
                *end,
                match last {
                    Some((l, d)) => Some((*l, d)),
                    None => None,
                },
            ),
    {
        match last {
            Some((begin, d)) => VmModel {
                pgpgin_per_sec: count_per_sec(begin.pgpgin, end.pgpgin, d),
                pgpgout_per_sec: count_per_sec(begin.pgpgout, end.pgpgout, d),
                oom_kill: end.oom_kill,
            },
            None => VmModel { pgpgin_per_sec: None, pgpgout_per_sec: None, oom_kill: end.oom_kill },
        }
    }
}

/// The throughput of one disk, with the counters it was derived from.
#[derive(Clone, Copy, Debug, PartialEq, Eq)]
pub struct DiskModel {
    pub read_bytes_per_sec: Option<Ratio>,
    pub write_bytes_per_sec: Option<Ratio>,
    pub discard_bytes_per_sec: Option<Ratio>,
    /// What was read and written together, as far as it is known.
    pub disk_total_bytes_per_sec: Option<Ratio>,
    pub read_completed: Option<u64>,
    pub write_completed: Option<u64>,
    pub discard_completed: Option<u64>,
}

/// The bytes per second behind two readings of a counter of sectors.
pub open spec fn bytes_per_sec_spec(begin: Option<u64>, end: Option<u64>, delta: Elapsed) -> Option<
    Ratio,
> {
    opt_multiply_spec(count_per_sec_spec(begin, end, delta), Some(SECTOR_SIZE))
}

/// The throughput of a disk between an older reading, if any, and a newer
/// one.
pub open spec fn disk_model_spec(end: DiskStat, last: Option<(DiskStat, Elapsed)>) -> DiskModel {
    match last {
        Some((begin, d)) => {
            let read_bytes_per_sec = bytes_per_sec_spec(begin.read_sectors, end.read_sectors, d);
            let write_bytes_per_sec = bytes_per_sec_spec(
                begin.write_sectors,
                end.write_sectors,
                d,
            );
            DiskModel {
                read_bytes_per_sec,
                write_bytes_per_sec,
                discard_bytes_per_sec: bytes_per_sec_spec(
                    begin.discard_sectors,
                    end.discard_sectors,
                    d,
                ),
                disk_total_bytes_per_sec: opt_add_spec(read_bytes_per_sec, write_bytes_per_sec),
                read_completed: end.read_completed,
                write_completed: end.write_completed,
                discard_completed: end.discard_completed,
            }
        },
        None => DiskModel {
            read_bytes_per_sec: None,
            write_bytes_per_sec: None,
            discard_bytes_per_sec: None,
            disk_total_bytes_per_sec: None,
            read_completed: end.read_completed,
            write_completed: end.write_completed,
            discard_completed: end.discard_completed,
        },
    }
}

/// Derives the bytes per second behind two readings of a counter of
/// sectors.
pub fn bytes_per_sec(begin: Option<u64>, end: Option<u64>, delta: Elapsed) -> (r: Option<Ratio>)
    ensures
        r == bytes_per_sec_spec(begin, end, delta),
{
    opt_multiply(count_per_sec(begin, end, delta), Some(SECTOR_SIZE))
}

impl DiskModel {
    pub fn new(end: &DiskStat, last: Option<(&DiskStat, Elapsed)>) -> (r: DiskModel)
        ensures
            r == disk_model_spec(
                *end,
                match last {
                    Some((l, d)) => Some((*l, d)),
                    None => None,
                },
            ),
    {
        match last {
            Some((begin, d)) => {
                let read_bytes_per_sec = bytes_per_sec(begin.read_sectors, end.read_sectors, d);
                let write_bytes_per_sec = bytes_per_sec(begin.write_sectors, end.write_sectors, d);
                DiskModel {
                    read_bytes_per_sec,
                    write_bytes_per_sec,
                    discard_bytes_per_sec: bytes_per_sec(
                        begin.discard_sectors,
                        end.discard_sectors,
                        d,
                    ),
                    disk_total_bytes_per_sec: opt_add(read_bytes_per_sec, write_bytes_per_sec),
                    read_completed: end.read_completed,
                    write_completed: end.write_completed,
                    discard_completed: end.discard_completed,
                }
            },
            None => DiskModel {
                read_bytes_per_sec: None,
                write_bytes_per_sec: None,
                discard_bytes_per_sec: None,
                disk_total_bytes_per_sec: None,
                read_completed: end.read_completed,
                write_completed: end.write_completed,
                discard_completed: end.discard_completed,
            },
        }
    }
}

/// The traffic of the host on the network.
#[derive(Clone, Copy, Debug, PartialEq, Eq)]
pub struct NetworkModel {
    pub rx_bytes_per_sec: Option<Ratio>,
    pub tx_bytes_per_sec: Option<Ratio>,
    /// What was received and sent together, as far as it is known.
    pub throughput_per_sec: Option<Ratio>,
    pub rx_packets_per_sec: Option<Ratio>,
    pub tx_packets_per_sec: Option<Ratio>,
    pub tcp_retrans_segs_per_sec: Option<Ratio>,
}

/// The traffic between an older reading, if any, and a newer one.
pub open spec fn network_model_spec(end: NetStat, last: Option<(NetStat, Elapsed)>) -> NetworkModel {
    match last {
        Some((l, d)) => {
            let rx_bytes_per_sec = count_per_sec_spec(l.rx_bytes, end.rx_bytes, d);
            let tx_bytes_per_sec = count_per_sec_spec(l.tx_bytes, end.tx_bytes, d);
            NetworkModel {
                rx_bytes_per_sec,
                tx_bytes_per_sec,
                throughput_per_sec: opt_add_spec(rx_bytes_per_sec, tx_bytes_per_sec),
                rx_packets_per_sec: count_per_sec_spec(l.rx_packets, end.rx_packets, d),
                tx_packets_per_sec: count_per_sec_spec(l.tx_packets, end.tx_packets, d),
                tcp_retrans_segs_per_sec: count_per_sec_spec(
                    l.tcp_retrans_segs,
                    end.tcp_retrans_segs,
                    d,
                ),
            }
        },
        None => NetworkModel {
            rx_bytes_per_sec: None,
            tx_bytes_per_sec: None,
            throughput_per_sec: None,
            rx_packets_per_sec: None,
            tx_packets_per_sec: None,
            tcp_retrans_segs_per_sec: None,
        },
    }
}

impl NetworkModel {
    pub fn new(end: &NetStat, last: Option<(&NetStat, Elapsed)>) -> (r: NetworkModel)
        ensures
            r == network_model_spec(
                *end,
                match last {
                    Some((l, d)) => Some((*l, d)),
                    None => None,
                },
            ),
    {
        match last {
            Some((l, d)) => {
                let rx_bytes_per_sec = count_per_sec(l.rx_bytes, end.rx_bytes, d);
                let tx_bytes_per_sec = count_per_sec(l.tx_bytes, end.tx_bytes, d);
                NetworkModel {
                    rx_bytes_per_sec,
                    tx_bytes_per_sec,
                    throughput_per_sec: opt_add(rx_bytes_per_sec, tx_bytes_per_sec),
                    rx_packets_per_sec: count_per_sec(l.rx_packets, end.rx_packets, d),
                    tx_packets_per_sec: count_per_sec(l.tx_packets, end.tx_packets, d),
                    tcp_retrans_segs_per_sec: count_per_sec(
                        l.tcp_retrans_segs,
                        end.tcp_retrans_segs,
                        d,
                    ),
                }
            },
            None => NetworkModel {
                rx_bytes_per_sec: None,
                tx_bytes_per_sec: None,
                throughput_per_sec: None,
                rx_packets_per_sec: None,
                tx_packets_per_sec: None,
                tcp_retrans_segs_per_sec: None,
            },
        }
    }
}

/// One process: what it holds and how fast it consumes.
#[derive(Debug, PartialEq, Eq)]
pub struct SingleProcessModel {
    pub pid: i32,
    pub comm: Option<String>,
    pub cgroup: Option<String>,
    pub ppid: Option<i32>,
    pub num_threads: Option<u64>,
    pub rss_pages: Option<u64>,
    pub cpu_user_pct: Option<Ratio>,
    pub cpu_system_pct: Option<Ratio>,
    /// Time in user and kernel mode together, as far as it is known.
    pub cpu_usage_pct: Option<Ratio>,
    pub rbytes_per_sec: Option<Ratio>,
    pub wbytes_per_sec: Option<Ratio>,
    /// What was read and written together, as far as it is known.
    pub rwbytes_per_sec: Option<Ratio>,
}

/// The model of a process between an older reading, if any, and a newer
/// one.
pub open spec fn process_model_spec(pid: i32, end: PidInfo, last: Option<(PidInfo, Elapsed)>) -> SingleProcessModel {
    match last {
        Some((l, d)) => {
            let cpu_user_pct = usec_pct_spec(l.user_usecs, end.user_usecs, d);
            let cpu_system_pct = usec_pct_spec(l.system_usecs, end.system_usecs, d);
            let rbytes_per_sec = count_per_sec_spec(l.rbytes, end.rbytes, d);
            let wbytes_per_sec = count_per_sec_spec(l.wbytes, end.wbytes, d);
            SingleProcessModel {
                pid,
                comm: end.comm,
                cgroup: end.cgroup,
                ppid: end.ppid,
                num_threads: end.num_threads,
                rss_pages: end.rss_pages,
                cpu_user_pct,
                cpu_system_pct,
                cpu_usage_pct: opt_add_spec(cpu_user_pct, cpu_system_pct),
                rbytes_per_sec,
                wbytes_per_sec,
                rwbytes_per_sec: opt_add_spec(rbytes_per_sec, wbytes_per_sec),
            }
        },
        None => SingleProcessModel {
            pid,
            comm: end.comm,
            cgroup: end.cgroup,
            ppid: end.ppid,
            num_threads: end.num_threads,
            rss_pages: end.rss_pages,
            cpu_user_pct: None,
            cpu_system_pct: None,
            cpu_usage_pct: None,
            rbytes_per_sec: None,
            wbytes_per_sec: None,
            rwbytes_per_sec: None,
        },
    }
}

impl SingleProcessModel {
    pub fn new(pid: i32, end: &PidInfo, last: Option<(&PidInfo, Elapsed)>) -> (r: SingleProcessModel)
        ensures
            r == process_model_spec(
                pid,
                *end,
                match last {
                    Some((l, d)) => Some((*l, d)),
                    None => None,
                },
            ),
    {
        match last {
            Some((l, d)) => {
                let cpu_user_pct = usec_pct(l.user_usecs, end.user_usecs, d);
                let cpu_system_pct = usec_pct(l.system_usecs, end.system_usecs, d);
                let rbytes_per_sec = count_per_sec(l.rbytes, end.rbytes, d);
                let wbytes_per_sec = count_per_sec(l.wbytes, end.wbytes, d);
                SingleProcessModel {
                    pid,
                    comm: clone_opt_string(&end.comm),
                    cgroup: clone_opt_string(&end.cgroup),
                    ppid: end.ppid,
                    num_threads: end.num_threads,
                    rss_pages: end.rss_pages,
                    cpu_user_pct,
                    cpu_system_pct,
                    cpu_usage_pct: opt_add(cpu_user_pct, cpu_system_pct),
                    rbytes_per_sec,
                    wbytes_per_sec,
                    rwbytes_per_sec: opt_add(rbytes_per_sec, wbytes_per_sec),
                }
            },
            None => SingleProcessModel {
                pid,
                comm: clone_opt_string(&end.comm),
                cgroup: clone_opt_string(&end.cgroup),
                ppid: end.ppid,
                num_threads: end.num_threads,
                rss_pages: end.rss_pages,
                cpu_user_pct: None,
                cpu_system_pct: None,
                cpu_usage_pct: None,
                rbytes_per_sec: None,
                wbytes_per_sec: None,
                rwbytes_per_sec: None,
            },
        }
    }
}

/// The older reading of the process `pid`, where there is an older sample
/// and it knows the process.
pub open spec fn last_process(last: Option<(Map<i32, PidInfo>, Elapsed)>, pid: i32) -> Option<
    (PidInfo, Elapsed),
> {
    match last {
        Some((processes, d)) => if processes.contains_key(pid) {
            Some((processes[pid], d))
        } else {
            None
        },
        None => None,
    }
}

/// The models of all processes of the newer sample, by process id.
pub open spec fn process_models_spec(
    processes: Map<i32, PidInfo>,
    last: Option<(Map<i32, PidInfo>, Elapsed)>,
) -> Map<i32, SingleProcessModel> {
    Map::new(
        |pid: i32| processes.contains_key(pid),
        |pid: i32| process_model_spec(pid, processes[pid], last_process(last, pid)),
    )
}

/// All processes.
#[derive(Debug, PartialEq, Eq)]
pub struct ProcessModel {
    pub processes: BTreeMap<i32, SingleProcessModel>,
}

impl ProcessModel {
    pub fn new(sample: &PidMap, last: Option<(&PidMap, Elapsed)>) -> (r: ProcessModel)
        ensures
            r.processes@ == process_models_spec(
                sample@,
                match last {
                    Some((l, d)) => Some((l@, d)),
                    None => None,
                },
            ),
    {
        broadcast use vstd::std_specs::btree::group_btree_axioms;

        let ghost older = match last {
            Some((l, d)) => Some((l@, d)),
            None => None,
        };
        let mut processes: BTreeMap<i32, SingleProcessModel> = BTreeMap::new();
        for entry in it: sample.iter()
            invariant
                vstd::laws_cmp::obeys_cmp::<i32>(),
                it.seq() == vstd::std_specs::btree::spec_btree_map_iter(sample).remaining(),
                older == match last {
                    Some((l, d)) => Some((l@, d)),
                    None => None,
                },
                forall|pid: i32| #[trigger]
                    processes@.contains_key(pid) ==> sample@.contains_key(pid) && processes@[pid]
                        == process_model_spec(pid, sample@[pid], last_process(older, pid)),
                forall|j: int|
                    0 <= j < it.index() ==> processes@.contains_key(*(#[trigger] it.seq()[j]).0),
        {
            assert(sample@.contains_key(*entry.0) && sample@[*entry.0] == *entry.1);
            let pid = *entry.0;
            let begin = match last {
                Some((l, d)) => match l.get(&pid) {
                    Some(info) => Some((info, d)),
                    None => None,
                },
                None => None,
            };
            processes.insert(pid, SingleProcessModel::new(pid, entry.1, begin));
        }
        assert(processes@ =~= process_models_spec(sample@, older)) by {
            let listed = vstd::std_specs::btree::spec_btree_map_iter(sample).remaining();
            assert forall|pid: i32| sample@.contains_key(pid) implies processes@.contains_key(
                pid,
            ) by {
                let entry = (&pid, &sample@[pid]);
                assert(listed.contains(entry));
                let j = choose|j: int| 0 <= j < listed.len() && listed[j] == entry;
                assert(processes@.contains_key(*listed[j].0));
            }
        }
        ProcessModel { processes }
    }
}

/// The host as a whole.
#[derive(Debug, PartialEq, Eq)]
pub struct SystemModel {
    pub hostname: String,
    pub kernel_version: Option<String>,
    pub os_release: Option<String>,
    pub cpu: Option<CpuModel>,
    pub mem: Option<MemInfo>,
    pub vm: Option<VmModel>,
    /// The disks by name, in the order of the sample.
    pub disks: Vec<(String, DiskModel)>,
}

/// A system model as a mathematical value.
pub struct SystemModelView {
    pub hostname: Seq<char>,
    pub kernel_version: Option<Seq<char>>,
    pub os_release: Option<Seq<char>>,
    pub cpu: Option<CpuModel>,
    pub mem: Option<MemInfo>,
    pub vm: Option<VmModel>,
    pub disks: Seq<(Seq<char>, DiskModel)>,
}

impl View for SystemModel {
    type V = SystemModelView;

    open spec fn view(&self) -> SystemModelView {
        SystemModelView {
            hostname: self.hostname@,
            kernel_version: opt_string_view(self.kernel_version),
            os_release: opt_string_view(self.os_release),
            cpu: self.cpu,
            mem: self.mem,
            vm: self.vm,
            disks: named_view(self.disks@),
        }
    }
}

/// The older disks, where there is an older sample.
pub open spec fn last_disks(last: Option<(SystemSampleView, Elapsed)>) -> Option<
    (Seq<(Seq<char>, DiskStat)>, Elapsed),
> {
    match last {
        Some((l, d)) => Some((l.disks, d)),
        None => None,
    }
}

/// The model of the host between an older sample, if any, and a newer
/// one. Names and memory are those of the newer sample. A disk that the
/// older sample lacks has no rates.
pub open spec fn system_model_spec(
    sample: SystemSampleView,
    last: Option<(SystemSampleView, Elapsed)>,
) -> SystemModelView {
    SystemModelView {
        hostname: sample.hostname,
        kernel_version: sample.kernel_version,
        os_release: sample.os_release,
        cpu: match (last, sample.stat) {
            (Some((l, d)), Some(end)) => match l.stat {
                Some(begin) => Some(cpu_model_spec(begin, end, d)),
                None => None,
            },
            _ => None,
        },
        mem: sample.meminfo,
        vm: match sample.vmstat {
            Some(end) => Some(
                vm_model_spec(
                    end,
                    match last {
                        Some((l, d)) => match l.vmstat {
                            Some(begin) => Some((begin, d)),
                            None => None,
                        },
                        None => None,
                    },
                ),
            ),
            None => None,
        },
        disks: Seq::new(
            sample.disks.len(),
            |i: int|
                (
                    sample.disks[i].0,
                    disk_model_spec(
                        sample.disks[i].1,
                        last_named(last_disks(last), sample.disks[i].0),
                    ),
                ),
        ),
    }
}

impl SystemModel {
    pub fn new(sample: &SystemSample, last: Option<(&SystemSample, Elapsed)>) -> (r: SystemModel)
        ensures
            r@ == system_model_spec(
                sample@,
                match last {
                    Some((l, d)) => Some((l@, d)),
                    None => None,
                },
            ),
    {
        let ghost older = match last {
            Some((l, d)) => Some((l@, d)),
            None => None,
        };
        let cpu = match (last, &sample.stat) {
            (Some((l, d)), Some(end)) => match &l.stat {
                Some(begin) => Some(CpuModel::new(begin, end, d)),
                None => None,
            },
            _ => None,
        };
        let vm = match &sample.vmstat {
            Some(end) => Some(
                VmModel::new(
                    end,
                    match last {
                        Some((l, d)) => match &l.vmstat {
                            Some(begin) => Some((begin, d)),
                            None => None,
                        },
                        None => None,
                    },
                ),
            ),
            None => None,
        };
        let older_disks = match last {
            Some((l, d)) => Some((&l.disks, d)),
            None => None,
        };
        let mut disks: Vec<(String, DiskModel)> = Vec::new();
        let mut i: usize = 0;
        while i < sample.disks.len()
            invariant
                i <= sample.disks@.len(),
                disks@.len() == i,
                older == match last {
                    Some((l, d)) => Some((l@, d)),
                    None => None,
                },
                older_disks == match last {
                    Some((l, d)) => Some((&l.disks, d)),
                    None => None,
                },
                forall|j: int|
                    0 <= j < i ==> (#[trigger] disks@[j]).0@ == sample.disks@[j].0@ && disks@[j].1
                        == disk_model_spec(
                        sample.disks@[j].1,
                        last_named(last_disks(older), sample.disks@[j].0@),
                    ),
            decreases sample.disks@.len() - i,
        {
            let begin = find_last(older_disks, &sample.disks[i].0);
            disks.push((sample.disks[i].0.clone(), DiskModel::new(&sample.disks[i].1, begin)));
            i += 1;
        }
        let model = SystemModel {
            hostname: sample.hostname.clone(),
            kernel_version: clone_opt_string(&sample.kernel_version),
            os_release: clone_opt_string(&sample.os_release),
            cpu,
            mem: sample.meminfo,
            vm,
            disks,
        };
        assert(model@.disks =~= system_model_spec(sample@, older).disks);
        model
    }
}

/// The share of time that a cgroup spent on the processors.
#[derive(Clone, Copy, Debug, PartialEq, Eq)]
pub struct CgroupCpuModel {
    pub usage_pct: Option<Ratio>,
    pub user_pct: Option<Ratio>,
    pub system_pct: Option<Ratio>,
    pub nr_throttled_per_sec: Option<Ratio>,
}

/// The processor shares of a cgroup between two readings.
pub open spec fn cgroup_cpu_spec(begin: CpuStat, end: CpuStat, delta: Elapsed) -> CgroupCpuModel {
    CgroupCpuModel {
        usage_pct: usec_pct_spec(begin.usage_usec, end.usage_usec, delta),
        user_pct: usec_pct_spec(begin.user_usec, end.user_usec, delta),
        system_pct: usec_pct_spec(begin.system_usec, end.system_usec, delta),
        nr_throttled_per_sec: count_per_sec_spec(begin.nr_throttled, end.nr_throttled, delta),
    }
}

impl CgroupCpuModel {
    pub fn new(begin: &CpuStat, end: &CpuStat, delta: Elapsed) -> (r: CgroupCpuModel)
        ensures
            r == cgroup_cpu_spec(*begin, *end, delta),
    {
        CgroupCpuModel {
            usage_pct: usec_pct(begin.usage_usec, end.usage_usec, delta),
            user_pct: usec_pct(begin.user_usec, end.user_usec, delta),
            system_pct: usec_pct(begin.system_usec, end.system_usec, delta),
            nr_throttled_per_sec: count_per_sec(begin.nr_throttled, end.nr_throttled, delta),
        }
    }
}

/// The memory of a cgroup: gauges of the newer sample, and the rate of
/// page faults.
#[derive(Clone, Copy, Debug, PartialEq, Eq)]
pub struct CgroupMemoryModel {
    pub total: Option<u64>,
    pub swap: Option<u64>,
    pub anon: Option<u64>,
    pub file: Option<u64>,
    pub pgfault_per_sec: Option<Ratio>,
    pub memory_high: Option<MemoryHigh>,
    pub events_low: Option<u64>,
    pub events_high: Option<u64>,
    pub events_max: Option<u64>,
    pub events_oom: Option<u64>,
    pub events_oom_kill: Option<u64>,
}

/// The memory of a cgroup between an older sample, if any, and a newer
/// one.
pub open spec fn cgroup_memory_spec(
    sample: CgroupSampleView,
    last: Option<(CgroupSampleView, Elapsed)>,
) -> CgroupMemoryModel {
    CgroupMemoryModel {
        total: sample.memory_current,
        swap: sample.memory_swap_current,
        anon: match sample.memory_stat {
            Some(stat) => stat.anon,
            None => None,
        },
        file: match sample.memory_stat {
            Some(stat) => stat.file,
            None => None,
        },
        pgfault_per_sec: match (last, sample.memory_stat) {
            (Some((l, d)), Some(end)) => match l.memory_stat {
                Some(begin) => count_per_sec_spec(begin.pgfault, end.pgfault, d),
                None => None,
            },
            _ => None,
        },
        memory_high: sample.memory_high,
        events_low: match sample.memory_events {
            Some(events) => events.low,
            None => None,
        },
        events_high: match sample.memory_events {
            Some(events) => events.high,
            None => None,
        },
        events_max: match sample.memory_events {
            Some(events) => events.max,
            None => None,
        },
        events_oom: match sample.memory_events {
            Some(events) => events.oom,
            None => None,
        },
        events_oom_kill: match sample.memory_events {
            Some(events) => events.oom_kill,
            None => None,
        },
    }
}

impl CgroupMemoryModel {
    pub fn new(sample: &CgroupSample, last: Option<(&CgroupSample, Elapsed)>) -> (r:
        CgroupMemoryModel)
        ensures
            r == cgroup_memory_spec(
                sample@,
                match last {
                    Some((l, d)) => Some((l@, d)),
                    None => None,
                },
            ),
    {
        let (anon, file) = match &sample.memory_stat {
            Some(stat) => (stat.anon, stat.file),
            None => (None, None),
        };
        let pgfault_per_sec = match (last, &sample.memory_stat) {
            (Some((l, d)), Some(end)) => match &l.memory_stat {
                Some(begin) => count_per_sec(begin.pgfault, end.pgfault, d),
                None => None,
            },
            _ => None,
        };
        let (events_low, events_high, events_max, events_oom, events_oom_kill) =
            match &sample.memory_events {
            Some(events) => (events.low, events.high, events.max, events.oom, events.oom_kill),
            None => (None, None, None, None, None),
        };
        CgroupMemoryModel {
            total: sample.memory_current,
            swap: sample.memory_swap_current,
            anon,
            file,
            pgfault_per_sec,
            memory_high: sample.memory_high,
            events_low,
            events_high,
            events_max,
            events_oom,
            events_oom_kill,
        }
    }
}

/// The share of time that the tasks of a cgroup were stalled.
#[derive(Clone, Copy, Debug, PartialEq, Eq)]
pub struct CgroupPressureModel {
    pub cpu_some_pct: Option<Ratio>,
    pub io_some_pct: Option<Ratio>,
    pub io_full_pct: Option<Ratio>,
    pub memory_some_pct: Option<Ratio>,
    pub memory_full_pct: Option<Ratio>,
}

/// The stall shares of a cgroup between two readings.
pub open spec fn cgroup_pressure_spec(begin: Pressure, end: Pressure, delta: Elapsed) -> CgroupPressureModel {
    CgroupPressureModel {
        cpu_some_pct: usec_pct_spec(begin.cpu_some_usec, end.cpu_some_usec, delta),
        io_some_pct: usec_pct_spec(begin.io_some_usec, end.io_some_usec, delta),
        io_full_pct: usec_pct_spec(begin.io_full_usec, end.io_full_usec, delta),
        memory_some_pct: usec_pct_spec(begin.memory_some_usec, end.memory_some_usec, delta),
        memory_full_pct: usec_pct_spec(begin.memory_full_usec, end.memory_full_usec, delta),
    }
}

impl CgroupPressureModel {
    pub fn new(begin: &Pressure, end: &Pressure, delta: Elapsed) -> (r: CgroupPressureModel)
        ensures
            r == cgroup_pressure_spec(*begin, *end, delta),
    {
        CgroupPressureModel {
            cpu_some_pct: usec_pct(begin.cpu_some_usec, end.cpu_some_usec, delta),
            io_some_pct: usec_pct(begin.io_some_usec, end.io_some_usec, delta),
            io_full_pct: usec_pct(begin.io_full_usec, end.io_full_usec, delta),
            memory_some_pct: usec_pct(begin.memory_some_usec, end.memory_some_usec, delta),
            memory_full_pct: usec_pct(begin.memory_full_usec, end.memory_full_usec, delta),
        }
    }
}

/// The block I/O of a cgroup on one device, or on all of them together.
#[derive(Clone, Copy, Debug, PartialEq, Eq)]
pub struct CgroupIoModel {
    pub rbytes_per_sec: Option<Ratio>,
    pub wbytes_per_sec: Option<Ratio>,
    pub rios_per_sec: Option<Ratio>,
    pub wios_per_sec: Option<Ratio>,
    /// What was read and written together, as far as it is known.
    pub rwbytes_per_sec: Option<Ratio>,
}

/// The I/O of a cgroup on one device between an older reading, if any, and
/// a newer one.
pub open spec fn cgroup_io_spec(end: IoStat, last: Option<(IoStat, Elapsed)>) -> CgroupIoModel {
    match last {
        Some((begin, d)) => {
            let rbytes_per_sec = count_per_sec_spec(begin.rbytes, end.rbytes, d);
            let wbytes_per_sec = count_per_sec_spec(begin.wbytes, end.wbytes, d);
            CgroupIoModel {
                rbytes_per_sec,
                wbytes_per_sec,
                rios_per_sec: count_per_sec_spec(begin.rios, end.rios, d),
                wios_per_sec: count_per_sec_spec(begin.wios, end.wios, d),
                rwbytes_per_sec: opt_add_spec(rbytes_per_sec, wbytes_per_sec),
            }
        },
        None => empty_io(),
    }
}

/// No I/O known at all.
pub open spec fn empty_io() -> CgroupIoModel {
    CgroupIoModel {
        rbytes_per_sec: None,
        wbytes_per_sec: None,
        rios_per_sec: None,
        wios_per_sec: None,
        rwbytes_per_sec: None,
    }
}

/// The I/O of two devices together: rate by rate, with a rate that is
/// missing on one side taken from the other.
pub open spec fn io_sum(a: CgroupIoModel, b: CgroupIoModel) -> CgroupIoModel {
    CgroupIoModel {
        rbytes_per_sec: opt_add_spec(a.rbytes_per_sec, b.rbytes_per_sec),
        wbytes_per_sec: opt_add_spec(a.wbytes_per_sec, b.wbytes_per_sec),
        rios_per_sec: opt_add_spec(a.rios_per_sec, b.rios_per_sec),
        wios_per_sec: opt_add_spec(a.wios_per_sec, b.wios_per_sec),
        rwbytes_per_sec: opt_add_spec(a.rwbytes_per_sec, b.rwbytes_per_sec),
    }
}

/// The I/O of all devices together.
pub open spec fn io_total_spec(devices: Seq<(Seq<char>, CgroupIoModel)>) -> CgroupIoModel
    decreases devices.len(),
{
    if devices.len() == 0 {
        empty_io()
    } else {
        io_sum(io_total_spec(devices.drop_last()), devices.last().1)
    }
}

impl CgroupIoModel {
    pub fn new(end: &IoStat, last: Option<(&IoStat, Elapsed)>) -> (r: CgroupIoModel)
        ensures
            r == cgroup_io_spec(
                *end,
                match last {
                    Some((l, d)) => Some((*l, d)),
                    None => None,
                },
            ),
    {
        match last {
            Some((begin, d)) => {
                let rbytes_per_sec = count_per_sec(begin.rbytes, end.rbytes, d);
                let wbytes_per_sec = count_per_sec(begin.wbytes, end.wbytes, d);
                CgroupIoModel {
                    rbytes_per_sec,
                    wbytes_per_sec,
                    rios_per_sec: count_per_sec(begin.rios, end.rios, d),
                    wios_per_sec: count_per_sec(begin.wios, end.wios, d),
                    rwbytes_per_sec: opt_add(rbytes_per_sec, wbytes_per_sec),
                }
            },
            None => CgroupIoModel::empty(),
        }
    }

    /// No I/O known at all.
    pub fn empty() -> (r: CgroupIoModel)
        ensures
            r == empty_io(),
    {
        CgroupIoModel {
            rbytes_per_sec: None,
            wbytes_per_sec: None,
            rios_per_sec: None,
            wios_per_sec: None,
            rwbytes_per_sec: None,
        }
    }

    /// The I/O of this device and of another together.
    pub fn plus(&self, other: &CgroupIoModel) -> (r: CgroupIoModel)
        ensures
            r == io_sum(*self, *other),
    {
        CgroupIoModel {
            rbytes_per_sec: opt_add(self.rbytes_per_sec, other.rbytes_per_sec),
            wbytes_per_sec: opt_add(self.wbytes_per_sec, other.wbytes_per_sec),
            rios_per_sec: opt_add(self.rios_per_sec, other.rios_per_sec),
            wios_per_sec: opt_add(self.wios_per_sec, other.wios_per_sec),
            rwbytes_per_sec: opt_add(self.rwbytes_per_sec, other.rwbytes_per_sec),
        }
    }
}

/// The I/O of a cgroup device by device, in the order of the newer
/// sample. A device that the older sample lacks has no rates.
pub open spec fn cgroup_io_details_spec(
    devices: Seq<(Seq<char>, IoStat)>,
    last: Option<(Seq<(Seq<char>, IoStat)>, Elapsed)>,
) -> Seq<(Seq<char>, CgroupIoModel)> {
    Seq::new(
        devices.len(),
        |i: int| (devices[i].0, cgroup_io_spec(devices[i].1, last_named(last, devices[i].0))),
    )
}

/// The older I/O statistics, where there is an older sample that has them.
pub open spec fn last_io_stat(last: Option<(CgroupSampleView, Elapsed)>) -> Option<
    (Seq<(Seq<char>, IoStat)>, Elapsed),
> {
    match last {
        Some((l, d)) => match l.io_stat {
            Some(devices) => Some((devices, d)),
            None => None,
        },
        None => None,
    }
}

/// Derives the I/O of a cgroup device by device, and of all devices
/// together.
pub fn io_details(
    devices: &Vec<(String, IoStat)>,
    last: Option<(&Vec<(String, IoStat)>, Elapsed)>,
) -> (r: (Vec<(String, CgroupIoModel)>, CgroupIoModel))
    ensures
        named_view(r.0@) == cgroup_io_details_spec(
            named_view(devices@),
            match last {
                Some((l, d)) => Some((named_view(l@), d)),
                None => None,
            },
        ),
        r.1 == io_total_spec(named_view(r.0@)),
{
    let ghost older = match last {
        Some((l, d)) => Some((named_view(l@), d)),
        None => None,
    };
    let mut details: Vec<(String, CgroupIoModel)> = Vec::new();
    let mut total = CgroupIoModel::empty();
    let mut i: usize = 0;
    while i < devices.len()
        invariant
            i <= devices@.len(),
            details@.len() == i,
            older == match last {
                Some((l, d)) => Some((named_view(l@), d)),
                None => None,
            },
            forall|j: int|
                0 <= j < i ==> (#[trigger] details@[j]).0@ == devices@[j].0@ && details@[j].1
                    == cgroup_io_spec(devices@[j].1, last_named(older, devices@[j].0@)),
            total == io_total_spec(named_view(details@)),
        decreases devices@.len() - i,
    {
        let model = CgroupIoModel::new(&devices[i].1, find_last(last, &devices[i].0));
        let ghost before = named_view(details@);
        details.push((devices[i].0.clone(), model));
        total = total.plus(&model);
        proof {
            let after = named_view(details@);
            assert(after.drop_last() =~= before);
            assert(after.last().1 == model);
        }
        i += 1;
    }
    assert(named_view(details@) =~= cgroup_io_details_spec(named_view(devices@), older));
    (details, total)
}

/// One node of the cgroup hierarchy, with the nodes below it.
#[derive(Debug, PartialEq, Eq)]
pub struct CgroupModel {
    pub name: String,
    pub full_path: String,
    pub inode_number: Option<u64>,
    pub cpu: Option<CgroupCpuModel>,
    pub memory: CgroupMemoryModel,
    /// The I/O by device, in the order of the sample.
    pub io: Option<Vec<(String, CgroupIoModel)>>,
    /// The I/O on all devices together.
    pub io_total: Option<CgroupIoModel>,
    pub pressure: Option<CgroupPressureModel>,
    /// The children, in the order of the sample.
    pub children: Vec<CgroupModel>,
}

/// A cgroup model as a mathematical value.
pub struct CgroupModelView {
    pub name: Seq<char>,
    pub full_path: Seq<char>,
    pub inode_number: Option<u64>,
    pub cpu: Option<CgroupCpuModel>,
    pub memory: CgroupMemoryModel,
    pub io: Option<Seq<(Seq<char>, CgroupIoModel)>>,
    pub io_total: Option<CgroupIoModel>,
    pub pressure: Option<CgroupPressureModel>,
    pub children: Seq<CgroupModelView>,
}

/// The mathematical value of a cgroup model.
pub open spec fn cgroup_model_view(model: CgroupModel) -> CgroupModelView
    decreases model,
{
    CgroupModelView {
        name: model.name@,
        full_path: model.full_path@,
        inode_number: model.inode_number,
        cpu: model.cpu,
        memory: model.memory,
        io: match model.io {
            Some(devices) => Some(named_view(devices@)),
            None => None,
        },
        io_total: model.io_total,
        pressure: model.pressure,
        children: Seq::new(
            model.children@.len(),
            |i: int|
                if 0 <= i < model.children@.len() {
                    cgroup_model_view(model.children@[i])
                } else {
                    arbitrary()
                },
        ),
    }
}

impl View for CgroupModel {
    type V = CgroupModelView;

    open spec fn view(&self) -> CgroupModelView {
        cgroup_model_view(*self)
    }
}

/// The name of the root of the hierarchy.
pub open spec fn root_name() -> Seq<char> {
    seq!['<', 'r', 'o', 'o', 't', '>']
}

/// The path of a child: the path of its parent, a slash, and its name.
pub open spec fn child_path(full_path: Seq<char>, name: Seq<char>) -> Seq<char> {
    full_path + seq!['/'] + name
}

/// The older sample of the child `name`, where there is an older sample
/// that has such a child.
pub open spec fn last_child(last: Option<(CgroupSampleView, Elapsed)>, name: Seq<char>) -> Option<
    (CgroupSampleView, Elapsed),
> {
    match last {
        Some((l, d)) => match l.children {
            Some(children) => match find_named(children, name) {
                Some(child) => Some((child, d)),
                None => None,
            },
            None => None,
        },
        None => None,
    }
}

/// The model of a cgroup, and of the cgroups below it, between an older
/// sample, if any, and a newer one. The tree has the shape of the newer
/// sample; a node that the older sample lacks has gauges only.
pub open spec fn cgroup_model_spec(
    name: Seq<char>,
    full_path: Seq<char>,
    sample: CgroupSampleView,
    last: Option<(CgroupSampleView, Elapsed)>,
) -> CgroupModelView
    decreases sample,
{
    let io = match sample.io_stat {
        Some(devices) => Some(cgroup_io_details_spec(devices, last_io_stat(last))),
        None => None,
    };
    CgroupModelView {
        name,
        full_path,
        inode_number: sample.inode_number,
        cpu: match (last, sample.cpu_stat) {
            (Some((l, d)), Some(end)) => match l.cpu_stat {
                Some(begin) => Some(cgroup_cpu_spec(begin, end, d)),
                None => None,
            },
            _ => None,
        },
        memory: cgroup_memory_spec(sample, last),
        io,
        io_total: match io {
            Some(devices) => Some(io_total_spec(devices)),
            None => None,
        },
        pressure: match (last, sample.pressure) {
            (Some((l, d)), Some(end)) => match l.pressure {
                Some(begin) => Some(cgroup_pressure_spec(begin, end, d)),
                None => None,
            },
            _ => None,
        },
        children: match sample.children {
            Some(children) => Seq::new(
                children.len(),
                |i: int|
                    if 0 <= i < children.len() {
                        cgroup_model_spec(
                            children[i].0,
                            child_path(full_path, children[i].0),
                            children[i].1,
                            last_child(last, children[i].0),
                        )
                    } else {
                        arbitrary()
                    },
            ),
            None => Seq::empty(),
        },
    }
}

/// The view of an older sample with the time since it was taken.
pub open spec fn older_view(last: Option<(&CgroupSample, Elapsed)>) -> Option<
    (CgroupSampleView, Elapsed),
> {
    match last {
        Some((l, d)) => Some((l@, d)),
        None => None,
    }
}

/// Looks the child `name` up in an older sample.
pub fn find_last_child<'a>(last: Option<(&'a CgroupSample, Elapsed)>, name: &String) -> (r: Option<
    (&'a CgroupSample, Elapsed),
>)
    ensures
        older_view(r) == last_child(older_view(last), name@),
{
    match last {
        Some((l, d)) => {
            proof {
                lemma_children_of_view(*l);
            }
            match &l.children {
                Some(children) => {
                    assert(names_in(children@) =~= names_of(children_view(children@)));
                    match position_of_name(children, name) {
                        Some(i) => Some((&children[i].1, d)),
                        None => None,
                    }
                },
                None => None,
            }
        },
        None => None,
    }
}

/// Joins the path of a cgroup and the name of one of its children.
pub fn join_path(full_path: &String, name: &String) -> (r: String)
    ensures
        r@ == child_path(full_path@, name@),
{
    let mut path = full_path.clone();
    path.append("/");
    path.append(name.as_str());
    proof {
        reveal_strlit("/");
        assert("/"@ =~= seq!['/']);
    }
    path
}

/// Derives the models of the children of the cgroup at `full_path`.
fn child_models(
    full_path: &String,
    listed: &Vec<(String, CgroupSample)>,
    last: Option<(&CgroupSample, Elapsed)>,
) -> (r: Vec<CgroupModel>)
    ensures
        r@.len() == listed@.len(),
        forall|j: int|
            0 <= j < r@.len() ==> (#[trigger] r@[j])@ == cgroup_model_spec(
                listed@[j].0@,
                child_path(full_path@, listed@[j].0@),
                listed@[j].1@,
                last_child(older_view(last), listed@[j].0@),
            ),
    decreases listed@, 0nat,
{
    let mut children: Vec<CgroupModel> = Vec::new();
    let mut i: usize = 0;
    while i < listed.len()
        invariant
            i <= listed@.len(),
            children@.len() == i,
            forall|j: int|
                0 <= j < i ==> (#[trigger] children@[j])@ == cgroup_model_spec(
                    listed@[j].0@,
                    child_path(full_path@, listed@[j].0@),
                    listed@[j].1@,
                    last_child(older_view(last), listed@[j].0@),
                ),
        decreases listed@.len() - i,
    {
        let child = CgroupModel::new(
            listed[i].0.clone(),
            join_path(full_path, &listed[i].0),
            &listed[i].1,
            find_last_child(last, &listed[i].0),
        );
        children.push(child);
        i += 1;
    }
    children
}

impl CgroupModel {
    /// Derives the model of a cgroup that goes by `name` at `full_path`,
    /// and of everything below it.
    pub fn new(
        name: String,
        full_path: String,
        sample: &CgroupSample,
        last: Option<(&CgroupSample, Elapsed)>,
    ) -> (r: CgroupModel)
        ensures
            r@ == cgroup_model_spec(name@, full_path@, sample@, older_view(last)),
        decreases sample, 1nat,
    {
        proof {
            lemma_children_of_view(*sample);
            if let Some((l, _)) = last {
                lemma_children_of_view(*l);
            }
        }
        let cpu = match (last, &sample.cpu_stat) {
            (Some((l, d)), Some(end)) => match &l.cpu_stat {
                Some(begin) => Some(CgroupCpuModel::new(begin, end, d)),
                None => None,
            },
            _ => None,
        };
        let memory = CgroupMemoryModel::new(sample, last);
        let (io, io_total) = match &sample.io_stat {
            Some(devices) => {
                let older_devices = match last {
                    Some((l, d)) => match &l.io_stat {
                        Some(older) => Some((older, d)),
                        None => None,
                    },
                    None => None,
                };
                let (details, total) = io_details(devices, older_devices);
                (Some(details), Some(total))
            },
            None => (None, None),
        };
        let pressure = match (last, &sample.pressure) {
            (Some((l, d)), Some(end)) => match &l.pressure {
                Some(begin) => Some(CgroupPressureModel::new(begin, end, d)),
                None => None,
            },
            _ => None,
        };
        let children = match &sample.children {
            Some(listed) => child_models(&full_path, listed, last),
            None => Vec::new(),
        };
        let model = CgroupModel {
            name,
            full_path,
            inode_number: sample.inode_number,
            cpu,
            memory,
            io,
            io_total,
            pressure,
            children,
        };
        proof {
            let wanted = cgroup_model_spec(name@, full_path@, sample@, older_view(last));
            assert(model@.children =~= wanted.children);
        }
        model
    }
}

/// All that is derived of one sample, or of two.
#[derive(Debug, PartialEq, Eq)]
pub struct Model {
    pub timestamp: u64,
    pub system: SystemModel,
    pub cgroup: CgroupModel,
    pub process: ProcessModel,
    pub network: NetworkModel,
}

/// A model as a mathematical value.
pub struct ModelView {
    pub timestamp: u64,
    pub system: SystemModelView,
    pub cgroup: CgroupModelView,
    pub processes: Map<i32, SingleProcessModel>,
    pub network: NetworkModel,
}

impl View for Model {
    type V = ModelView;

    open spec fn view(&self) -> ModelView {
        ModelView {
            timestamp: self.timestamp,
            system: self.system@,
            cgroup: self.cgroup@,
            processes: self.process.processes@,
            network: self.network,
        }
    }
}

/// The model at `timestamp` of the sample taken then and, where there is
/// one, of the sample before it with the time between the two.
pub open spec fn model_spec(timestamp: u64, sample: SampleView, last: Option<(SampleView, Elapsed)>) -> ModelView {
    ModelView {
        timestamp,
        system: system_model_spec(
            sample.system,
            match last {
                Some((l, d)) => Some((l.system, d)),
                None => None,
            },
        ),
        cgroup: cgroup_model_spec(
            root_name(),
            Seq::empty(),
            sample.cgroup,
            match last {
                Some((l, d)) => Some((l.cgroup, d)),
                None => None,
            },
        ),
        processes: process_models_spec(
            sample.processes,
            match last {
                Some((l, d)) => Some((l.processes, d)),
                None => None,
            },
        ),
        network: network_model_spec(
            sample.netstats,
            match last {
                Some((l, d)) => Some((l.netstats, d)),
                None => None,
            },
        ),
    }
}

/// The view of an older sample with the time since it was taken.
pub open spec fn older_sample_view(last: Option<(&Sample, Elapsed)>) -> Option<(SampleView, Elapsed)> {
    match last {
        Some((l, d)) => Some((l@, d)),
        None => None,
    }
}

impl Model {
    /// Builds the model of `sample`, taken at `timestamp`. With `last`, the
    /// sample before it and the time between the two, cumulative counters
    /// become rates; without it, the model holds gauges only.
    pub fn new(timestamp: u64, sample: &Sample, last: Option<(&Sample, Elapsed)>) -> (r: Model)
        ensures
            r@ == model_spec(timestamp, sample@, older_sample_view(last)),
    {
        proof {
            reveal_strlit("<root>");
            assert("<root>"@ =~= root_name());
        }
        let system = SystemModel::new(
            &sample.system,
            match last {
                Some((l, d)) => Some((&l.system, d)),
                None => None,
            },
        );
        let cgroup = CgroupModel::new(
            String::from_str("<root>"),
            String::new(),
            &sample.cgroup,
            match last {
                Some((l, d)) => Some((&l.cgroup, d)),
                None => None,
            },
        );
        let process = ProcessModel::new(
            &sample.processes,
            match last {
                Some((l, d)) => Some((&l.processes, d)),
                None => None,
            },
        );
        let network = NetworkModel::new(
            &sample.netstats,
            match last {
                Some((l, d)) => Some((&l.netstats, d)),
                None => None,
            },
        );
        Model { timestamp, system, cgroup, process, network }
    }
}

/// Whether a cgroup model, and every model below it, holds gauges only:
/// no rate and no percentage.
pub open spec fn cgroup_has_no_rates(model: CgroupModelView) -> bool
    decreases model,
{
    &&& model.cpu is None
    &&& model.pressure is None
    &&& model.memory.pgfault_per_sec is None
    &&& model.io matches Some(devices) ==> forall|i: int|
        0 <= i < devices.len() ==> (#[trigger] devices[i]).1 == empty_io()
    &&& model.io_total matches Some(total) ==> total == empty_io()
    &&& forall|i: int|
        0 <= i < model.children.len() ==> cgroup_has_no_rates(#[trigger] model.children[i])
}

/// Devices without rates add up to no rates.
proof fn lemma_io_total_of_nothing(devices: Seq<(Seq<char>, CgroupIoModel)>)
    requires
        forall|i: int| 0 <= i < devices.len() ==> (#[trigger] devices[i]).1 == empty_io(),
    ensures
        io_total_spec(devices) == empty_io(),
    decreases devices.len(),
{
    if devices.len() > 0 {
        assert forall|i: int| 0 <= i < devices.drop_last().len() implies (
        #[trigger] devices.drop_last()[i]).1 == empty_io() by {
            assert(devices.drop_last()[i] == devices[i]);
        }
        lemma_io_total_of_nothing(devices.drop_last());
        assert(devices.last() == devices[devices.len() - 1]);
    }
}

/// Without an older sample a cgroup and everything below it have gauges
/// only, and the gauges are those of the sample.
pub proof fn single_sample_cgroup_has_no_rates(
    name: Seq<char>,
    full_path: Seq<char>,
    sample: CgroupSampleView,
)
    ensures
        cgroup_has_no_rates(cgroup_model_spec(name, full_path, sample, None)),
        cgroup_model_spec(name, full_path, sample, None).inode_number == sample.inode_number,
        cgroup_model_spec(name, full_path, sample, None).memory.total == sample.memory_current,
        cgroup_model_spec(name, full_path, sample, None).memory.swap
            == sample.memory_swap_current,
        cgroup_model_spec(name, full_path, sample, None).memory.memory_high == sample.memory_high,
    decreases sample,
{
    let model = cgroup_model_spec(name, full_path, sample, None);
    if let Some(devices) = model.io {
        lemma_io_total_of_nothing(devices);
    }
    assert forall|i: int| 0 <= i < model.children.len() implies cgroup_has_no_rates(
        #[trigger] model.children[i],
    ) by {
        let children = sample.children->0;
        single_sample_cgroup_has_no_rates(
            children[i].0,
            child_path(full_path, children[i].0),
            children[i].1,
        );
    }
}

/// The tree of a cgroup model has the shape of the newer sample: a child
/// for each child of the sample, under the same name and in the same
/// order, derived from that child and from the child of the same name in
/// the older sample. A child that the older sample lacks has gauges only.
pub proof fn model_tree_mirrors_the_sample(
    name: Seq<char>,
    full_path: Seq<char>,
    sample: CgroupSampleView,
    last: Option<(CgroupSampleView, Elapsed)>,
)
    ensures
        ({
            let model = cgroup_model_spec(name, full_path, sample, last);
            match sample.children {
                Some(children) => {
                    &&& model.children.len() == children.len()
                    &&& forall|i: int|
                        0 <= i < children.len() ==> {
                            &&& (#[trigger] model.children[i]) == cgroup_model_spec(
                                children[i].0,
                                child_path(full_path, children[i].0),
                                children[i].1,
                                last_child(last, children[i].0),
                            )
                            &&& model.children[i].name == children[i].0
                            &&& last_child(last, children[i].0) is None ==> cgroup_has_no_rates(
                                model.children[i],
                            )
                        }
                },
                None => model.children.len() == 0,
            }
        }),
{
    let model = cgroup_model_spec(name, full_path, sample, last);
    if let Some(children) = sample.children {
        assert forall|i: int| 0 <= i < children.len() implies {
            &&& (#[trigger] model.children[i]) == cgroup_model_spec(
                children[i].0,
                child_path(full_path, children[i].0),
                children[i].1,
                last_child(last, children[i].0),
            )
            &&& model.children[i].name == children[i].0
            &&& last_child(last, children[i].0) is None ==> cgroup_has_no_rates(model.children[i])
        } by {
            single_sample_cgroup_has_no_rates(
                children[i].0,
                child_path(full_path, children[i].0),
                children[i].1,
            );
        }
    }
}

/// The model of a single sample, without a predecessor, has no rate and no
/// percentage anywhere; what the sample holds as gauges is in the model.
pub proof fn single_sample_model_has_no_rates(timestamp: u64, sample: SampleView)
    ensures
        ({
            let model = model_spec(timestamp, sample, None);
            &&& model.timestamp == timestamp
            &&& model.system.hostname == sample.system.hostname
            &&& model.system.kernel_version == sample.system.kernel_version
            &&& model.system.os_release == sample.system.os_release
            &&& model.system.mem == sample.system.meminfo
            &&& model.system.cpu is None
            &&& model.system.vm matches Some(vm) ==> vm.pgpgin_per_sec is None
                && vm.pgpgout_per_sec is None
            &&& model.system.disks.len() == sample.system.disks.len()
            &&& forall|i: int|
                0 <= i < model.system.disks.len() ==> {
                    let disk = (#[trigger] model.system.disks[i]).1;
                    &&& disk.read_bytes_per_sec is None
                    &&& disk.write_bytes_per_sec is None
                    &&& disk.discard_bytes_per_sec is None
                    &&& disk.disk_total_bytes_per_sec is None
                    &&& disk.read_completed == sample.system.disks[i].1.read_completed
                }
            &&& cgroup_has_no_rates(model.cgroup)
            &&& model.processes.dom() == sample.processes.dom()
            &&& forall|pid: i32| #[trigger]
                model.processes.contains_key(pid) ==> {
                    let process = model.processes[pid];
                    &&& process.cpu_usage_pct is None
                    &&& process.cpu_user_pct is None
                    &&& process.cpu_system_pct is None
                    &&& process.rbytes_per_sec is None
                    &&& process.wbytes_per_sec is None
                    &&& process.rwbytes_per_sec is None
                    &&& process.rss_pages == sample.processes[pid].rss_pages
                    &&& process.comm == sample.processes[pid].comm
                    &&& process.cgroup == sample.processes[pid].cgroup
                }
            &&& model.network == network_model_spec(sample.netstats, None)
            &&& model.network.rx_bytes_per_sec is None
            &&& model.network.tx_bytes_per_sec is None
            &&& model.network.throughput_per_sec is None
        }),
{
    single_sample_cgroup_has_no_rates(root_name(), Seq::empty(), sample.cgroup);
    let model = model_spec(timestamp, sample, None);
    assert(model.processes.dom() =~= sample.processes.dom());
}

} // verus!
