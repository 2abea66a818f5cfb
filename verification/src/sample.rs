//! A sample: one point-in-time snapshot of the counters that the kernel
//! exposes. Any counter may be absent, independently of the others.

use std::collections::BTreeMap;
use vstd::prelude::*;

verus! {

/// CPU time consumed by a cgroup, cumulative.
#[derive(Clone, Copy, Debug, PartialEq, Eq, Default)]
pub struct CpuStat {
    pub usage_usec: Option<u64>,
    pub user_usec: Option<u64>,
    pub system_usec: Option<u64>,
    pub nr_throttled: Option<u64>,
}

/// Block I/O done by a cgroup on one device, cumulative.
#[derive(Clone, Copy, Debug, PartialEq, Eq, Default)]
pub struct IoStat {
    pub rbytes: Option<u64>,
    pub wbytes: Option<u64>,
    pub rios: Option<u64>,
    pub wios: Option<u64>,
}

/// Memory in use by a cgroup, by kind.
#[derive(Clone, Copy, Debug, PartialEq, Eq, Default)]
pub struct MemoryStat {
    pub anon: Option<u64>,
    pub file: Option<u64>,
    pub pgfault: Option<u64>,
}

/// Time that tasks of a cgroup were stalled on a resource, cumulative, in
/// microseconds.
#[derive(Clone, Copy, Debug, PartialEq, Eq, Default)]
pub struct Pressure {
    pub cpu_some_usec: Option<u64>,
    pub io_some_usec: Option<u64>,
    pub io_full_usec: Option<u64>,
    pub memory_some_usec: Option<u64>,
    pub memory_full_usec: Option<u64>,
}

/// How often a cgroup hit its memory boundaries, cumulative.
#[derive(Clone, Copy, Debug, PartialEq, Eq, Default)]
pub struct MemoryEvents {
    pub low: Option<u64>,
    pub high: Option<u64>,
    pub max: Option<u64>,
    pub oom: Option<u64>,
    pub oom_kill: Option<u64>,
}

/// The memory throttling limit of a cgroup.
#[derive(Clone, Copy, Debug, PartialEq, Eq)]
pub enum MemoryHigh {
    /// No limit.
    Max,
    /// A limit in bytes.
    Bytes(u64),
}

/// The counters of one node of the cgroup hierarchy, with its children.
#[derive(Debug, PartialEq, Eq, Default)]
pub struct CgroupSample {
    pub cpu_stat: Option<CpuStat>,
    /// I/O counters by device, in the order in which they were read.
    pub io_stat: Option<Vec<(String, IoStat)>>,
    pub memory_current: Option<u64>,
    pub memory_stat: Option<MemoryStat>,
    pub pressure: Option<Pressure>,
    /// The child nodes by name, in the order in which they were listed.
    pub children: Option<Vec<(String, CgroupSample)>>,
    pub memory_swap_current: Option<u64>,
    pub memory_high: Option<MemoryHigh>,
    pub memory_events: Option<MemoryEvents>,
    pub inode_number: Option<u64>,
}

/// A cgroup sample as a mathematical value.
pub struct CgroupSampleView {
    pub cpu_stat: Option<CpuStat>,
    pub io_stat: Option<Seq<(Seq<char>, IoStat)>>,
    pub memory_current: Option<u64>,
    pub memory_stat: Option<MemoryStat>,
    pub pressure: Option<Pressure>,
    pub children: Option<Seq<(Seq<char>, CgroupSampleView)>>,
    pub memory_swap_current: Option<u64>,
    pub memory_high: Option<MemoryHigh>,
    pub memory_events: Option<MemoryEvents>,
    pub inode_number: Option<u64>,
}

/// A list of named values with each name as a sequence of characters.
pub open spec fn named_view<T>(entries: Seq<(String, T)>) -> Seq<(Seq<char>, T)> {
    Seq::new(entries.len(), |i: int| (entries[i].0@, entries[i].1))
}

/// An optional string as an optional sequence of characters.
pub open spec fn opt_string_view(s: Option<String>) -> Option<Seq<char>> {
    match s {
        Some(s) => Some(s@),
        None => None,
    }
}

/// A copy of an optional string.
pub fn clone_opt_string(s: &Option<String>) -> (r: Option<String>)
    ensures
        r == *s,
{
    match s {
        Some(s) => Some(s.clone()),
        None => None,
    }
}

/// The mathematical value of a cgroup sample.
pub open spec fn cgroup_sample_view(sample: CgroupSample) -> CgroupSampleView
    decreases sample,
{
    CgroupSampleView {
        cpu_stat: sample.cpu_stat,
        io_stat: match sample.io_stat {
            Some(devices) => Some(named_view(devices@)),
            None => None,
        },
        memory_current: sample.memory_current,
        memory_stat: sample.memory_stat,
        pressure: sample.pressure,
        children: match sample.children {
            Some(children) => Some(
                Seq::new(
                    children@.len(),
                    |i: int|
                        if 0 <= i < children@.len() {
                            (children@[i].0@, cgroup_sample_view(children@[i].1))
                        } else {
                            arbitrary()
                        },
                ),
            ),
            None => None,
        },
        memory_swap_current: sample.memory_swap_current,
        memory_high: sample.memory_high,
        memory_events: sample.memory_events,
        inode_number: sample.inode_number,
    }
}

impl View for CgroupSample {
    type V = CgroupSampleView;

    open spec fn view(&self) -> CgroupSampleView {
        cgroup_sample_view(*self)
    }
}

/// A list of collected children with each name as a sequence of
/// characters and each sample as a mathematical value.
pub open spec fn children_view(children: Seq<(String, CgroupSample)>) -> Seq<
    (Seq<char>, CgroupSampleView),
> {
    Seq::new(children.len(), |i: int| (children[i].0@, children[i].1@))
}

/// The view of a sample lists the views of its children.
pub proof fn lemma_children_of_view(sample: CgroupSample)
    ensures
        sample@.children == match sample.children {
            Some(children) => Some(children_view(children@)),
            None => None,
        },
        sample@.io_stat == match sample.io_stat {
            Some(devices) => Some(named_view(devices@)),
            None => None,
        },
{
    if let Some(children) = sample.children {
        assert(sample@.children->0 =~= children_view(children@));
    }
}


/// What is known of one process, with its counters.
#[derive(Debug, PartialEq, Eq, Default)]
pub struct PidInfo {
    /// The name of the command.
    pub comm: Option<String>,
    /// The path of the cgroup that the process belongs to.
    pub cgroup: Option<String>,
    pub ppid: Option<i32>,
    pub num_threads: Option<u64>,
    /// CPU time in user mode, cumulative.
    pub user_usecs: Option<u64>,
    /// CPU time in kernel mode, cumulative.
    pub system_usecs: Option<u64>,
    /// Resident memory, in pages.
    pub rss_pages: Option<u64>,
    /// Bytes read from storage, cumulative.
    pub rbytes: Option<u64>,
    /// Bytes written to storage, cumulative.
    pub wbytes: Option<u64>,
}

impl Clone for PidInfo {
    fn clone(&self) -> (r: PidInfo)
        ensures
            r == *self,
    {
        PidInfo {
            comm: clone_opt_string(&self.comm),
            cgroup: clone_opt_string(&self.cgroup),
            ppid: self.ppid,
            num_threads: self.num_threads,
            user_usecs: self.user_usecs,
            system_usecs: self.system_usecs,
            rss_pages: self.rss_pages,
            rbytes: self.rbytes,
            wbytes: self.wbytes,
        }
    }
}

/// The counters of every process, by process id.
pub type PidMap = BTreeMap<i32, PidInfo>;

/// The counters of one disk, cumulative.
#[derive(Clone, Copy, Debug, PartialEq, Eq, Default)]
pub struct DiskStat {
    pub read_completed: Option<u64>,
    pub read_merged: Option<u64>,
    pub read_sectors: Option<u64>,
    pub time_spend_read_ms: Option<u64>,
    pub write_completed: Option<u64>,
    pub write_merged: Option<u64>,
    pub write_sectors: Option<u64>,
    pub time_spend_write_ms: Option<u64>,
    pub discard_completed: Option<u64>,
    pub discard_merged: Option<u64>,
    pub discard_sectors: Option<u64>,
    pub time_spend_discard_ms: Option<u64>,
}

/// CPU time of the whole host, cumulative, and scheduler counters.
#[derive(Clone, Copy, Debug, PartialEq, Eq, Default)]
pub struct ProcStat {
    pub user_usec: Option<u64>,
    pub system_usec: Option<u64>,
    pub idle_usec: Option<u64>,
    pub context_switches: Option<u64>,
    pub boot_time_epoch_secs: Option<u64>,
    pub running_processes: Option<u64>,
}

/// Memory of the whole host.
#[derive(Clone, Copy, Debug, PartialEq, Eq, Default)]
pub struct MemInfo {
    pub total: Option<u64>,
    pub free: Option<u64>,
    pub available: Option<u64>,
}

/// Paging activity of the whole host, cumulative.
#[derive(Clone, Copy, Debug, PartialEq, Eq, Default)]
pub struct VmStat {
    pub pgpgin: Option<u64>,
    pub pgpgout: Option<u64>,
    pub oom_kill: Option<u64>,
}

/// Network traffic of the whole host, cumulative.
#[derive(Clone, Copy, Debug, PartialEq, Eq, Default)]
pub struct NetStat {
    pub rx_bytes: Option<u64>,
    pub tx_bytes: Option<u64>,
    pub rx_packets: Option<u64>,
    pub tx_packets: Option<u64>,
    pub tcp_retrans_segs: Option<u64>,
}

/// What was read of the host as a whole.
#[derive(Debug, PartialEq, Eq, Default)]
pub struct SystemSample {
    pub stat: Option<ProcStat>,
    pub meminfo: Option<MemInfo>,
    pub vmstat: Option<VmStat>,
    pub hostname: String,
    pub kernel_version: Option<String>,
    pub os_release: Option<String>,
    /// Disk counters by disk name, in the order in which they were read.
    pub disks: Vec<(String, DiskStat)>,
}

/// A system sample as a mathematical value.
pub struct SystemSampleView {
    pub stat: Option<ProcStat>,
    pub meminfo: Option<MemInfo>,
    pub vmstat: Option<VmStat>,
    pub hostname: Seq<char>,
    pub kernel_version: Option<Seq<char>>,
    pub os_release: Option<Seq<char>>,
    pub disks: Seq<(Seq<char>, DiskStat)>,
}

impl View for SystemSample {
    type V = SystemSampleView;

    open spec fn view(&self) -> SystemSampleView {
        SystemSampleView {
            stat: self.stat,
            meminfo: self.meminfo,
            vmstat: self.vmstat,
            hostname: self.hostname@,
            kernel_version: opt_string_view(self.kernel_version),
            os_release: opt_string_view(self.os_release),
            disks: named_view(self.disks@),
        }
    }
}

/// One immutable snapshot of the host.
#[derive(Debug, PartialEq, Eq, Default)]
pub struct Sample {
    pub cgroup: CgroupSample,
    pub processes: PidMap,
    pub netstats: NetStat,
    pub system: SystemSample,
}

/// A sample as a mathematical value.
pub struct SampleView {
    pub cgroup: CgroupSampleView,
    pub processes: Map<i32, PidInfo>,
    pub netstats: NetStat,
    pub system: SystemSampleView,
}

impl View for Sample {
    type V = SampleView;

    open spec fn view(&self) -> SampleView {
        SampleView {
            cgroup: self.cgroup@,
            processes: self.processes@,
            netstats: self.netstats,
            system: self.system@,
        }
    }
}

/// A sample as a store keeps it.
#[derive(Debug, PartialEq, Eq, Default)]
pub struct DataFrame {
    pub sample: Sample,
}

} // verus!
