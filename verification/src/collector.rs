//! Turning what was read of the host into a sample: which failures only
//! blank a field, which processes and disks are kept, and which parts of the
//! cgroup hierarchy are walked.

use crate::model::older_sample_view;
use crate::model::model_spec;
use crate::model::Model;
use crate::outside::hostname_get;
use crate::outside::os_info_get;
use crate::outside::regex_is_match;
use crate::rate::Elapsed;
use crate::sample::opt_string_view;
use crate::sample::MemInfo;
use crate::sample::NetStat;
use crate::sample::ProcStat;
use crate::sample::Sample;
use crate::sample::SampleView;
use crate::sample::SystemSample;
use crate::sample::SystemSampleView;
use crate::sample::VmStat;
use crate::sample::CgroupSample;
use crate::sample::CgroupSampleView;
use crate::sample::CpuStat;
use crate::sample::DiskStat;
use crate::sample::IoStat;
use crate::sample::MemoryEvents;
use crate::sample::MemoryHigh;
use crate::sample::MemoryStat;
use crate::sample::PidInfo;
use crate::sample::PidMap;
use crate::sample::Pressure;
use crate::sample::children_view;
use crate::sample::lemma_children_of_view;
use crate::sample::named_view;
use regex::Regex;
use std::collections::BTreeMap;
use vstd::prelude::*;
use vstd::std_specs::iter::IteratorSpec;
use vstd::string::StrSliceExecFns;
use vstd::string::StringExecFns;

verus! {

/// The error number with which the kernel answers a read of a control file
/// whose cgroup was removed after the file had been opened.
pub const ENODEV: i32 = 19;

/// What the operating system said of a failed read, as far as it matters
/// here.
#[derive(Clone, Copy, PartialEq, Eq, Structural, Debug)]
pub enum IoErrorKind {
    /// The file does not exist.
    NotFound,
    /// Anything else.
    Other,
}

/// Why a read of a cgroup control file failed.
#[derive(Clone, Copy, Debug, PartialEq, Eq)]
pub enum CgroupError {
    /// The file does not have the expected layout.
    InvalidFileFormat,
    /// The operating system refused or failed the read.
    IoError { kind: IoErrorKind, raw_os_error: Option<i32> },
    /// A line of the file could not be understood.
    UnexpectedLine,
    /// The directory is not part of a cgroup2 hierarchy.
    NotCgroup2,
    /// The kernel does not expose pressure for this cgroup.
    PressureNotSupported,
}

/// An error that only means that the data is not there: the file does not
/// exist, as for a control file that the root cgroup lacks, or the cgroup
/// was removed while it was read.
pub open spec fn is_absence(error: CgroupError) -> bool {
    error matches CgroupError::IoError { kind, raw_os_error } && (kind == IoErrorKind::NotFound
        || raw_os_error == Some(ENODEV))
}

/// An error of the I/O statistics that only means that the data cannot be
/// had: an absence, or a file that the kernel cut short.
pub open spec fn is_io_stat_absence(error: CgroupError) -> bool {
    is_absence(error) || error == CgroupError::InvalidFileFormat || error
        == CgroupError::UnexpectedLine
}

/// The outcome of a read with absences turned into a missing value.
pub open spec fn wrap_spec<S>(v: Result<S, CgroupError>) -> Result<Option<S>, CgroupError> {
    match v {
        Ok(value) => Ok(Some(value)),
        Err(error) => if is_absence(error) {
            Ok(None)
        } else {
            Err(error)
        },
    }
}

/// The outcome of a read of the I/O statistics with absences and cut-short
/// files turned into a missing value.
pub open spec fn io_stat_wrap_spec<S>(v: Result<S, CgroupError>) -> Result<Option<S>, CgroupError> {
    match v {
        Ok(value) => Ok(Some(value)),
        Err(error) => if is_io_stat_absence(error) {
            Ok(None)
        } else {
            Err(error)
        },
    }
}

/// Allows omitted data: a read that failed because the file is not there,
/// or because the cgroup went away while it was read, yields no value;
/// every other failure stays a failure.
pub fn wrap<S: Sized>(v: Result<S, CgroupError>) -> (r: Result<Option<S>, CgroupError>)
    ensures
        r == wrap_spec(v),
{
    match v {
        Ok(value) => Ok(Some(value)),
        Err(CgroupError::IoError { kind, raw_os_error }) => {
            match kind {
                IoErrorKind::NotFound => {
                    return Ok(None);
                },
                IoErrorKind::Other => {},
            }
            if let Some(errno) = raw_os_error {
                if errno == ENODEV {
                    return Ok(None);
                }
            }
            Err(CgroupError::IoError { kind, raw_os_error })
        },
        Err(error) => Err(error),
    }
}

/// As `wrap`, and in addition tolerates I/O statistics that the kernel cut
/// short: they are omitted instead of failing the whole collection.
pub fn io_stat_wrap<S: Sized>(v: Result<S, CgroupError>) -> (r: Result<Option<S>, CgroupError>)
    ensures
        r == io_stat_wrap_spec(v),
{
    match wrap(v) {
        Err(CgroupError::InvalidFileFormat) => Ok(None),
        Err(CgroupError::UnexpectedLine) => Ok(None),
        wrapped => wrapped,
    }
}

/// The processes of a sample: every process of the live scan as the scan
/// saw it, and every exited process that the scan did not see.
pub open spec fn merged_pids(procfs_data: Map<i32, PidInfo>, exit_data: Map<i32, PidInfo>) -> Map<
    i32,
    PidInfo,
> {
    exit_data.union_prefer_right(procfs_data)
}

/// Completes the live scan with the processes that exited since the last
/// collection. Where both know a process, the live scan is kept: it is the
/// later and the more complete of the two.
pub fn merge_procfs_and_exit_data(procfs_data: PidMap, exit_data: PidMap) -> (r: PidMap)
    ensures
        r@ == merged_pids(procfs_data@, exit_data@),
{
    broadcast use vstd::std_specs::btree::group_btree_axioms;

    let mut merged = procfs_data;
    for entry in it: exit_data.iter()
        invariant
            vstd::laws_cmp::obeys_cmp::<i32>(),
            it.seq() == vstd::std_specs::btree::spec_btree_map_iter(&exit_data).remaining(),
            forall|pid: i32| #[trigger]
                procfs_data@.contains_key(pid) ==> merged@.contains_key(pid) && merged@[pid]
                    == procfs_data@[pid],
            forall|pid: i32| #[trigger]
                merged@.contains_key(pid) && !procfs_data@.contains_key(pid)
                    ==> exit_data@.contains_key(pid) && merged@[pid] == exit_data@[pid],
            forall|j: int| 0 <= j < it.index() ==> merged@.contains_key(*(#[trigger] it.seq()[j]).0),
    {
        assert(exit_data@.contains_key(*entry.0) && exit_data@[*entry.0] == *entry.1);
        if !merged.contains_key(entry.0) {
            merged.insert(*entry.0, entry.1.clone());
        }
    }
    assert(merged@ =~= merged_pids(procfs_data@, exit_data@)) by {
        let listed = vstd::std_specs::btree::spec_btree_map_iter(&exit_data).remaining();
        assert forall|pid: i32| exit_data@.contains_key(pid) implies merged@.contains_key(pid) by {
            let entry = (&pid, &exit_data@[pid]);
            assert(listed.contains(entry));
            let j = choose|j: int| 0 <= j < listed.len() && listed[j] == entry;
            assert(merged@.contains_key(*listed[j].0));
        }
    }
    merged
}

/// Whether every counter of a disk is exactly zero, as for a device that is
/// configured but not in use.
pub open spec fn all_zero(disk_stats: DiskStat) -> bool {
    &&& disk_stats.read_completed == Some(0u64)
    &&& disk_stats.write_completed == Some(0u64)
    &&& disk_stats.discard_completed == Some(0u64)
    &&& disk_stats.read_merged == Some(0u64)
    &&& disk_stats.read_sectors == Some(0u64)
    &&& disk_stats.time_spend_read_ms == Some(0u64)
    &&& disk_stats.write_merged == Some(0u64)
    &&& disk_stats.write_sectors == Some(0u64)
    &&& disk_stats.time_spend_write_ms == Some(0u64)
    &&& disk_stats.discard_merged == Some(0u64)
    &&& disk_stats.discard_sectors == Some(0u64)
    &&& disk_stats.time_spend_discard_ms == Some(0u64)
}

/// Whether a counter was read and is zero.
fn is_zero(counter: Option<u64>) -> (r: bool)
    ensures
        r == (counter == Some(0u64)),
{
    match counter {
        Some(count) => count == 0,
        None => false,
    }
}

/// Tests whether all counters of a disk are zero; such a disk is left out
/// of the sample.
pub fn is_all_zero_disk_stats(disk_stats: &DiskStat) -> (r: bool)
    ensures
        r == all_zero(*disk_stats),
{
    is_zero(disk_stats.read_completed) && is_zero(disk_stats.write_completed) && is_zero(
        disk_stats.discard_completed,
    ) && is_zero(disk_stats.read_merged) && is_zero(disk_stats.read_sectors) && is_zero(
        disk_stats.time_spend_read_ms,
    ) && is_zero(disk_stats.write_merged) && is_zero(disk_stats.write_sectors) && is_zero(
        disk_stats.time_spend_write_ms,
    ) && is_zero(disk_stats.discard_merged) && is_zero(disk_stats.discard_sectors) && is_zero(
        disk_stats.time_spend_discard_ms,
    )
}

/// Whether a disk name is that of a virtual device: a RAM disk or a loop
/// device.
pub open spec fn is_virtual_disk(disk_name: Seq<char>) -> bool {
    seq!['r', 'a', 'm'].is_prefix_of(disk_name) || seq!['l', 'o', 'o', 'p'].is_prefix_of(disk_name)
}

/// Whether a disk belongs in the sample: a real device with at least one
/// counter that is not zero.
pub open spec fn disk_is_kept(entry: (Seq<char>, DiskStat)) -> bool {
    !is_virtual_disk(entry.0) && !all_zero(entry.1)
}

/// Whether `text` begins with `prefix`.
pub fn starts_with(text: &str, prefix: &str) -> (r: bool)
    ensures
        r == prefix@.is_prefix_of(text@),
{
    let text_len = text.unicode_len();
    let prefix_len = prefix.unicode_len();
    if text_len < prefix_len {
        return false;
    }
    let mut i: usize = 0;
    while i < prefix_len
        invariant
            i <= prefix_len <= text_len,
            prefix_len == prefix@.len(),
            text_len == text@.len(),
            forall|j: int| 0 <= j < i ==> prefix@[j] == text@[j],
        decreases prefix_len - i,
    {
        if text.get_char(i) != prefix.get_char(i) {
            assert(prefix@[i as int] != text@.subrange(0, prefix@.len() as int)[i as int]);
            return false;
        }
        i += 1;
    }
    assert(prefix@ =~= text@.subrange(0, prefix@.len() as int));
    true
}

/// Decides whether a disk goes into the sample.
pub fn keep_disk(disk_name: &str, disk_stat: &DiskStat) -> (r: bool)
    ensures
        r == disk_is_kept((disk_name@, *disk_stat)),
{
    proof {
        reveal_strlit("ram");
        reveal_strlit("loop");
        assert("ram"@ =~= seq!['r', 'a', 'm']);
        assert("loop"@ =~= seq!['l', 'o', 'o', 'p']);
    }
    if starts_with(disk_name, "ram") || starts_with(disk_name, "loop") {
        return false;
    }
    !is_all_zero_disk_stats(disk_stat)
}

/// The disks of a sample: those that were read, in their order, without
/// the virtual devices and without the disks whose counters are all zero.
pub open spec fn kept_disks(disks: Seq<(Seq<char>, DiskStat)>) -> Seq<(Seq<char>, DiskStat)> {
    disks.filter(|entry: (Seq<char>, DiskStat)| disk_is_kept(entry))
}

/// Drops the disks that do not belong in a sample.
pub fn filter_disks(disks: Vec<(String, DiskStat)>) -> (r: Vec<(String, DiskStat)>)
    ensures
        named_view(r@) == kept_disks(named_view(disks@)),
{
    let ghost all = disks@;
    let ghost keep = |entry: (Seq<char>, DiskStat)| disk_is_kept(entry);
    let mut kept: Vec<(String, DiskStat)> = Vec::new();
    proof {
        reveal(Seq::filter);
        assert(named_view(all.take(0)) =~= Seq::empty());
        assert(named_view(kept@) =~= named_view(all.take(0)).filter(keep));
    }
    for entry in it: disks
        invariant
            all == it.seq(),
            keep == |entry: (Seq<char>, DiskStat)| disk_is_kept(entry),
            named_view(kept@) == named_view(all.take(it.index() as int)).filter(keep),
    {
        let ghost i = it.index() as int;
        let ghost before = named_view(all.take(i));
        let ghost after = named_view(all.take(i + 1));
        let ghost old_kept = named_view(kept@);
        proof {
            reveal(Seq::filter);
            assert(after.drop_last() =~= before);
            assert(after.last() == (entry.0@, entry.1));
        }
        let (disk_name, disk_stat) = entry;
        if keep_disk(disk_name.as_str(), &disk_stat) {
            kept.push((disk_name, disk_stat));
            assert(named_view(kept@) =~= old_kept.push((disk_name@, disk_stat)));
        }
    }
    assert(all.take(all.len() as int) =~= all);
    kept
}

/// A disk with the name of a virtual device, or with every counter at zero,
/// is not among the disks of a sample; every other disk that was read is.
pub proof fn virtual_and_idle_disks_are_excluded(disks: Seq<(Seq<char>, DiskStat)>, i: int)
    requires
        0 <= i < disks.len(),
    ensures
        is_virtual_disk(disks[i].0) || all_zero(disks[i].1) ==> !kept_disks(disks).contains(
            disks[i],
        ),
        !is_virtual_disk(disks[i].0) && !all_zero(disks[i].1) ==> kept_disks(disks).contains(
            disks[i],
        ),
        forall|j: int|
            0 <= j < kept_disks(disks).len() ==> !is_virtual_disk(
                (#[trigger] kept_disks(disks)[j]).0,
            ) && !all_zero(kept_disks(disks)[j].1),
{
    broadcast use vstd::seq_lib::group_filter_ensures;

    let keep = |entry: (Seq<char>, DiskStat)| disk_is_kept(entry);
    if kept_disks(disks).contains(disks[i]) {
        let j = choose|j: int| 0 <= j < kept_disks(disks).len() && kept_disks(disks)[j] == disks[i];
        assert(keep(kept_disks(disks)[j]));
    }
    assert forall|j: int| 0 <= j < kept_disks(disks).len() implies !is_virtual_disk(
        (#[trigger] kept_disks(disks)[j]).0,
    ) && !all_zero(kept_disks(disks)[j].1) by {
        assert(keep(kept_disks(disks)[j]));
    }
}

/// A process that the live scan saw keeps the counters of the live scan,
/// whatever the exit buffer holds for it; a process that only the exit
/// buffer knows keeps the counters buffered for it; no other process is in
/// the sample.
pub proof fn live_scan_wins(procfs_data: Map<i32, PidInfo>, exit_data: Map<i32, PidInfo>, pid: i32)
    ensures
        procfs_data.contains_key(pid) ==> merged_pids(procfs_data, exit_data).contains_key(pid)
            && merged_pids(procfs_data, exit_data)[pid] == procfs_data[pid],
        !procfs_data.contains_key(pid) && exit_data.contains_key(pid) ==> merged_pids(
            procfs_data,
            exit_data,
        ).contains_key(pid) && merged_pids(procfs_data, exit_data)[pid] == exit_data[pid],
        !procfs_data.contains_key(pid) && !exit_data.contains_key(pid) ==> !merged_pids(
            procfs_data,
            exit_data,
        ).contains_key(pid),
{
}

/// What was read of one node of the cgroup hierarchy: the outcome of each
/// read, and the same for each child that was walked.
#[derive(Debug)]
pub struct RawCgroup {
    pub cpu_stat: Result<CpuStat, CgroupError>,
    /// The I/O statistics by device, where they were read at all.
    pub io_stat: Option<Result<Vec<(String, IoStat)>, CgroupError>>,
    pub memory_current: Result<u64, CgroupError>,
    pub memory_stat: Result<MemoryStat, CgroupError>,
    pub pressure: Result<Pressure, CgroupError>,
    /// The children in the order in which the kernel listed them.
    pub children: Result<Vec<RawChild>, CgroupError>,
    pub memory_swap_current: Result<u64, CgroupError>,
    pub memory_high: Result<Option<MemoryHigh>, CgroupError>,
    pub memory_events: Result<MemoryEvents, CgroupError>,
    pub inode_number: Result<u64, CgroupError>,
}

/// A child of a cgroup as it was read.
#[derive(Debug)]
pub struct RawChild {
    /// The name of the child within its parent.
    pub name: String,
    /// The path of the child from the root of the hierarchy.
    pub path: String,
    /// What was read of the child.
    pub node: RawCgroup,
}

/// Whether the exclusion pattern, if there is one, matches a cgroup path.
pub open spec fn is_excluded(cgroup_re: Option<Regex>, path: Seq<char>) -> bool {
    match cgroup_re {
        Some(re) => regex_is_match(re, path),
        None => false,
    }
}

/// The failure of a read that `wrap` does not turn into a missing value.
pub open spec fn wrap_error<S>(v: Result<S, CgroupError>) -> Option<CgroupError> {
    match wrap_spec(v) {
        Ok(_) => None,
        Err(error) => Some(error),
    }
}

/// The value of a read, missing where the read failed.
pub open spec fn wrap_value<S>(v: Result<S, CgroupError>) -> Option<S> {
    match v {
        Ok(value) => Some(value),
        Err(_) => None,
    }
}

/// The outcome of reading the I/O statistics, as far as they were asked
/// for and read.
pub open spec fn io_stat_read(raw: RawCgroup, collect_io_stat: bool) -> Result<
    Option<Vec<(String, IoStat)>>,
    CgroupError,
> {
    if collect_io_stat {
        match raw.io_stat {
            Some(read) => io_stat_wrap_spec(read),
            None => Ok(None),
        }
    } else {
        Ok(None)
    }
}

/// The first of two failures.
pub open spec fn or_else(first: Option<CgroupError>, second: Option<CgroupError>) -> Option<
    CgroupError,
> {
    match first {
        Some(error) => Some(error),
        None => second,
    }
}

/// The failure on which the reads of a node before its children abort the
/// collection, in the order of the reads.
pub open spec fn early_error(raw: RawCgroup, collect_io_stat: bool) -> Option<CgroupError> {
    or_else(
        match io_stat_read(raw, collect_io_stat) {
            Ok(_) => None,
            Err(error) => Some(error),
        },
        or_else(
            wrap_error(raw.cpu_stat),
            or_else(
                wrap_error(raw.memory_current),
                or_else(
                    wrap_error(raw.memory_stat),
                    or_else(wrap_error(raw.pressure), wrap_error(raw.children)),
                ),
            ),
        ),
    )
}

/// The failure on which the reads of a node after its children abort the
/// collection, in the order of the reads.
pub open spec fn late_error(raw: RawCgroup) -> Option<CgroupError> {
    or_else(
        wrap_error(raw.memory_swap_current),
        or_else(
            match raw.memory_high {
                Ok(_) => None,
                Err(error) => Some(error),
            },
            wrap_error(raw.memory_events),
        ),
    )
}

/// The failure that aborts the collection of a node: the first one, in the
/// order of the walk, that is more than an absence. The inode number never
/// aborts.
pub open spec fn collect_error(
    raw: RawCgroup,
    collect_io_stat: bool,
    cgroup_re: Option<Regex>,
) -> Option<CgroupError>
    decreases raw, 1nat,
{
    or_else(
        early_error(raw, collect_io_stat),
        or_else(
            match raw.children {
                Ok(children) => children_error(children@, collect_io_stat, cgroup_re),
                Err(_) => None,
            },
            late_error(raw),
        ),
    )
}

/// The failure that aborts the walk of the children of a node: that of the
/// first child, among those that the pattern does not exclude, whose
/// collection fails.
pub open spec fn children_error(
    children: Seq<RawChild>,
    collect_io_stat: bool,
    cgroup_re: Option<Regex>,
) -> Option<CgroupError>
    decreases children, 0nat,
{
    if children.len() == 0 {
        None
    } else {
        or_else(
            children_error(children.drop_last(), collect_io_stat, cgroup_re),
            if is_excluded(cgroup_re, children.last().path@) {
                None
            } else {
                collect_error(children.last().node, collect_io_stat, cgroup_re)
            },
        )
    }
}

/// The sample of a node whose collection does not fail.
pub open spec fn collected(
    raw: RawCgroup,
    collect_io_stat: bool,
    cgroup_re: Option<Regex>,
) -> CgroupSampleView
    decreases raw, 1nat,
{
    CgroupSampleView {
        cpu_stat: wrap_value(raw.cpu_stat),
        io_stat: match io_stat_read(raw, collect_io_stat) {
            Ok(Some(devices)) => Some(named_view(devices@)),
            _ => None,
        },
        memory_current: wrap_value(raw.memory_current),
        memory_stat: wrap_value(raw.memory_stat),
        pressure: wrap_value(raw.pressure),
        children: match raw.children {
            Ok(children) => Some(collected_children(children@, collect_io_stat, cgroup_re)),
            Err(_) => None,
        },
        memory_swap_current: wrap_value(raw.memory_swap_current),
        memory_high: match raw.memory_high {
            Ok(limit) => limit,
            Err(_) => None,
        },
        memory_events: wrap_value(raw.memory_events),
        inode_number: wrap_value(raw.inode_number),
    }
}

/// The samples of the children of a node, by name: one for each child that
/// the pattern does not exclude, in the order of the listing.
pub open spec fn collected_children(
    children: Seq<RawChild>,
    collect_io_stat: bool,
    cgroup_re: Option<Regex>,
) -> Seq<(Seq<char>, CgroupSampleView)>
    decreases children, 0nat,
{
    if children.len() == 0 {
        Seq::empty()
    } else {
        let front = collected_children(children.drop_last(), collect_io_stat, cgroup_re);
        if is_excluded(cgroup_re, children.last().path@) {
            front
        } else {
            front.push(
                (
                    children.last().name@,
                    collected(children.last().node, collect_io_stat, cgroup_re),
                ),
            )
        }
    }
}

/// What the collection of a node comes to: its sample, or the failure that
/// aborts it.
pub open spec fn collect_cgroup_spec(
    raw: RawCgroup,
    collect_io_stat: bool,
    cgroup_re: Option<Regex>,
) -> Result<CgroupSampleView, CgroupError> {
    match collect_error(raw, collect_io_stat, cgroup_re) {
        Some(error) => Err(error),
        None => Ok(collected(raw, collect_io_stat, cgroup_re)),
    }
}

/// Tests a cgroup path against the exclusion pattern.
pub fn excludes(cgroup_re: &Option<Regex>, path: &str) -> (r: bool)
    ensures
        r == is_excluded(*cgroup_re, path@),
{
    match cgroup_re {
        Some(re) => re.is_match(path),
        None => false,
    }
}

/// A failure among the first children is the failure of the whole listing.
proof fn lemma_children_error_of_prefix(
    children: Seq<RawChild>,
    collect_io_stat: bool,
    cgroup_re: Option<Regex>,
    i: int,
)
    requires
        0 <= i <= children.len(),
        children_error(children.take(i), collect_io_stat, cgroup_re) is Some,
    ensures
        children_error(children, collect_io_stat, cgroup_re) == children_error(
            children.take(i),
            collect_io_stat,
            cgroup_re,
        ),
    decreases children.len() - i,
{
    if i < children.len() {
        assert(children.take(i + 1).drop_last() =~= children.take(i));
        lemma_children_error_of_prefix(children, collect_io_stat, cgroup_re, i + 1);
    } else {
        assert(children.take(i) =~= children);
    }
}

/// Collects the children of a node in the order of the listing, leaving
/// out the subtrees that the pattern excludes.
fn collect_children(children: Vec<RawChild>, collect_io_stat: bool, cgroup_re: &Option<Regex>) -> (r:
    Result<Vec<(String, CgroupSample)>, CgroupError>)
    ensures
        match r {
            Ok(samples) => children_error(children@, collect_io_stat, *cgroup_re) is None
                && children_view(samples@) == collected_children(
                children@,
                collect_io_stat,
                *cgroup_re,
            ),
            Err(error) => children_error(children@, collect_io_stat, *cgroup_re) == Some(error),
        },
    decreases children@, 0nat,
{
    let ghost all = children@;
    let mut samples: Vec<(String, CgroupSample)> = Vec::new();
    assert(children_view(samples@) =~= collected_children(
        all.take(0),
        collect_io_stat,
        *cgroup_re,
    ));
    for child in it: children
        invariant
            all == it.seq(),
            all == children@,
            children_error(all.take(it.index() as int), collect_io_stat, *cgroup_re) is None,
            children_view(samples@) == collected_children(
                all.take(it.index() as int),
                collect_io_stat,
                *cgroup_re,
            ),
    {
        let ghost i = it.index() as int;
        let ghost before = children_view(samples@);
        proof {
            assert(all.take(i + 1).drop_last() =~= all.take(i));
            assert(all.take(i + 1).last() == child);
        }
        let RawChild { name, path, node } = child;
        if !excludes(cgroup_re, path.as_str()) {
            match collect_cgroup_sample(node, collect_io_stat, cgroup_re) {
                Ok(sample) => {
                    samples.push((name, sample));
                    assert(children_view(samples@) =~= before.push((name@, sample@)));
                },
                Err(error) => {
                    proof {
                        lemma_children_error_of_prefix(all, collect_io_stat, *cgroup_re, i + 1);
                    }
                    return Err(error);
                },
            }
        }
    }
    assert(all.take(all.len() as int) =~= all);
    Ok(samples)
}

/// Collects the sample of one node of the cgroup hierarchy, and of the
/// nodes below it, from what was read of them.
///
/// Each counter stands for itself: a read that failed because the file is
/// not there, as for the root, or because the cgroup was removed meanwhile,
/// leaves its field absent. I/O statistics that the kernel cut short are
/// absent as well. Every other failure aborts the collection, the first one
/// in the order of the walk. A failure to read the inode number never does.
/// Children whose path matches the exclusion pattern are left out with
/// everything below them.
pub fn collect_cgroup_sample(raw: RawCgroup, collect_io_stat: bool, cgroup_re: &Option<Regex>) -> (r:
    Result<CgroupSample, CgroupError>)
    ensures
        match r {
            Ok(sample) => Ok::<CgroupSampleView, CgroupError>(sample@) == collect_cgroup_spec(
                raw,
                collect_io_stat,
                *cgroup_re,
            ),
            Err(error) => Err::<CgroupSampleView, CgroupError>(error) == collect_cgroup_spec(
                raw,
                collect_io_stat,
                *cgroup_re,
            ),
        },
    decreases raw, 1nat,
{
    let RawCgroup {
        cpu_stat,
        io_stat,
        memory_current,
        memory_stat,
        pressure,
        children,
        memory_swap_current,
        memory_high,
        memory_events,
        inode_number,
    } = raw;
    let io_stat = if collect_io_stat {
        match io_stat {
            Some(read) => io_stat_wrap(read)?,
            None => None,
        }
    } else {
        None
    };
    let cpu_stat = wrap(cpu_stat)?;
    let memory_current = wrap(memory_current)?;
    let memory_stat = wrap(memory_stat)?;
    let pressure = wrap(pressure)?;
    let children = match wrap(children)? {
        Some(listed) => Some(collect_children(listed, collect_io_stat, cgroup_re)?),
        None => None,
    };
    let memory_swap_current = wrap(memory_swap_current)?;
    let memory_high = memory_high?;
    let memory_events = wrap(memory_events)?;
    let inode_number = match inode_number {
        Ok(st_ino) => Some(st_ino),
        Err(_) => None,
    };
    let sample = CgroupSample {
        cpu_stat,
        io_stat,
        memory_current,
        memory_stat,
        pressure,
        children,
        memory_swap_current,
        memory_high,
        memory_events,
        inode_number,
    };
    proof {
        lemma_children_of_view(sample);
    }
    Ok(sample)
}

/// A child of a cgroup as the kernel lists it.
#[derive(Debug, PartialEq, Eq)]
pub struct CgroupEntry {
    /// The name of the child within its parent.
    pub name: String,
    /// The path of the child from the root of the hierarchy.
    pub path: String,
}

/// Chooses the children to walk from the listing of a node: all but those
/// whose path matches the exclusion pattern, in the order of the listing.
/// Nothing is to be read of the others, nor of anything below them.
pub fn children_to_walk(listing: Vec<CgroupEntry>, cgroup_re: &Option<Regex>) -> (r: Vec<
    CgroupEntry,
>)
    ensures
        r@ == listing@.filter(|entry: CgroupEntry| !is_excluded(*cgroup_re, entry.path@)),
{
    let ghost all = listing@;
    let ghost walked = |entry: CgroupEntry| !is_excluded(*cgroup_re, entry.path@);
    let mut kept: Vec<CgroupEntry> = Vec::new();
    proof {
        reveal(Seq::filter);
        assert(kept@ =~= all.take(0).filter(walked));
    }
    for entry in it: listing
        invariant
            all == it.seq(),
            walked == |entry: CgroupEntry| !is_excluded(*cgroup_re, entry.path@),
            kept@ == all.take(it.index() as int).filter(walked),
    {
        proof {
            reveal(Seq::filter);
            assert(all.take(it.index() + 1).drop_last() =~= all.take(it.index() as int));
        }
        if !excludes(cgroup_re, entry.path.as_str()) {
            kept.push(entry);
        }
    }
    assert(all.take(all.len() as int) =~= all);
    kept
}

/// The children of a collected node are the listed children that the
/// pattern does not exclude, each with the sample collected of it: a
/// subtree whose path matches the pattern is absent from the result.
pub proof fn excluded_subtrees_are_absent(
    children: Seq<RawChild>,
    collect_io_stat: bool,
    cgroup_re: Option<Regex>,
)
    ensures
        ({
            let walked = children.filter(|child: RawChild| !is_excluded(cgroup_re, child.path@));
            let samples = collected_children(children, collect_io_stat, cgroup_re);
            &&& samples.len() == walked.len()
            &&& forall|i: int|
                0 <= i < walked.len() ==> !is_excluded(cgroup_re, (#[trigger] walked[i]).path@)
                    && samples[i] == (
                    walked[i].name@,
                    collected(walked[i].node, collect_io_stat, cgroup_re),
                )
        }),
    decreases children.len(),
{
    reveal(Seq::filter);
    if children.len() > 0 {
        excluded_subtrees_are_absent(children.drop_last(), collect_io_stat, cgroup_re);
    }
}

/// Why a read of the process file system failed.
#[derive(Clone, Copy, Debug, PartialEq, Eq)]
pub enum ProcfsError {
    InvalidFileFormat,
    IoError,
    ParseError,
    UnexpectedLine,
}

/// Why no sample could be collected.
#[derive(Clone, Copy, Debug, PartialEq, Eq)]
pub enum CollectError {
    /// The cgroup hierarchy could not be opened or walked.
    Cgroup(CgroupError),
    /// The processes could not be listed.
    Procfs(ProcfsError),
    /// The host has no name to attribute the sample to.
    Hostname,
}

/// The host name, or the failure that its absence is.
pub open spec fn hostname_result(name: Option<Seq<char>>) -> Result<Seq<char>, CollectError> {
    match name {
        Some(name) => Ok(name),
        None => Err(CollectError::Hostname),
    }
}

/// Insists on a host name.
pub fn hostname_or_error(name: Option<String>) -> (r: Result<String, CollectError>)
    ensures
        match r {
            Ok(hostname) => name == Some(hostname),
            Err(error) => name is None && error == CollectError::Hostname,
        },
{
    match name {
        Some(name) => Ok(name),
        None => Err(CollectError::Hostname),
    }
}

/// Asks the operating system for the name of the host. The only failure is
/// that there is no name to be had.
pub fn get_hostname() -> (r: Result<String, CollectError>)
    ensures
        r matches Err(error) ==> error == CollectError::Hostname,
{
    hostname_or_error(hostname_get())
}

/// The release of an operating system in one line: its type, its version
/// and its bitness, a space between them.
pub open spec fn os_release_line(os_type: Seq<char>, version: Seq<char>, bitness: Seq<char>) -> Seq<
    char,
> {
    os_type + seq![' '] + version + seq![' '] + bitness
}

/// Writes the release of an operating system in one line.
pub fn format_os_release(os_type: &str, version: &str, bitness: &str) -> (r: String)
    ensures
        r@ == os_release_line(os_type@, version@, bitness@),
{
    proof {
        reveal_strlit(" ");
        assert(" "@ =~= seq![' ']);
    }
    let mut line = String::from_str(os_type);
    line.append(" ");
    line.append(version);
    line.append(" ");
    line.append(bitness);
    line
}

/// Detects the release of the operating system. The line is made of
/// whatever type, version and bitness were detected.
pub fn get_os_release() -> (r: Result<String, CollectError>)
    ensures
        r matches Ok(line) && exists|os_type: Seq<char>, version: Seq<char>, bitness: Seq<char>|
            line@ == #[trigger] os_release_line(os_type, version, bitness),
{
    let (os_type, version, bitness) = os_info_get();
    let line = format_os_release(os_type.as_str(), version.as_str(), bitness.as_str());
    assert(line@ == os_release_line(os_type@, version@, bitness@));
    Ok(line)
}

/// What was read of the host for one sample: the outcome of each read.
#[derive(Debug)]
pub struct RawSample {
    /// The cgroup hierarchy from its root, or why it could not be opened.
    pub cgroup: Result<RawCgroup, CgroupError>,
    /// The live scan of all processes.
    pub processes: Result<PidMap, ProcfsError>,
    pub netstats: Result<NetStat, ProcfsError>,
    pub stat: Result<ProcStat, ProcfsError>,
    pub meminfo: Result<MemInfo, ProcfsError>,
    pub vmstat: Result<VmStat, ProcfsError>,
    pub kernel_version: Result<String, ProcfsError>,
    pub disks: Result<Vec<(String, DiskStat)>, ProcfsError>,
}

/// The value of a read of the process file system, missing where the read
/// failed.
pub open spec fn read_value<T>(read: Result<T, ProcfsError>) -> Option<T> {
    match read {
        Ok(value) => Some(value),
        Err(_) => None,
    }
}

/// The failure that leaves the collection without a sample: that the
/// cgroup hierarchy cannot be opened or walked, else that the processes
/// cannot be listed, else that the host has no name.
pub open spec fn sample_error(
    raw: RawSample,
    hostname: Option<Seq<char>>,
    collect_io_stat: bool,
    cgroup_re: Option<Regex>,
) -> Option<CollectError> {
    match raw.cgroup {
        Err(error) => Some(CollectError::Cgroup(error)),
        Ok(root) => match collect_error(root, collect_io_stat, cgroup_re) {
            Some(error) => Some(CollectError::Cgroup(error)),
            None => match raw.processes {
                Err(error) => Some(CollectError::Procfs(error)),
                Ok(_) => match hostname {
                    None => Some(CollectError::Hostname),
                    Some(_) => None,
                },
            },
        },
    }
}

/// The sample that is collected where nothing fails the collection.
///
/// Every other failed read only leaves its field absent, or the network
/// counters and the disks empty. Disks are left out altogether on demand.
pub open spec fn collected_sample(
    raw: RawSample,
    exit_data: Map<i32, PidInfo>,
    hostname: Seq<char>,
    os_release: Option<Seq<char>>,
    collect_io_stat: bool,
    disable_disk_stat: bool,
    cgroup_re: Option<Regex>,
) -> SampleView {
    SampleView {
        cgroup: collected(raw.cgroup->Ok_0, collect_io_stat, cgroup_re),
        processes: merged_pids(raw.processes->Ok_0@, exit_data),
        netstats: match raw.netstats {
            Ok(netstats) => netstats,
            Err(_) => no_netstat(),
        },
        system: SystemSampleView {
            stat: read_value(raw.stat),
            meminfo: read_value(raw.meminfo),
            vmstat: read_value(raw.vmstat),
            hostname,
            kernel_version: match raw.kernel_version {
                Ok(version) => Some(version@),
                Err(_) => None,
            },
            os_release,
            disks: match raw.disks {
                Ok(disks) => if disable_disk_stat {
                    Seq::empty()
                } else {
                    kept_disks(named_view(disks@))
                },
                Err(_) => Seq::empty(),
            },
        },
    }
}

/// Network counters of which nothing is known.
pub open spec fn no_netstat() -> NetStat {
    NetStat {
        rx_bytes: None,
        tx_bytes: None,
        rx_packets: None,
        tx_packets: None,
        tcp_retrans_segs: None,
    }
}

/// What a collection comes to: the sample, or the failure that leaves the
/// collection without one.
pub open spec fn sample_spec(
    raw: RawSample,
    exit_data: Map<i32, PidInfo>,
    hostname: Option<Seq<char>>,
    os_release: Option<Seq<char>>,
    collect_io_stat: bool,
    disable_disk_stat: bool,
    cgroup_re: Option<Regex>,
) -> Result<SampleView, CollectError> {
    match sample_error(raw, hostname, collect_io_stat, cgroup_re) {
        Some(error) => Err(error),
        None => Ok(
            collected_sample(
                raw,
                exit_data,
                hostname->0,
                os_release,
                collect_io_stat,
                disable_disk_stat,
                cgroup_re,
            ),
        ),
    }
}

/// Empties the buffer of exited processes and hands its content out.
pub fn drain_exit_buffer(exit_data: &mut PidMap) -> (r: PidMap)
    ensures
        r@ == old(exit_data)@,
        final(exit_data)@ == Map::<i32, PidInfo>::empty(),
{
    let mut taken: PidMap = BTreeMap::new();
    std::mem::swap(exit_data, &mut taken);
    taken
}

/// Puts a sample together from what was read, from the processes that
/// exited since the last collection, and from the name and release of the
/// host as they were detected.
pub fn assemble_sample(
    raw: RawSample,
    exit_pidmap: PidMap,
    hostname: Result<String, CollectError>,
    os_release: Result<String, CollectError>,
    collect_io_stat: bool,
    disable_disk_stat: bool,
    cgroup_re: &Option<Regex>,
) -> (r: Result<Sample, CollectError>)
    ensures
        match r {
            Ok(sample) => Ok::<SampleView, CollectError>(sample@),
            Err(error) => Err(error),
        } == sample_spec(
            raw,
            exit_pidmap@,
            match hostname {
                Ok(name) => Some(name@),
                Err(_) => None,
            },
            match os_release {
                Ok(line) => Some(line@),
                Err(_) => None,
            },
            collect_io_stat,
            disable_disk_stat,
            *cgroup_re,
        ),
{
    let RawSample { cgroup, processes, netstats, stat, meminfo, vmstat, kernel_version, disks } =
        raw;
    let root = match cgroup {
        Ok(root) => root,
        Err(error) => {
            return Err(CollectError::Cgroup(error));
        },
    };
    let cgroup = match collect_cgroup_sample(root, collect_io_stat, cgroup_re) {
        Ok(cgroup) => cgroup,
        Err(error) => {
            return Err(CollectError::Cgroup(error));
        },
    };
    let processes = match processes {
        Ok(live) => merge_procfs_and_exit_data(live, exit_pidmap),
        Err(error) => {
            return Err(CollectError::Procfs(error));
        },
    };
    let netstats = match netstats {
        Ok(netstats) => netstats,
        Err(_) => NetStat {
            rx_bytes: None,
            tx_bytes: None,
            rx_packets: None,
            tx_packets: None,
            tcp_retrans_segs: None,
        },
    };
    let hostname = match hostname {
        Ok(hostname) => hostname,
        Err(_) => {
            return Err(CollectError::Hostname);
        },
    };
    let disks = match (disable_disk_stat, disks) {
        (false, Ok(disks)) => filter_disks(disks),
        (false, Err(_)) => Vec::new(),
        (true, _) => Vec::new(),
    };
    let system = SystemSample {
        stat: match stat {
            Ok(stat) => Some(stat),
            Err(_) => None,
        },
        meminfo: match meminfo {
            Ok(meminfo) => Some(meminfo),
            Err(_) => None,
        },
        vmstat: match vmstat {
            Ok(vmstat) => Some(vmstat),
            Err(_) => None,
        },
        hostname,
        kernel_version: match kernel_version {
            Ok(version) => Some(version),
            Err(_) => None,
        },
        os_release: match os_release {
            Ok(line) => Some(line),
            Err(_) => None,
        },
        disks,
    };
    let sample = Sample { cgroup, processes, netstats, system };
    assert(sample@.system.disks =~= collected_sample(
        raw,
        exit_pidmap@,
        hostname@,
        opt_string_view(sample.system.os_release),
        collect_io_stat,
        disable_disk_stat,
        *cgroup_re,
    ).system.disks);
    Ok(sample)
}

/// Collects a sample from what was read of the host. The name and the
/// release of the host are detected here.
///
/// The buffer of exited processes is emptied whatever comes of the
/// collection, or it would grow without bound. A sample is the one that
/// `sample_spec` gives for the name and release that were detected; a
/// failure is the one that it gives for a host without a name.
pub fn collect_sample(
    raw: RawSample,
    exit_data: &mut PidMap,
    collect_io_stat: bool,
    disable_disk_stat: bool,
    cgroup_re: &Option<Regex>,
) -> (r: Result<Sample, CollectError>)
    ensures
        final(exit_data)@ == Map::<i32, PidInfo>::empty(),
        match r {
            Ok(sample) => sample_spec(
                raw,
                old(exit_data)@,
                Some(sample@.system.hostname),
                sample@.system.os_release,
                collect_io_stat,
                disable_disk_stat,
                *cgroup_re,
            ) == Ok::<SampleView, CollectError>(sample@),
            Err(error) => sample_spec(
                raw,
                old(exit_data)@,
                None,
                None,
                collect_io_stat,
                disable_disk_stat,
                *cgroup_re,
            ) == Err::<SampleView, CollectError>(error),
        },
{
    // Drained first and in any case: entries must not pile up in the buffer.
    let exit_pidmap = drain_exit_buffer(exit_data);
    let hostname = get_hostname();
    let os_release = get_os_release();
    assemble_sample(
        raw,
        exit_pidmap,
        hostname,
        os_release,
        collect_io_stat,
        disable_disk_stat,
        cgroup_re,
    )
}

/// Where the cgroup hierarchy is mounted unless told otherwise.
pub const DEFAULT_CG_ROOT: &'static str = "/sys/fs/cgroup";

/// Collects samples and keeps the latest one, so that each new sample can
/// be turned into rates.
pub struct Collector {
    cgroup_root: String,
    // The latest sample with the reading, in microseconds, of a clock that
    // never runs backwards, taken when the sample was collected.
    last: Option<(Sample, u64)>,
}

impl Collector {
    /// The root of the cgroup hierarchy that samples are to be read from.
    pub closed spec fn root(&self) -> Seq<char> {
        self.cgroup_root@
    }

    /// The latest sample, if one was collected, and when.
    pub closed spec fn latest(&self) -> Option<(Sample, u64)> {
        self.last
    }

    /// A collector for the hierarchy at the default mount point.
    pub fn new() -> (r: Collector)
        ensures
            r.root() == DEFAULT_CG_ROOT@,
            r.latest() is None,
    {
        Collector::new_with_cgroup_root(String::from_str(DEFAULT_CG_ROOT))
    }

    /// A collector for the hierarchy at `cgroup_root`.
    pub fn new_with_cgroup_root(cgroup_root: String) -> (r: Collector)
        ensures
            r.root() == cgroup_root@,
            r.latest() is None,
    {
        Collector { cgroup_root, last: None }
    }

    /// The root of the cgroup hierarchy that samples are to be read from.
    pub fn cgroup_root(&self) -> (r: &String)
        ensures
            r@ == self.root(),
    {
        &self.cgroup_root
    }

    /// The latest sample, if one was collected.
    pub fn last_sample(&self) -> (r: Option<&Sample>)
        ensures
            match r {
                Some(sample) => self.latest() matches Some((latest, _)) && latest == *sample,
                None => self.latest() is None,
            },
    {
        match &self.last {
            Some((sample, _)) => Some(sample),
            None => None,
        }
    }

    /// Collects a new sample from what was read at `now` on a clock of
    /// microseconds that never runs backwards, and returns the model of it
    /// at the wall-clock `timestamp`. The rates are those since the latest
    /// sample before; the first model has none.
    ///
    /// I/O statistics are collected, disks are kept and no cgroup is
    /// excluded. A collection that fails leaves the collector as it was;
    /// the buffer of exited processes is emptied either way.
    pub fn update_model(
        &mut self,
        raw: RawSample,
        exit_data: &mut PidMap,
        now: u64,
        timestamp: u64,
    ) -> (r: Result<Model, CollectError>)
        ensures
            final(exit_data)@ == Map::<i32, PidInfo>::empty(),
            final(self).root() == old(self).root(),
            match r {
                Ok(model) => final(self).latest() matches Some((sample, taken)) && taken == now
                    && sample_spec(
                    raw,
                    old(exit_data)@,
                    Some(sample@.system.hostname),
                    sample@.system.os_release,
                    true,
                    false,
                    None,
                ) == Ok::<SampleView, CollectError>(sample@) && model@ == model_spec(
                    timestamp,
                    sample@,
                    match old(self).latest() {
                        Some((before, then)) => Some((before@, Elapsed::between(then, now))),
                        None => None,
                    },
                ),
                Err(error) => final(self).latest() == old(self).latest() && sample_spec(
                    raw,
                    old(exit_data)@,
                    None,
                    None,
                    true,
                    false,
                    None,
                ) == Err::<SampleView, CollectError>(error),
            },
    {
        let sample = collect_sample(raw, exit_data, true, false, &None)?;
        let model = match &self.last {
            Some((before, then)) => Model::new(
                timestamp,
                &sample,
                Some((before, Elapsed::between_micros(*then, now))),
            ),
            None => Model::new(timestamp, &sample, None),
        };
        self.last = Some((sample, now));
        Ok(model)
    }
}

} // verus!
