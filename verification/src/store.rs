//! Seeking in a time-ordered series of samples, and pairing a sample with
//! its predecessor.

use crate::model::model_spec;
use crate::model::Model;
use crate::model::ModelView;
use crate::rate::Elapsed;
use crate::sample::DataFrame;
use crate::sample::SampleView;
use vstd::prelude::*;
use vstd::string::StringExecFns;

verus! {

/// The direction of a seek along the time axis.
#[derive(Clone, Copy, PartialEq, Eq, Structural, Debug)]
pub enum Direction {
    /// Toward increasing time.
    Forward,
    /// Toward decreasing time.
    Reverse,
}

/// Why a store could not answer a query.
#[derive(Debug)]
pub struct StoreError {
    pub message: String,
}

/// A series is time ordered when its timestamps strictly increase.
pub open spec fn time_ordered<T>(series: Seq<(u64, T)>) -> bool {
    forall|i: int, j: int| 0 <= i < j < series.len() ==> series[i].0 < series[j].0
}

/// The first entry, from the front, whose timestamp is at or after `t`.
pub open spec fn seek_forward<T>(series: Seq<(u64, T)>, t: u64) -> Option<(u64, T)>
    decreases series.len(),
{
    if series.len() == 0 {
        None
    } else if series[0].0 >= t {
        Some(series[0])
    } else {
        seek_forward(series.drop_first(), t)
    }
}

/// The first entry, from the back, whose timestamp is at or before `t`.
pub open spec fn seek_reverse<T>(series: Seq<(u64, T)>, t: u64) -> Option<(u64, T)>
    decreases series.len(),
{
    if series.len() == 0 {
        None
    } else if series.last().0 <= t {
        Some(series.last())
    } else {
        seek_reverse(series.drop_last(), t)
    }
}

/// The entry nearest to `t` in the given direction, `t` itself included.
pub open spec fn seek<T>(series: Seq<(u64, T)>, t: u64, direction: Direction) -> Option<(u64, T)> {
    match direction {
        Direction::Forward => seek_forward(series, t),
        Direction::Reverse => seek_reverse(series, t),
    }
}

/// `seek_forward` answers with the entry at `i` when everything before `i`
/// is too early and the entry at `i`, if there is one, is not.
pub proof fn lemma_seek_forward_at<T>(series: Seq<(u64, T)>, t: u64, i: int)
    requires
        0 <= i <= series.len(),
        forall|j: int| 0 <= j < i ==> series[j].0 < t,
        i < series.len() ==> series[i].0 >= t,
    ensures
        seek_forward(series, t) == if i < series.len() {
            Some(series[i])
        } else {
            None
        },
    decreases series.len(),
{
    if series.len() > 0 && i > 0 {
        let rest = series.drop_first();
        assert forall|j: int| 0 <= j < i - 1 implies rest[j].0 < t by {
            assert(rest[j] == series[j + 1]);
        }
        lemma_seek_forward_at(rest, t, i - 1);
    }
}

/// `seek_reverse` answers with the entry before `i` when everything from
/// `i` on is too late and the entry before `i`, if there is one, is not.
pub proof fn lemma_seek_reverse_at<T>(series: Seq<(u64, T)>, t: u64, i: int)
    requires
        0 <= i <= series.len(),
        forall|j: int| i <= j < series.len() ==> series[j].0 > t,
        i > 0 ==> series[i - 1].0 <= t,
    ensures
        seek_reverse(series, t) == if i > 0 {
            Some(series[i - 1])
        } else {
            None
        },
    decreases series.len(),
{
    if series.len() > 0 && i < series.len() {
        let rest = series.drop_last();
        assert forall|j: int| i <= j < rest.len() implies rest[j].0 > t by {
            assert(rest[j] == series[j]);
        }
        lemma_seek_reverse_at(rest, t, i);
    }
}

/// A forward seek that finds something finds a stored entry at or after the
/// query, and nothing stored before that entry is at or after the query; a
/// forward seek that finds nothing means every stored entry is too early.
pub proof fn seek_forward_is_earliest<T>(series: Seq<(u64, T)>, t: u64)
    ensures
        match seek_forward(series, t) {
            Some(found) => exists|i: int|
                0 <= i < series.len() && #[trigger] series[i] == found && found.0 >= t && forall|
                    j: int,
                | 0 <= j < i ==> series[j].0 < t,
            None => forall|j: int| 0 <= j < series.len() ==> series[j].0 < t,
        },
    decreases series.len(),
{
    if series.len() > 0 && series[0].0 < t {
        let rest = series.drop_first();
        seek_forward_is_earliest(rest, t);
        match seek_forward(rest, t) {
            Some(found) => {
                let i = choose|i: int|
                    0 <= i < rest.len() && #[trigger] rest[i] == found && found.0 >= t && forall|
                        j: int,
                    | 0 <= j < i ==> rest[j].0 < t;
                assert(series[i + 1] == found);
                assert forall|j: int| 0 <= j < i + 1 implies series[j].0 < t by {
                    if j > 0 {
                        assert(rest[j - 1] == series[j]);
                    }
                }
            },
            None => {
                assert forall|j: int| 0 <= j < series.len() implies series[j].0 < t by {
                    if j > 0 {
                        assert(rest[j - 1] == series[j]);
                    }
                }
            },
        }
    } else if series.len() > 0 {
        assert(series[0] == seek_forward(series, t)->0);
    }
}

/// A reverse seek that finds something finds a stored entry at or before
/// the query, and nothing stored after that entry is at or before the
/// query; a reverse seek that finds nothing means every stored entry is too
/// late.
pub proof fn seek_reverse_is_latest<T>(series: Seq<(u64, T)>, t: u64)
    ensures
        match seek_reverse(series, t) {
            Some(found) => exists|i: int|
                0 <= i < series.len() && #[trigger] series[i] == found && found.0 <= t && forall|
                    j: int,
                | i < j < series.len() ==> series[j].0 > t,
            None => forall|j: int| 0 <= j < series.len() ==> series[j].0 > t,
        },
    decreases series.len(),
{
    if series.len() > 0 && series.last().0 > t {
        let rest = series.drop_last();
        seek_reverse_is_latest(rest, t);
        match seek_reverse(rest, t) {
            Some(found) => {
                let i = choose|i: int|
                    0 <= i < rest.len() && #[trigger] rest[i] == found && found.0 <= t && forall|
                        j: int,
                    | i < j < rest.len() ==> rest[j].0 > t;
                assert(series[i] == found);
                assert forall|j: int| i < j < series.len() implies series[j].0 > t by {
                    if j < rest.len() {
                        assert(rest[j] == series[j]);
                    }
                }
            },
            None => {
                assert forall|j: int| 0 <= j < series.len() implies series[j].0 > t by {
                    if j < rest.len() {
                        assert(rest[j] == series[j]);
                    }
                }
            },
        }
    } else if series.len() > 0 {
        assert(series[series.len() - 1] == seek_reverse(series, t)->0);
    }
}

/// In a time-ordered series a forward seek finds the earliest entry at or
/// after the query and a reverse seek the latest entry at or before it;
/// either finds nothing exactly where there is no such entry.
pub proof fn seek_finds_the_nearest<T>(series: Seq<(u64, T)>, t: u64)
    requires
        time_ordered(series),
    ensures
        match seek(series, t, Direction::Forward) {
            Some(found) => series.contains(found) && found.0 >= t && forall|j: int|
                0 <= j < series.len() && (#[trigger] series[j]).0 >= t ==> found.0 <= series[j].0,
            None => forall|j: int| 0 <= j < series.len() ==> (#[trigger] series[j]).0 < t,
        },
        match seek(series, t, Direction::Reverse) {
            Some(found) => series.contains(found) && found.0 <= t && forall|j: int|
                0 <= j < series.len() && (#[trigger] series[j]).0 <= t ==> found.0 >= series[j].0,
            None => forall|j: int| 0 <= j < series.len() ==> (#[trigger] series[j]).0 > t,
        },
{
    seek_forward_is_earliest(series, t);
    seek_reverse_is_latest(series, t);
}

/// Seeking at a stored timestamp finds the entry stored there, whichever
/// the direction.
pub proof fn seek_exact_match<T>(series: Seq<(u64, T)>, i: int)
    requires
        time_ordered(series),
        0 <= i < series.len(),
    ensures
        seek(series, series[i].0, Direction::Forward) == Some(series[i]),
        seek(series, series[i].0, Direction::Reverse) == Some(series[i]),
{
    lemma_seek_forward_at(series, series[i].0, i);
    lemma_seek_reverse_at(series, series[i].0, i + 1);
}

/// What it takes to derive a model for one point in time: the sample at
/// the target timestamp and, where there is one, the sample before it.
#[derive(Debug)]
pub struct SamplePackage<SampleType> {
    /// The sample before the one at the target timestamp.
    pub older_sample: Option<SampleType>,
    /// The sample at the target timestamp.
    pub newer_sample: SampleType,
    /// The target timestamp.
    pub timestamp: u64,
    /// The time between the two samples; zero without an older sample.
    pub duration: u64,
}

impl<SampleType: Copy> Clone for SamplePackage<SampleType> {
    fn clone(&self) -> (r: Self)
        ensures
            r == *self,
    {
        *self
    }
}

impl<SampleType: Copy> Copy for SamplePackage<SampleType> {

}

/// The model of a package of samples: that of the newer sample at the
/// target timestamp, with rates since the older sample where there is one.
pub open spec fn package_model(package: SamplePackage<DataFrame>) -> ModelView {
    model_spec(
        package.timestamp,
        package.newer_sample.sample@,
        match package.older_sample {
            Some(older_sample) => Some(
                (older_sample.sample@, Elapsed { secs: package.duration, nanos: 0 }),
            ),
            None => None::<(SampleView, Elapsed)>,
        },
    )
}

impl SamplePackage<DataFrame> {
    /// Derives the model of the package. Without an older sample the model
    /// is that of the newer sample alone.
    pub fn to_model(&self) -> (r: Model)
        ensures
            r@ == package_model(*self),
    {
        if let Some(older_sample) = self.older_sample.as_ref() {
            Model::new(
                self.timestamp,
                &self.newer_sample.sample,
                Some((&older_sample.sample, Elapsed::from_secs(self.duration))),
            )
        } else {
            Model::new(self.timestamp, &self.newer_sample.sample, None)
        }
    }
}

/// The query that finds the predecessor of the entry stored at `target`:
/// one time unit earlier, unless time cannot go back any further.
pub open spec fn predecessor_query(target: u64) -> Option<u64> {
    if target == 0 {
        None
    } else {
        Some((target - 1) as u64)
    }
}

/// The entry that immediately precedes the one stored at `target`.
pub open spec fn predecessor<T>(series: Seq<(u64, T)>, target: u64) -> Option<(u64, T)> {
    match predecessor_query(target) {
        Some(t) => seek_reverse(series, t),
        None => None,
    }
}

/// The package made of a target entry and the entry found before it.
pub open spec fn package_of<T>(target: (u64, T), older: Option<(u64, T)>) -> SamplePackage<T> {
    match older {
        Some((older_ts, older_sample)) => SamplePackage {
            older_sample: Some(older_sample),
            newer_sample: target.1,
            timestamp: target.0,
            duration: (target.0 - older_ts) as u64,
        },
        None => SamplePackage {
            older_sample: None,
            newer_sample: target.1,
            timestamp: target.0,
            duration: 0,
        },
    }
}

/// The package for a query: the entry that the seek finds, paired with its
/// predecessor in the series.
pub open spec fn adjacent_package<T>(
    series: Seq<(u64, T)>,
    t: u64,
    direction: Direction,
) -> Option<SamplePackage<T>> {
    match seek(series, t, direction) {
        Some(target) => Some(package_of(target, predecessor(series, target.0))),
        None => None,
    }
}

/// Where to look for the predecessor of the entry stored at `target`.
pub fn predecessor_timestamp(target: u64) -> (r: Option<u64>)
    ensures
        r == predecessor_query(target),
{
    if target == 0 {
        None
    } else {
        Some(target - 1)
    }
}

/// Builds the package from the target entry and from what the seek for its
/// predecessor returned.
pub fn assemble_package<T>(target: (u64, T), older: Option<(u64, T)>) -> (r: SamplePackage<T>)
    requires
        older matches Some(o) ==> o.0 <= target.0,
    ensures
        r == package_of(target, older),
{
    let (target_ts, target_sample) = target;
    match older {
        Some((older_ts, older_sample)) => SamplePackage {
            older_sample: Some(older_sample),
            newer_sample: target_sample,
            timestamp: target_ts,
            duration: target_ts - older_ts,
        },
        None => SamplePackage {
            older_sample: None,
            newer_sample: target_sample,
            timestamp: target_ts,
            duration: 0,
        },
    }
}

/// What a failed or empty answer of a store amounts to: no sample.
pub fn sample_or_none<T>(answer: Result<Option<(u64, T)>, StoreError>) -> (r: Option<(u64, T)>)
    ensures
        r == match answer {
            Ok(found) => found,
            Err(_) => None,
        },
{
    match answer {
        Ok(found) => found,
        Err(_) => None,
    }
}

/// A persisted, time-ordered series of samples that answers nearest-sample
/// queries in either direction.
pub trait Store {
    /// What the store keeps for each point in time.
    type SampleType;

    /// What a package of this store's samples is turned into.
    type ModelType;

    /// The stored entries, each a timestamp with its sample, in the order
    /// in which they were written.
    spec fn series(&self) -> Seq<(u64, Self::SampleType)>;

    /// What a store needs in order to answer.
    spec fn inv(&self) -> bool;

    /// The entries of a store are in time order.
    proof fn series_is_time_ordered(&self)
        requires
            self.inv(),
        ensures
            time_ordered(self.series()),
    ;

    /// Whether every query on this store is answered.
    spec fn reliable(&self) -> bool;

    /// The sample at `timestamp` or, where none is stored there, the first
    /// one after it when seeking forward and the last one before it when
    /// seeking in reverse. No sample is found forward of the last entry or
    /// in reverse of the first.
    fn get_sample_at_timestamp(&mut self, timestamp: u64, direction: Direction) -> (r: Result<
        Option<(u64, Self::SampleType)>,
        StoreError,
    >)
        requires
            old(self).inv(),
        ensures
            final(self).inv(),
            final(self).series() == old(self).series(),
            final(self).reliable() == old(self).reliable(),
            old(self).reliable() ==> r is Ok,
            r matches Ok(found) ==> found == seek(old(self).series(), timestamp, direction),
    ;

    /// The model that this store derives from a package of its samples.
    spec fn model_of(&self, sample_package: SamplePackage<Self::SampleType>) -> Option<
        Self::ModelType,
    >;

    /// Derives this store's model from a package of its samples.
    fn to_model(&self, sample_package: &SamplePackage<Self::SampleType>) -> (r: Option<
        Self::ModelType,
    >)
        ensures
            r == self.model_of(*sample_package),
    ;

    /// Queries the store and treats a failure as a sample that is not there.
    fn extract_sample(&mut self, timestamp: u64, direction: Direction) -> (r: Option<
        (u64, Self::SampleType),
    >)
        requires
            old(self).inv(),
        ensures
            final(self).inv(),
            final(self).series() == old(self).series(),
            final(self).reliable() == old(self).reliable(),
            old(self).reliable() ==> r == seek(old(self).series(), timestamp, direction),
            r is Some ==> r == seek(old(self).series(), timestamp, direction),
    {
        sample_or_none(self.get_sample_at_timestamp(timestamp, direction))
    }

    /// The sample that a seek finds together with the sample stored
    /// immediately before it. Nothing is returned where the seek finds
    /// nothing; a target without a predecessor comes back alone.
    fn get_adjacent_sample_at_timestamp(&mut self, timestamp: u64, direction: Direction) -> (r:
        Option<SamplePackage<Self::SampleType>>)
        requires
            old(self).inv(),
        ensures
            final(self).inv(),
            final(self).series() == old(self).series(),
            final(self).reliable() == old(self).reliable(),
            old(self).reliable() ==> r == adjacent_package(
                old(self).series(),
                timestamp,
                direction,
            ),
            r matches Some(package) ==> seek(old(self).series(), timestamp, direction) matches Some(
                target,
            ) && (package == package_of(target, predecessor(old(self).series(), target.0))
                || package == package_of(target, None)),
    {
        let target = match self.extract_sample(timestamp, direction) {
            Some(target) => target,
            None => {
                return None;
            },
        };
        let older = match predecessor_timestamp(target.0) {
            Some(before) => {
                let older = self.extract_sample(before, Direction::Reverse);
                proof {
                    seek_reverse_is_latest(self.series(), before);
                }
                older
            },
            None => None,
        };
        Some(assemble_package(target, older))
    }
}

/// A series held in memory, written in time order.
pub struct MemoryStore<T> {
    entries: Vec<(u64, T)>,
    raise_error: bool,
}

impl<T: Copy> MemoryStore<T> {
    /// An empty store.
    pub fn new() -> (r: Self)
        ensures
            r.inv(),
            r.reliable(),
            r.series() == Seq::<(u64, T)>::empty(),
    {
        MemoryStore { entries: Vec::new(), raise_error: false }
    }

    /// Writes a sample taken at `timestamp`. Entries are immutable once
    /// written and time only moves on: a sample that is not later than the
    /// last one written is refused, and the store stays as it was.
    pub fn append(&mut self, timestamp: u64, sample: T) -> (accepted: bool)
        requires
            old(self).inv(),
        ensures
            final(self).inv(),
            final(self).reliable() == old(self).reliable(),
            accepted <==> (old(self).series().len() == 0 || old(self).series().last().0
                < timestamp),
            accepted ==> final(self).series() == old(self).series().push((timestamp, sample)),
            !accepted ==> final(self).series() == old(self).series(),
    {
        let n = self.entries.len();
        if n > 0 && self.entries[n - 1].0 >= timestamp {
            return false;
        }
        self.entries.push((timestamp, sample));
        true
    }

    /// The number of entries written so far.
    pub fn len(&self) -> (n: usize)
        ensures
            n == self.series().len(),
    {
        self.entries.len()
    }

    /// Makes every later query fail.
    pub fn raise_error(&mut self)
        ensures
            final(self).series() == old(self).series(),
            final(self).inv() == old(self).inv(),
            !final(self).reliable(),
    {
        self.raise_error = true;
    }

    /// The index of the first entry at or after `timestamp`, which is the
    /// number of entries when there is none.
    fn lower_bound(&self, timestamp: u64) -> (i: usize)
        requires
            self.inv(),
        ensures
            i <= self.entries@.len(),
            forall|j: int| 0 <= j < i ==> self.entries@[j].0 < timestamp,
            forall|j: int| i <= j < self.entries@.len() ==> self.entries@[j].0 >= timestamp,
    {
        let mut low: usize = 0;
        let mut high: usize = self.entries.len();
        while low < high
            invariant
                low <= high <= self.entries@.len(),
                time_ordered(self.entries@),
                forall|j: int| 0 <= j < low ==> self.entries@[j].0 < timestamp,
                forall|j: int| high <= j < self.entries@.len() ==> self.entries@[j].0 >= timestamp,
            decreases high - low,
        {
            let middle = low + (high - low) / 2;
            if self.entries[middle].0 < timestamp {
                low = middle + 1;
            } else {
                high = middle;
            }
        }
        low
    }
}

impl<T: Copy> Store for MemoryStore<T> {
    type SampleType = T;

    type ModelType = SamplePackage<T>;

    closed spec fn series(&self) -> Seq<(u64, T)> {
        self.entries@
    }

    closed spec fn inv(&self) -> bool {
        time_ordered(self.entries@)
    }

    proof fn series_is_time_ordered(&self) {
    }

    closed spec fn reliable(&self) -> bool {
        !self.raise_error
    }

    fn get_sample_at_timestamp(&mut self, timestamp: u64, direction: Direction) -> (r: Result<
        Option<(u64, T)>,
        StoreError,
    >)
        ensures
            r is Err <==> !old(self).reliable(),
    {
        if self.raise_error {
            return Err(StoreError { message: String::from_str("error") });
        }
        let n = self.entries.len();
        let at = self.lower_bound(timestamp);
        proof {
            lemma_seek_forward_at(self.entries@, timestamp, at as int);
        }
        match direction {
            Direction::Forward => {
                if at < n {
                    Ok(Some(self.entries[at]))
                } else {
                    Ok(None)
                }
            },
            Direction::Reverse => {
                if at < n && self.entries[at].0 == timestamp {
                    proof {
                        lemma_seek_reverse_at(self.entries@, timestamp, at + 1);
                    }
                    Ok(Some(self.entries[at]))
                } else {
                    proof {
                        lemma_seek_reverse_at(self.entries@, timestamp, at as int);
                    }
                    if at > 0 {
                        Ok(Some(self.entries[at - 1]))
                    } else {
                        Ok(None)
                    }
                }
            },
        }
    }

    open spec fn model_of(&self, sample_package: SamplePackage<T>) -> Option<SamplePackage<T>> {
        Some(sample_package)
    }

    fn to_model(&self, sample_package: &SamplePackage<T>) -> (r: Option<SamplePackage<T>>) {
        Some(*sample_package)
    }
}

/// Where a cursor stands after looking for the first sample at or after
/// `start`: on that sample, or still empty at `start` when there is none.
pub open spec fn initial_position<T>(series: Seq<(u64, T)>, start: u64) -> (Option<T>, u64) {
    match seek(series, start, Direction::Forward) {
        Some((timestamp, sample)) => (Some(sample), timestamp),
        None => (None, start),
    }
}

/// A start before the first stored sample puts the cursor on that first
/// sample; a start after the last one leaves the cursor empty where it was.
pub proof fn initial_position_at_the_ends<T>(series: Seq<(u64, T)>, start: u64)
    requires
        time_ordered(series),
        series.len() > 0,
    ensures
        start <= series[0].0 ==> initial_position(series, start) == (
            Some(series[0].1),
            series[0].0,
        ),
        start > series.last().0 ==> initial_position(series, start) == (None::<T>, start),
{
    if start <= series[0].0 {
        lemma_seek_forward_at(series, start, 0);
    }
    if start > series.last().0 {
        lemma_seek_forward_at(series, start, series.len() as int);
    }
}

/// A position in a timeline of samples: the sample that was reached last,
/// its timestamp, and the direction of the step that reached it.
pub struct Cursor<SampleType> {
    // The sample at the current position, once there is one.
    cached_sample: Option<SampleType>,
    // The timestamp of the cached sample or, before the first sample was
    // found, the timestamp to start looking from.
    target_timestamp: u64,
    current_direction: Direction,
}

impl<SampleType> Cursor<SampleType> {
    /// The sample at the current position.
    pub closed spec fn cached(&self) -> Option<SampleType> {
        self.cached_sample
    }

    /// The timestamp of the current position.
    pub closed spec fn target(&self) -> u64 {
        self.target_timestamp
    }

    /// The direction of the last step.
    pub closed spec fn direction(&self) -> Direction {
        self.current_direction
    }

    /// Where the cursor stands: the cached sample and its timestamp.
    pub open spec fn position(&self) -> (Option<SampleType>, u64) {
        (self.cached(), self.target())
    }

    /// An empty cursor that will start looking at `target_timestamp`.
    pub fn new(target_timestamp: u64) -> (r: Self)
        ensures
            r.position() == (None::<SampleType>, target_timestamp),
            r.direction() == Direction::Forward,
    {
        Cursor { cached_sample: None, target_timestamp, current_direction: Direction::Forward }
    }

    /// The sample at the current position, if the cursor has found one.
    pub fn cached_sample(&self) -> (r: &Option<SampleType>)
        ensures
            *r == self.cached(),
    {
        &self.cached_sample
    }

    /// The timestamp of the current position.
    pub fn target_timestamp(&self) -> (r: u64)
        ensures
            r == self.target(),
    {
        self.target_timestamp
    }

    /// The direction of the last step.
    pub fn current_direction(&self) -> (r: Direction)
        ensures
            r == self.direction(),
    {
        self.current_direction
    }

    /// Puts an empty cursor on the sample that a forward seek from its
    /// starting timestamp found. Where the seek found nothing the cursor
    /// stays empty where it was. The cursor must not hold a sample yet.
    pub fn initialize(&mut self, found: Option<(u64, SampleType)>)
        requires
            old(self).cached() is None,
        ensures
            final(self).direction() == old(self).direction(),
            final(self).position() == match found {
                Some((timestamp, sample)) => (Some(sample), timestamp),
                None => old(self).position(),
            },
    {
        if let Some((timestamp, sample)) = found {
            self.cached_sample = Some(sample);
            self.target_timestamp = timestamp;
        }
    }

    /// Completes a step in `direction` that found `package` and derived
    /// `model` from it. A step that yields a model moves the cursor onto
    /// the newer sample of the package; a step without a model leaves the
    /// cursor as it was. The model is handed on.
    pub fn advance<ModelType>(
        &mut self,
        direction: Direction,
        package: SamplePackage<SampleType>,
        model: Option<ModelType>,
    ) -> (r: Option<ModelType>)
        ensures
            r == model,
            model is Some ==> final(self).position() == (
                Some(package.newer_sample),
                package.timestamp,
            ) && final(self).direction() == direction,
            model is None ==> final(self).position() == old(self).position(),
            model is None ==> final(self).direction() == old(self).direction(),
    {
        if model.is_some() {
            self.cached_sample = Some(package.newer_sample);
            self.target_timestamp = package.timestamp;
            self.current_direction = direction;
        }
        model
    }
}

/// A cursor over a store: the current position in the timeline, from which
/// each step yields the model of the sample it lands on.
pub struct Advance<S: Store> {
    store: S,
    cursor: Cursor<S::SampleType>,
}

impl<S: Store> Advance<S> {
    /// The store that the cursor moves over.
    pub closed spec fn store(&self) -> S {
        self.store
    }

    /// The sample at the current position.
    pub closed spec fn cached(&self) -> Option<S::SampleType> {
        self.cursor.cached()
    }

    /// The timestamp of the current position.
    pub closed spec fn target(&self) -> u64 {
        self.cursor.target()
    }

    /// The direction of the last step.
    pub closed spec fn direction(&self) -> Direction {
        self.cursor.direction()
    }

    /// Where the cursor stands: the cached sample and its timestamp.
    pub open spec fn position(&self) -> (Option<S::SampleType>, u64) {
        (self.cached(), self.target())
    }

    /// An empty cursor over `store` that will start looking at
    /// `target_timestamp`.
    pub fn new(store: S, target_timestamp: u64) -> (r: Self)
        ensures
            r.store() == store,
            r.position() == (None::<S::SampleType>, target_timestamp),
            r.direction() == Direction::Forward,
    {
        Advance { store, cursor: Cursor::new(target_timestamp) }
    }

    /// The sample at the current position, if the cursor has found one.
    pub fn cached_sample(&self) -> (r: &Option<S::SampleType>)
        ensures
            *r == self.cached(),
    {
        self.cursor.cached_sample()
    }

    /// The timestamp of the current position.
    pub fn target_timestamp(&self) -> (r: u64)
        ensures
            r == self.target(),
    {
        self.cursor.target_timestamp()
    }

    /// The direction of the last step.
    pub fn current_direction(&self) -> (r: Direction)
        ensures
            r == self.direction(),
    {
        self.cursor.current_direction()
    }

    /// Moves an empty cursor to the first sample at or after its starting
    /// timestamp. A cursor that finds no sample stays empty where it was.
    /// The cursor must not hold a sample yet.
    pub fn initialize(&mut self)
        requires
            old(self).store().inv(),
            old(self).cached() is None,
        ensures
            final(self).store().inv(),
            final(self).store().series() == old(self).store().series(),
            final(self).store().reliable() == old(self).store().reliable(),
            final(self).direction() == old(self).direction(),
            old(self).store().reliable() ==> final(self).position() == initial_position(
                old(self).store().series(),
                old(self).target(),
            ),
            final(self).position() == initial_position(
                old(self).store().series(),
                old(self).target(),
            ) || final(self).position() == old(self).position(),
    {
        let found = self.store.extract_sample(self.cursor.target_timestamp(), Direction::Forward);
        self.cursor.initialize(found);
    }

    /// Steps in `direction`: seeks the sample nearest to the current
    /// timestamp, pairs it with its predecessor, and returns the model of
    /// the pair while the cursor moves onto the sample. Where there is no
    /// sample that way, or no model comes of it, nothing is returned and
    /// the cursor stays as it was.
    pub fn advance(&mut self, direction: Direction) -> (r: Option<S::ModelType>)
        requires
            old(self).store().inv(),
        ensures
            final(self).store().inv(),
            final(self).store().series() == old(self).store().series(),
            final(self).store().reliable() == old(self).store().reliable(),
            r is None ==> final(self).position() == old(self).position(),
            r is None ==> final(self).direction() == old(self).direction(),
            r is Some ==> exists|package: SamplePackage<S::SampleType>|
                step_taken(*old(self), direction, package, r, *final(self)),
            old(self).store().reliable() ==> r == match adjacent_package(
                old(self).store().series(),
                old(self).target(),
                direction,
            ) {
                Some(package) => final(self).store().model_of(package),
                None => None,
            },
    {
        let package = match self.store.get_adjacent_sample_at_timestamp(
            self.cursor.target_timestamp(),
            direction,
        ) {
            Some(package) => package,
            None => {
                return None;
            },
        };
        let model = self.store.to_model(&package);
        let ghost found = package;
        let model = self.cursor.advance(direction, package, model);
        assert(model is Some ==> step_taken(*old(self), direction, found, model, *self));
        model
    }
}

/// What a successful step from `before` to `after` over `package` means:
/// the package pairs the sample that the seek found with its predecessor,
/// or holds that sample alone; the model is the store's model of the
/// package; and the cursor stands on the sample with its direction set.
pub open spec fn step_taken<S: Store>(
    before: Advance<S>,
    direction: Direction,
    package: SamplePackage<S::SampleType>,
    model: Option<S::ModelType>,
    after: Advance<S>,
) -> bool {
    let series = before.store().series();
    &&& seek(series, before.target(), direction) matches Some(target)
    &&& (package == package_of(target, predecessor(series, target.0)) || package == package_of(
        target,
        None,
    ))
    &&& model is Some
    &&& model == after.store().model_of(package)
    &&& after.position() == (Some(package.newer_sample), package.timestamp)
    &&& after.direction() == direction
}

} // verus!
