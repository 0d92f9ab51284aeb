//! Decisions of a batch download: which item to start next, what became of
//! each, and what the run reports. The caller performs the actions (starting
//! processes, waiting for them and for termination signals) and hands the
//! events back.
use vstd::prelude::*;

use crate::args_builder::{build_ytdlp_args, ytdlp_args, YtDlpArgs};
use crate::classify::{classify, classify_reason};
use crate::config::RATE_LIMIT_THRESHOLD;
use crate::error::YtrsError;
use crate::text::views;
use crate::url_validator::{
    partition_urls, rejected, sanitized, trim_text, trimmed, valid_url, validate_url,
};

verus! {

/// Whether a batch of `count` items is throttled.
pub open spec fn throttled(count: nat) -> bool {
    count > RATE_LIMIT_THRESHOLD
}

/// Whether a batch of `count` items is throttled.
pub fn needs_rate_limit(count: usize) -> (r: bool)
    ensures
        r == throttled(count as nat),
{
    count > RATE_LIMIT_THRESHOLD
}

/// What became of one item.
#[derive(Debug)]
pub enum Outcome {
    /// The download succeeded.
    Success,
    /// The download failed, for this reason.
    Failure(String),
}

impl Outcome {
    /// The failure reason, `None` on success.
    pub open spec fn reason(&self) -> Option<Seq<char>> {
        match self {
            Outcome::Success => None,
            Outcome::Failure(reason) => Some(reason@),
        }
    }
}

/// How the process of one item ended.
pub enum ProcessEnd {
    /// The process ran and ended, with this exit code if it exited by itself.
    Exited {
        /// Exit code, `None` where a signal ended the process
        code: Option<i32>,
        /// Everything the process wrote to its error stream
        stderr: String,
    },
    /// The process could not be started, for this reason.
    SpawnFailed(String),
}

/// The failure reason for a process that ended so, `None` on success.
pub open spec fn end_reason(end: ProcessEnd) -> Option<Seq<char>> {
    match end {
        ProcessEnd::Exited { code, stderr } => if code == Some(0i32) {
            None
        } else {
            Some(classify_reason(stderr@, code))
        },
        ProcessEnd::SpawnFailed(reason) => Some(reason@),
    }
}

/// The outcome of an item whose process ended so.
pub fn task_outcome(end: ProcessEnd) -> (r: Outcome)
    ensures
        r.reason() == end_reason(end),
{
    match end {
        ProcessEnd::Exited { code, stderr } => {
            if code == Some(0i32) {
                Outcome::Success
            } else {
                Outcome::Failure(classify(stderr.as_str(), code))
            }
        },
        ProcessEnd::SpawnFailed(reason) => Outcome::Failure(reason),
    }
}

/// The result of downloading a single URL, given the exit code of yt-dlp
/// (`None` where a signal ended it).
pub fn single_result(code: Option<i32>) -> (r: Result<(), YtrsError>)
    ensures
        code == Some(0i32) ==> r is Ok,
        code != Some(0i32) ==> (r matches Err(YtrsError::YtDlpFailed(c)) && c == code),
{
    if code == Some(0i32) {
        Ok(())
    } else {
        Err(YtrsError::YtDlpFailed(code))
    }
}

/// How a run goes, given the URLs it was handed.
#[derive(Debug)]
pub enum RunPlan {
    /// Download this one URL on its own.
    Single(String),
    /// Download these URLs as a batch; `skipped` are the entries dropped as invalid.
    Batch { urls: Vec<String>, skipped: Vec<String> },
}

/// Decides how a run goes: a single URL is trimmed and must be valid; any
/// other number of URLs is sanitised into a batch.
pub fn plan_run(urls: &Vec<String>) -> (r: Result<RunPlan, YtrsError>)
    ensures
        urls@.len() == 1 && valid_url(trimmed(urls@[0]@)) ==> (r matches Ok(RunPlan::Single(u))
            && u@ == trimmed(urls@[0]@)),
        urls@.len() == 1 && !valid_url(trimmed(urls@[0]@)) ==> (r matches Err(
            YtrsError::NoValidUrls,
        )),
        urls@.len() != 1 ==> (r matches Ok(RunPlan::Batch { urls: kept, skipped }) && views(
            kept@,
        ) == sanitized(views(urls@)) && views(skipped@) == rejected(views(urls@))),
{
    if urls.len() == 1 {
        let url = trim_text(urls[0].as_str());
        if !validate_url(url.as_str()) {
            return Err(YtrsError::NoValidUrls);
        }
        Ok(RunPlan::Single(url))
    } else {
        let (kept, skipped) = partition_urls(urls);
        Ok(RunPlan::Batch { urls: kept, skipped })
    }
}

/// The recorded outcome of one item of a batch.
#[derive(Debug)]
pub struct OutcomeRecord {
    /// Position of the item in the batch
    pub index: usize,
    /// The item
    pub item: String,
    /// What became of it
    pub outcome: Outcome,
}

/// Something that happened while a batch runs.
pub enum Event {
    /// Nothing new: only asks for the next action
    Poll,
    /// The task of the item at `index` has ended
    Finished { index: usize, outcome: Outcome },
    /// A termination signal arrived
    Signal,
}

/// What the caller is to do next.
#[derive(Debug)]
pub enum Action {
    /// Start the item at `index`, running yt-dlp with `args`
    Dispatch { index: usize, item: String, args: Vec<String> },
    /// Wait for a task to end or a signal to arrive
    Wait,
    /// Every started task has ended: report
    Finish,
}

/// The recorded outcome of an item, as plain values.
pub struct RecordModel {
    pub index: nat,
    pub item: Seq<char>,
    pub reason: Option<Seq<char>>,
}

/// An event, as plain values.
pub enum EventModel {
    Poll,
    Finished { index: nat, reason: Option<Seq<char>> },
    Signal,
}

/// An action, as plain values.
pub enum ActionModel {
    Dispatch { index: nat, item: Seq<char>, args: Seq<Seq<char>> },
    Wait,
    Finish,
}

impl OutcomeRecord {
    pub open spec fn view(&self) -> RecordModel {
        RecordModel { index: self.index as nat, item: self.item@, reason: self.outcome.reason() }
    }
}

impl Event {
    pub open spec fn view(&self) -> EventModel {
        match self {
            Event::Poll => EventModel::Poll,
            Event::Finished { index, outcome } => EventModel::Finished {
                index: *index as nat,
                reason: outcome.reason(),
            },
            Event::Signal => EventModel::Signal,
        }
    }
}

impl Action {
    pub open spec fn view(&self) -> ActionModel {
        match self {
            Action::Dispatch { index, item, args } => ActionModel::Dispatch {
                index: *index as nat,
                item: item@,
                args: views(args@),
            },
            Action::Wait => ActionModel::Wait,
            Action::Finish => ActionModel::Finish,
        }
    }
}

/// The state of a batch, as plain values.
pub struct BatchModel {
    /// The items, in the order they are started
    pub items: Seq<Seq<char>>,
    /// Options shared by every invocation
    pub options: YtDlpArgs,
    /// Most tasks that may run at once
    pub parallelism: nat,
    /// Items `0 .. admitted` have been started
    pub admitted: nat,
    /// Positions of the items whose tasks are running
    pub in_flight: Seq<nat>,
    /// A termination signal has arrived
    pub cancelled: bool,
    /// Outcomes of the ended tasks, in the order they ended
    pub records: Seq<RecordModel>,
}

impl BatchModel {
    /// Some record is about the item at `i`.
    pub open spec fn has_record(self, i: nat) -> bool {
        exists|k: int| 0 <= k < self.records.len() && #[trigger] self.records[k].index == i
    }

    /// The invariant of a batch.
    pub open spec fn inv(self) -> bool {
        &&& self.parallelism >= 1
        &&& self.admitted <= self.items.len()
        &&& self.in_flight.len() <= self.parallelism
        &&& self.in_flight.no_duplicates()
        &&& forall|k: int| 0 <= k < self.in_flight.len() ==> #[trigger] self.in_flight[k] < self.admitted
        &&& forall|k: int|
            0 <= k < self.records.len() ==> {
                let rec = #[trigger] self.records[k];
                &&& rec.index < self.admitted
                &&& !self.in_flight.contains(rec.index)
                &&& rec.item == self.items[rec.index as int]
            }
        &&& forall|j: int, k: int|
            0 <= j < k < self.records.len() ==> #[trigger] self.records[j].index
                != #[trigger] self.records[k].index
        &&& forall|i: nat| i < self.admitted ==> self.in_flight.contains(i) || #[trigger] self.has_record(i)
        &&& self.in_flight.len() + self.records.len() == self.admitted
        &&& self.options.rate_limit == throttled(self.items.len())
    }

    /// The state after `event`. An end of a task that is not running is ignored.
    pub open spec fn apply(self, event: EventModel) -> BatchModel {
        match event {
            EventModel::Poll => self,
            EventModel::Signal => BatchModel { cancelled: true, ..self },
            EventModel::Finished { index, reason } => if self.in_flight.contains(index) {
                BatchModel {
                    in_flight: self.in_flight.remove(self.in_flight.index_of(index)),
                    records: self.records.push(
                        RecordModel { index, item: self.items[index as int], reason },
                    ),
                    ..self
                }
            } else {
                self
            },
        }
    }

    /// Whether the next item may be started now.
    pub open spec fn can_admit(self) -> bool {
        !self.cancelled && self.admitted < self.items.len() && self.in_flight.len()
            < self.parallelism
    }

    /// The next action, and the state once it is taken.
    pub open spec fn decide(self) -> (BatchModel, ActionModel) {
        if self.can_admit() {
            let index = self.admitted;
            (
                BatchModel {
                    admitted: self.admitted + 1,
                    in_flight: self.in_flight.push(index),
                    ..self
                },
                ActionModel::Dispatch {
                    index,
                    item: self.items[index as int],
                    args: ytdlp_args(self.items[index as int], self.options),
                },
            )
        } else if self.in_flight.len() > 0 {
            (self, ActionModel::Wait)
        } else {
            (self, ActionModel::Finish)
        }
    }

    /// One step of a batch: take in `event`, then choose the next action.
    pub open spec fn step(self, event: EventModel) -> (BatchModel, ActionModel) {
        self.apply(event).decide()
    }
}

/// The state of a batch before anything has started.
pub open spec fn initial(items: Seq<Seq<char>>, options: YtDlpArgs, parallelism: nat) -> BatchModel {
    BatchModel {
        items,
        options: YtDlpArgs { rate_limit: throttled(items.len()), ..options },
        parallelism,
        admitted: 0,
        in_flight: seq![],
        cancelled: false,
        records: seq![],
    }
}

/// The first position of `x` in `v`.
fn position_of(v: &Vec<usize>, x: usize) -> (r: Option<usize>)
    ensures
        r matches Some(p) ==> p < v@.len() && v@[p as int] == x,
        r is None ==> forall|k: int| 0 <= k < v@.len() ==> v@[k] != x,
{
    let mut p: usize = 0;
    while p < v.len()
        invariant
            p <= v@.len(),
            forall|k: int| 0 <= k < p ==> v@[k] != x,
        decreases v@.len() - p,
    {
        if v[p] == x {
            return Some(p);
        }
        p = p + 1;
    }
    None
}

/// A batch download in progress.
pub struct Batch {
    items: Vec<String>,
    options: YtDlpArgs,
    parallelism: usize,
    admitted: usize,
    in_flight: Vec<usize>,
    cancelled: bool,
    records: Vec<OutcomeRecord>,
}

impl View for Batch {
    type V = BatchModel;

    closed spec fn view(&self) -> BatchModel {
        BatchModel {
            items: views(self.items@),
            options: self.options,
            parallelism: self.parallelism as nat,
            admitted: self.admitted as nat,
            in_flight: self.in_flight@.map_values(|i: usize| i as nat),
            cancelled: self.cancelled,
            records: self.records@.map_values(|r: OutcomeRecord| r.view()),
        }
    }
}

/// Totals of a finished batch.
#[derive(Debug)]
pub struct RunResult {
    /// Number of items in the batch
    pub total: usize,
    /// The failed items and their reasons, in the order they ended
    pub failures: Vec<(String, String)>,
}

/// The failed items of `records` with their reasons, in order.
pub open spec fn failures_of(records: Seq<RecordModel>) -> Seq<(Seq<char>, Seq<char>)>
    decreases records.len(),
{
    if records.len() == 0 {
        seq![]
    } else {
        let earlier = failures_of(records.drop_last());
        match records.last().reason {
            Some(reason) => earlier.push((records.last().item, reason)),
            None => earlier,
        }
    }
}

/// The exit status of a run: success only if no item failed, else the number
/// of failed items.
pub fn exit_status(result: &RunResult) -> (r: Result<(), YtrsError>)
    ensures
        result.failures@.len() == 0 ==> r is Ok,
        result.failures@.len() > 0 ==> (r matches Err(YtrsError::PartialFailure(n)) && n
            == result.failures@.len()),
{
    if result.failures.len() == 0 {
        Ok(())
    } else {
        Err(YtrsError::PartialFailure(result.failures.len()))
    }
}

impl Batch {
    /// The invariant of a batch.
    pub open spec fn wf(&self) -> bool {
        self@.inv()
    }

    /// Starts a batch over the sanitised `items`, running at most `parallel`
    /// tasks at once. The rate-limit option is set exactly when the batch has
    /// more items than the threshold, whatever `options` said.
    pub fn new(items: Vec<String>, options: YtDlpArgs, parallel: usize) -> (r: Result<
        Batch,
        YtrsError,
    >)
        ensures
            items@.len() == 0 ==> (r matches Err(YtrsError::NoValidUrls)),
            items@.len() > 0 && parallel == 0 ==> (r matches Err(YtrsError::InvalidParallelism)),
            items@.len() > 0 && parallel > 0 ==> (r matches Ok(b) && b.wf() && b@ == initial(
                views(items@),
                options,
                parallel as nat,
            )),
    {
        if items.len() == 0 {
            return Err(YtrsError::NoValidUrls);
        }
        if parallel == 0 {
            return Err(YtrsError::InvalidParallelism);
        }
        let rate_limit = needs_rate_limit(items.len());
        let options = YtDlpArgs { rate_limit, ..options };
        let b = Batch {
            items,
            options,
            parallelism: parallel,
            admitted: 0,
            in_flight: Vec::new(),
            cancelled: false,
            records: Vec::new(),
        };
        proof {
            assert(b@.in_flight =~= seq![]);
            assert(b@.records =~= seq![]);
        }
        Ok(b)
    }

    /// Takes in `event`, then chooses the next action: start the next item if
    /// no signal has arrived and a slot is free, else wait while tasks run,
    /// else finish.
    pub fn step(&mut self, event: Event) -> (action: Action)
        requires
            old(self).wf(),
        ensures
            final(self).wf(),
            (final(self)@, action.view()) == old(self)@.step(event.view()),
    {
        let ghost event_view = event.view();
        match event {
            Event::Poll => {},
            Event::Signal => {
                self.cancelled = true;
            },
            Event::Finished { index, outcome } => {
                self.record(index, outcome);
            },
        }
        assert(self@ == old(self)@.apply(event_view));
        proof {
            lemma_apply_keeps_inv(old(self)@, event_view);
        }
        self.next_action()
    }

    /// Records the end of the task of item `index`, if it is running.
    fn record(&mut self, index: usize, outcome: Outcome)
        requires
            old(self).wf(),
        ensures
            final(self)@ == old(self)@.apply(
                EventModel::Finished { index: index as nat, reason: outcome.reason() },
            ),
    {
        let ghost m = self@;
        let p = match position_of(&self.in_flight, index) {
            Some(p) => p,
            None => {
                assert(!m.in_flight.contains(index as nat)) by {
                    if m.in_flight.contains(index as nat) {
                        let j = choose|j: int|
                            0 <= j < m.in_flight.len() && m.in_flight[j] == index as nat;
                        assert(self.in_flight@[j] == index);
                    }
                }
                return;
            },
        };
        assert(m.in_flight[p as int] == index as nat);
        assert(m.in_flight.contains(index as nat));
        let ghost pos = m.in_flight.index_of(index as nat);
        assert(pos == p) by {
            assert(m.in_flight[pos] == index as nat);
            assert(m.in_flight.no_duplicates());
        }
        let ghost reason = outcome.reason();
        self.in_flight.remove(p);
        let item = self.items[index].clone();
        self.records.push(OutcomeRecord { index, item, outcome });
        assert(self@.in_flight =~= m.in_flight.remove(pos));
        assert(self@.records =~= m.records.push(
            RecordModel { index: index as nat, item: m.items[index as int], reason },
        ));
    }

    /// Chooses the next action, starting the next item if one may start.
    fn next_action(&mut self) -> (action: Action)
        requires
            old(self).wf(),
        ensures
            final(self).wf(),
            (final(self)@, action.view()) == old(self)@.decide(),
    {
        proof {
            lemma_decide_keeps_inv(self@);
        }
        if !self.cancelled && self.admitted < self.items.len() && self.in_flight.len()
            < self.parallelism {
            let index = self.admitted;
            let ghost m = self@;
            let item = self.items[index].clone();
            let args = build_ytdlp_args(item.as_str(), &self.options);
            self.admitted = index + 1;
            self.in_flight.push(index);
            assert(self@.in_flight =~= m.in_flight.push(index as nat));
            assert(self@.items == m.items);
            Action::Dispatch { index, item, args }
        } else if self.in_flight.len() > 0 {
            Action::Wait
        } else {
            Action::Finish
        }
    }

    /// Number of items in the batch.
    pub fn total(&self) -> (r: usize)
        ensures
            r == self@.items.len(),
    {
        self.items.len()
    }

    /// Whether a termination signal has arrived.
    pub fn is_cancelled(&self) -> (r: bool)
        ensures
            r == self@.cancelled,
    {
        self.cancelled
    }

    /// Number of recorded outcomes.
    pub fn recorded(&self) -> (r: usize)
        ensures
            r == self@.records.len(),
    {
        self.records.len()
    }

    /// The totals of the batch: its size and the failed items with their
    /// reasons, in the order they ended.
    pub fn run_result(&self) -> (r: RunResult)
        ensures
            r.total == self@.items.len(),
            r.failures@.map_values(|f: (String, String)| (f.0@, f.1@)) == failures_of(
                self@.records,
            ),
    {
        let mut failures: Vec<(String, String)> = Vec::new();
        let mut i: usize = 0;
        while i < self.records.len()
            invariant
                i <= self.records@.len(),
                failures@.map_values(|f: (String, String)| (f.0@, f.1@)) == failures_of(
                    self@.records.take(i as int),
                ),
            decreases self.records@.len() - i,
        {
            let ghost before = failures@;
            assert(self@.records.take(i + 1).drop_last() =~= self@.records.take(i as int));
            assert(self@.records.take(i + 1).last() == self.records@[i as int].view());
            match &self.records[i].outcome {
                Outcome::Success => {},
                Outcome::Failure(reason) => {
                    let entry = (self.records[i].item.clone(), reason.clone());
                    failures.push(entry);
                    assert(failures@.map_values(|f: (String, String)| (f.0@, f.1@)) =~= before.map_values(
                        |f: (String, String)| (f.0@, f.1@),
                    ).push((self.records@[i as int].item@, reason@)));
                },
            }
            i = i + 1;
        }
        assert(self@.records.take(i as int) =~= self@.records);
        RunResult { total: self.items.len(), failures }
    }
}

/// Taking in an event keeps the invariant.
proof fn lemma_apply_keeps_inv(m: BatchModel, event: EventModel)
    requires
        m.inv(),
    ensures
        m.apply(event).inv(),
{
    if let EventModel::Signal = event {
        let n = m.apply(event);
        assert forall|i: nat| i < n.admitted implies n.in_flight.contains(i) || #[trigger] n.has_record(i) by {
            if !m.in_flight.contains(i) {
                assert(m.has_record(i));
            }
        }
    }
    if let EventModel::Finished { index, reason } = event {
        if m.in_flight.contains(index) {
            let n = m.apply(event);
            let pos = m.in_flight.index_of(index);
            let rec = RecordModel { index, item: m.items[index as int], reason };
            m.in_flight.remove_ensures(pos);
            assert(n.in_flight == m.in_flight.remove(pos));
            assert(n.records == m.records.push(rec));
            assert forall|a: int, b: int|
                0 <= a < n.in_flight.len() && 0 <= b < n.in_flight.len() && a != b implies n.in_flight[a]
                != n.in_flight[b] by {
                let a2 = if a < pos { a } else { a + 1 };
                let b2 = if b < pos { b } else { b + 1 };
                assert(n.in_flight[a] == m.in_flight[a2]);
                assert(n.in_flight[b] == m.in_flight[b2]);
            }
            assert(n.in_flight.no_duplicates());
            assert(n.in_flight.len() + n.records.len() == n.admitted);
            assert(n.in_flight.len() <= n.parallelism);
            assert forall|k: int| 0 <= k < n.records.len() implies #[trigger] n.records[k].index
                < n.admitted && n.records[k].item == n.items[n.records[k].index as int] by {
                if k == m.records.len() {
                    assert(m.in_flight[pos] == index);
                }
            }
            assert forall|k: int| 0 <= k < n.in_flight.len() implies #[trigger] n.in_flight[k]
                < n.admitted by {
                let k2 = if k < pos { k } else { k + 1 };
                assert(n.in_flight[k] == m.in_flight[k2]);
            }
            assert forall|k: int| 0 <= k < n.records.len() implies !n.in_flight.contains(
                #[trigger] n.records[k].index,
            ) by {
                if n.in_flight.contains(n.records[k].index) {
                    let j = choose|j: int|
                        0 <= j < n.in_flight.len() && n.in_flight[j] == n.records[k].index;
                    let j2 = if j < pos { j } else { j + 1 };
                    assert(n.in_flight[j] == m.in_flight[j2]);
                    if k < m.records.len() {
                        assert(n.records[k] == m.records[k]);
                        assert(m.in_flight.contains(m.records[k].index));
                    } else {
                        assert(n.records[k].index == index);
                        assert(m.in_flight[pos] == index);
                    }
                }
            }
            assert forall|j: int, k: int| 0 <= j < k < n.records.len() implies #[trigger] n.records[j].index
                != #[trigger] n.records[k].index by {
                if k == m.records.len() {
                    assert(m.in_flight.contains(index));
                    assert(!m.in_flight.contains(m.records[j].index));
                } else {
                    assert(m.records[j].index != m.records[k].index);
                }
            }
            assert forall|i: nat| i < n.admitted implies n.in_flight.contains(i) || #[trigger] n.has_record(i) by {
                if i == index {
                    assert(n.records[m.records.len() as int].index == i);
                } else if m.in_flight.contains(i) {
                    let j = choose|j: int| 0 <= j < m.in_flight.len() && m.in_flight[j] == i;
                    assert(j != pos);
                    let j2 = if j < pos { j } else { j - 1 };
                    assert(n.in_flight[j2] == i);
                } else {
                    assert(m.has_record(i));
                    let k = choose|k: int| 0 <= k < m.records.len() && m.records[k].index == i;
                    assert(n.records[k].index == i);
                }
            }
        }
    }
}

/// Choosing the next action keeps the invariant.
proof fn lemma_decide_keeps_inv(m: BatchModel)
    requires
        m.inv(),
    ensures
        m.decide().0.inv(),
{
    if m.can_admit() {
        let n = m.decide().0;
        let index = m.admitted;
        assert(!m.in_flight.contains(index));
        assert forall|a: int, b: int| 0 <= a < b < n.in_flight.len() implies n.in_flight[a]
            != n.in_flight[b] by {
            if b == m.in_flight.len() {
                assert(m.in_flight[a] < m.admitted);
            }
        }
        assert forall|k: int| 0 <= k < n.records.len() implies !n.in_flight.contains(
            #[trigger] n.records[k].index,
        ) by {
            if n.in_flight.contains(n.records[k].index) {
                let j = choose|j: int|
                    0 <= j < n.in_flight.len() && n.in_flight[j] == n.records[k].index;
                if j < m.in_flight.len() {
                    assert(m.in_flight.contains(m.records[k].index));
                }
            }
        }
        assert forall|i: nat| i < n.admitted implies n.in_flight.contains(i) || #[trigger] n.has_record(i) by {
            if i == index {
                assert(n.in_flight[m.in_flight.len() as int] == i);
            } else if m.in_flight.contains(i) {
                let j = choose|j: int| 0 <= j < m.in_flight.len() && m.in_flight[j] == i;
                assert(n.in_flight[j] == i);
            } else {
                assert(m.has_record(i));
            }
        }
    }
}

/// The state after taking in each of `events` in turn.
pub open spec fn run(m: BatchModel, events: Seq<EventModel>) -> BatchModel
    decreases events.len(),
{
    if events.len() == 0 {
        m
    } else {
        run(m.step(events[0]).0, events.drop_first())
    }
}

/// A batch that has not started satisfies the invariant.
pub proof fn lemma_initial_inv(items: Seq<Seq<char>>, options: YtDlpArgs, parallelism: nat)
    requires
        parallelism >= 1,
    ensures
        initial(items, options, parallelism).inv(),
{
}

/// One step keeps the invariant, the items, the options and the parallelism.
pub proof fn lemma_step_inv(m: BatchModel, event: EventModel)
    requires
        m.inv(),
    ensures
        m.step(event).0.inv(),
        m.step(event).0.items == m.items,
        m.step(event).0.options == m.options,
        m.step(event).0.parallelism == m.parallelism,
{
    lemma_apply_keeps_inv(m, event);
    lemma_decide_keeps_inv(m.apply(event));
}

/// Any sequence of events keeps the invariant, the items, the options and
/// the parallelism.
pub proof fn lemma_run_inv(m: BatchModel, events: Seq<EventModel>)
    requires
        m.inv(),
    ensures
        run(m, events).inv(),
        run(m, events).items == m.items,
        run(m, events).options == m.options,
        run(m, events).parallelism == m.parallelism,
    decreases events.len(),
{
    if events.len() > 0 {
        lemma_step_inv(m, events[0]);
        lemma_run_inv(m.step(events[0]).0, events.drop_first());
    }
}

/// However the events of a run fall, no more than `parallelism` tasks run at
/// once.
pub proof fn law_parallelism_bounded(
    items: Seq<Seq<char>>,
    options: YtDlpArgs,
    parallelism: nat,
    events: Seq<EventModel>,
)
    requires
        parallelism >= 1,
    ensures
        run(initial(items, options, parallelism), events).in_flight.len() <= parallelism,
{
    lemma_run_inv(initial(items, options, parallelism), events);
}

/// When a batch finishes, every item that was started has exactly one
/// recorded outcome; without a termination signal, every item was started,
/// so there are as many records as items.
pub proof fn law_finished_batch_recorded(m: BatchModel)
    requires
        m.inv(),
        m.decide().1 is Finish,
    ensures
        m.records.len() == m.admitted,
        forall|i: nat| i < m.admitted ==> #[trigger] m.has_record(i),
        forall|j: int, k: int|
            0 <= j < k < m.records.len() ==> #[trigger] m.records[j].index
                != #[trigger] m.records[k].index,
        !m.cancelled ==> m.records.len() == m.items.len(),
{
    assert forall|i: nat| i < m.admitted implies #[trigger] m.has_record(i) by {
        assert(!m.in_flight.contains(i));
    }
}

/// Every item of a run is started with the same options, whose rate-limit
/// flag is set exactly when the batch has more items than the threshold.
pub proof fn law_rate_limit_uniform(m: BatchModel, event: EventModel)
    requires
        m.inv(),
    ensures
        m.step(event).0.options == m.options,
        m.step(event).1 matches ActionModel::Dispatch { item, args, .. } ==> args == ytdlp_args(
            item,
            m.options,
        ) && m.options.rate_limit == throttled(m.items.len()),
{
    lemma_step_inv(m, event);
}

/// Once a termination signal has been taken in, no further item is started,
/// whatever happens next.
pub proof fn law_cancel_stops_admission(m: BatchModel, events: Seq<EventModel>)
    requires
        m.inv(),
        m.cancelled,
    ensures
        run(m, events).admitted == m.admitted,
        run(m, events).cancelled,
    decreases events.len(),
{
    if events.len() > 0 {
        lemma_step_inv(m, events[0]);
        law_cancel_stops_admission(m.step(events[0]).0, events.drop_first());
    }
}

/// The outcomes recorded so far are never lost or changed: each step keeps
/// them and adds at most one, about an item that had no record yet.
pub proof fn law_records_kept(m: BatchModel, event: EventModel)
    requires
        m.inv(),
    ensures
        m.records.is_prefix_of(m.step(event).0.records),
        m.step(event).0.records.len() <= m.records.len() + 1,
        m.step(event).0.records.len() == m.records.len() + 1 ==> !m.has_record(
            m.step(event).0.records.last().index,
        ),
{
    let n = m.step(event).0;
    if n.records.len() == m.records.len() + 1 {
        let index = n.records.last().index;
        assert(m.in_flight.contains(index));
        if m.has_record(index) {
            let k = choose|k: int| 0 <= k < m.records.len() && m.records[k].index == index;
            assert(!m.in_flight.contains(m.records[k].index));
        }
    }
}

/// Taking in a termination signal cancels the batch, and the next action
/// starts nothing.
pub proof fn law_signal_cancels(m: BatchModel)
    requires
        m.inv(),
    ensures
        m.step(EventModel::Signal).0.cancelled,
        m.step(EventModel::Signal).0.admitted == m.admitted,
        !(m.step(EventModel::Signal).1 is Dispatch),
{
}

} // verus!
