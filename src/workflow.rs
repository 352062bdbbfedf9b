use vstd::prelude::*;
use crate::config::{Account, Config, Extraction};
use crate::dates::{current_month, month_offset, offset_spec, MonthDate};
use crate::shutdown::{published, ShutdownCause, ShutdownCoordinator};
use crate::supervisor::{reap_spec, ChildStatus, SupervisorAction};

verus! {

/// What one (account, month) search ended in.
#[derive(Clone, Copy, Debug, PartialEq, Eq, Structural)]
pub enum DownloadOutcome {
    /// A statement was found and its download started.
    Downloaded,
    /// The site reported no statement for that month.
    NotFound,
}

/// One account of one extraction window, with the month offsets to visit:
/// `first_offset`, `first_offset + 1`, ..., `first_offset + months - 1`.
#[derive(Clone, Copy, Debug, PartialEq, Eq, Structural)]
pub struct Task {
    /// Index of the window in the configuration.
    pub extraction: usize,
    /// Index of the account within its window.
    pub account: usize,
    pub first_offset: i64,
    pub months: u64,
}

/// The outcome of one visited (task, month) pair; `month` counts from zero
/// within the task.
#[derive(Clone, Copy, Debug, PartialEq, Eq, Structural)]
pub struct Record {
    pub task: usize,
    pub month: u64,
    pub outcome: DownloadOutcome,
}

/// How many months a window spans. The months visited run from the window's
/// `to` month back to, but not including, its `from` month, so the offsets
/// form `[offset(to), offset(from))`; a window whose `from` is not before its
/// `to` spans none.
pub open spec fn months_spanned(e: Extraction) -> nat {
    if e.from.index() < e.to.index() {
        (e.to.index() - e.from.index()) as nat
    } else {
        0
    }
}

/// The tasks of window `e`, the `ei`-th of the configuration: one per account.
pub open spec fn window_tasks(e: Extraction, ei: int, today: MonthDate) -> Seq<Task> {
    Seq::new(
        e.accounts@.len(),
        |a: int|
            Task {
                extraction: ei as usize,
                account: a as usize,
                first_offset: offset_spec(today, e.to) as i64,
                months: months_spanned(e) as u64,
            },
    )
}

/// The tasks of all windows, window by window and account by account.
pub open spec fn plan_spec(exts: Seq<Extraction>, today: MonthDate) -> Seq<Task>
    decreases exts.len(),
{
    if exts.len() == 0 {
        Seq::<Task>::empty()
    } else {
        plan_spec(exts.drop_last(), today) + window_tasks(exts.last(), exts.len() - 1, today)
    }
}

/// Bound on offsets and month counts, far above any that dates can give.
pub open spec fn small(x: int) -> bool {
    -0x100_0000_0000 <= x <= 0x100_0000_0000
}

/// A task's offsets fit comfortably in an `i64`.
pub open spec fn task_bounded(t: Task) -> bool {
    small(t.first_offset as int) && small(t.months as int)
}

/// The pairs of task `t`, in order.
pub open spec fn task_pairs(t: usize, months: u64) -> Seq<(usize, u64)> {
    Seq::new(months as nat, |m: int| (t, m as u64))
}

/// The pairs of the first `n` tasks, in order.
pub open spec fn pairs_upto(tasks: Seq<Task>, n: nat) -> Seq<(usize, u64)>
    decreases n,
{
    if n == 0 {
        Seq::<(usize, u64)>::empty()
    } else {
        pairs_upto(tasks, (n - 1) as nat) + task_pairs((n - 1) as usize, tasks[n - 1].months)
    }
}

/// Every (task, month) pair of the plan, in visiting order.
pub open spec fn all_pairs(tasks: Seq<Task>) -> Seq<(usize, u64)> {
    pairs_upto(tasks, tasks.len())
}

/// Total number of months over the first `n` tasks.
pub open spec fn total_months(tasks: Seq<Task>, n: nat) -> nat
    decreases n,
{
    if n == 0 {
        0
    } else {
        total_months(tasks, (n - 1) as nat) + tasks[n - 1].months as nat
    }
}

/// The pairs that the records were made for.
pub open spec fn visited(records: Seq<Record>) -> Seq<(usize, u64)> {
    records.map_values(|r: Record| (r.task, r.month))
}

/// The first task at index `i` or later that has a month to visit.
pub open spec fn first_nonempty(tasks: Seq<Task>, i: nat) -> Option<nat>
    decreases tasks.len() - i,
{
    if i >= tasks.len() {
        None
    } else if tasks[i as int].months > 0 {
        Some(i)
    } else {
        first_nonempty(tasks, i + 1)
    }
}

/// The outcomes recorded for task `t`, in recording order.
pub open spec fn outcomes_for(records: Seq<Record>, t: usize) -> Seq<DownloadOutcome>
    decreases records.len(),
{
    if records.len() == 0 {
        Seq::<DownloadOutcome>::empty()
    } else if records.last().task == t {
        outcomes_for(records.drop_last(), t).push(records.last().outcome)
    } else {
        outcomes_for(records.drop_last(), t)
    }
}

/// Builds the download plan of `config` as seen from `today`.
pub fn plan(config: &Config, today: &MonthDate) -> (r: Vec<Task>)
    ensures
        r@ == plan_spec(config.extractions@, *today),
        forall|i: int| 0 <= i < r@.len() ==> task_bounded(#[trigger] r@[i]),
        forall|i: int|
            0 <= i < r@.len() ==> {
                &&& (#[trigger] r@[i]).extraction < config.extractions@.len()
                &&& r@[i].account < config.extractions@[r@[i].extraction as int].accounts@.len()
            },
{
    let exts = &config.extractions;
    let mut tasks: Vec<Task> = Vec::new();
    let mut i: usize = 0;
    while i < exts.len()
        invariant
            i <= exts@.len(),
            tasks@ == plan_spec(exts@.subrange(0, i as int), *today),
            forall|k: int| 0 <= k < tasks@.len() ==> task_bounded(#[trigger] tasks@[k]),
            forall|k: int|
                0 <= k < tasks@.len() ==> {
                    &&& (#[trigger] tasks@[k]).extraction < exts@.len()
                    &&& tasks@[k].account < exts@[tasks@[k].extraction as int].accounts@.len()
                },
        decreases exts@.len() - i,
    {
        let e = &exts[i];
        let first = month_offset(today, &e.to);
        let last = month_offset(today, &e.from);
        let months: u64 = if first < last {
            (last - first) as u64
        } else {
            0
        };
        assert(months == months_spanned(*e));
        let ghost before = tasks@;
        let mut j: usize = 0;
        while j < e.accounts.len()
            invariant
                i < exts@.len(),
                *e == exts@[i as int],
                j <= e.accounts@.len(),
                first == offset_spec(*today, e.to),
                months == months_spanned(*e),
                small(first as int),
                small(months as int),
                before == plan_spec(exts@.subrange(0, i as int), *today),
                tasks@ == before + window_tasks(*e, i as int, *today).take(j as int),
                forall|k: int| 0 <= k < tasks@.len() ==> task_bounded(#[trigger] tasks@[k]),
                forall|k: int|
                    0 <= k < tasks@.len() ==> {
                        &&& (#[trigger] tasks@[k]).extraction < exts@.len()
                        &&& tasks@[k].account < exts@[tasks@[k].extraction as int].accounts@.len()
                    },
            decreases e.accounts@.len() - j,
        {
            let t = Task { extraction: i, account: j, first_offset: first, months };
            tasks.push(t);
            assert(window_tasks(*e, i as int, *today).take(j + 1) == window_tasks(
                *e,
                i as int,
                *today,
            ).take(j as int).push(t));
            j = j + 1;
        }
        assert(window_tasks(*e, i as int, *today).take(j as int) == window_tasks(*e, i as int, *today));
        assert(exts@.subrange(0, i + 1).drop_last() == exts@.subrange(0, i as int));
        i = i + 1;
    }
    assert(exts@.subrange(0, i as int) == exts@);
    tasks
}

/// Where the workflow stands. Stages only move forward; `Failed` absorbs.
#[derive(Clone, Copy, Debug, PartialEq, Eq, Structural)]
pub enum Stage {
    /// Nothing done yet: the consent overlay is still to be dealt with.
    Init,
    /// The consent overlay is out of the way.
    ConsentDismissed,
    /// The national-identity number has been submitted.
    AuthStage1Submitted,
    /// PIN and one-time password have been submitted.
    AuthStage2Submitted,
    /// The statement archive is open with the statement type selected.
    Navigated,
    /// The search for this (task, month) pair is under way.
    Downloading { task: usize, month: u64 },
    /// Every pair has been visited.
    Done,
    /// A step failed; nothing more happens.
    Failed,
}

/// What came of the last action the runner performed.
#[derive(Clone, Copy, Debug, PartialEq, Eq, Structural)]
pub enum Event {
    /// The run begins; no action has been performed.
    Started,
    /// The site was opened and the consent overlay was, or was not, displayed.
    ConsentProbed { displayed: bool },
    /// The requested action was carried out.
    Performed,
    /// The search raced its two markers: the result link (`found`) or the
    /// "no results" heading.
    SearchResolved { found: bool },
    /// An element lookup or readiness wait exceeded its bound, or the
    /// session broke.
    Error,
}

/// What the runner is asked to do next.
#[derive(Clone, Copy, Debug, PartialEq, Eq, Structural)]
pub enum Action {
    /// Open the site and report whether the consent overlay is displayed.
    ProbeConsent,
    /// Close the displayed consent overlay.
    DismissConsent,
    /// Enter the national-identity number and submit it.
    SubmitIdentity,
    /// Switch to PIN and one-time password, enter both and submit.
    SubmitPinAndOtp,
    /// Open the statement archive and select the statement document type.
    NavigateToArchive,
    /// Wait until the archive's account and month selectors can be used.
    PrepareSearch,
    /// Select the task's account and this month offset, then search.
    Search { task: usize, offset: i64 },
    /// Activate the result link, starting the file transfer.
    OpenResult,
    /// All pairs are visited: publish completion.
    Finish,
    /// A step failed: publish the fatal error.
    Abort,
    /// Nothing more to do.
    Stop,
}

/// The abstract state of a workflow.
pub struct WorkflowView {
    pub stage: Stage,
    /// A `Downloaded` outcome was recorded and its result link is to be opened.
    pub opening: bool,
    pub tasks: Seq<Task>,
    pub records: Seq<Record>,
}

/// The search request for month `m` of task `t`.
pub open spec fn search_action(tasks: Seq<Task>, t: usize, m: u64) -> Action {
    Action::Search { task: t, offset: (tasks[t as int].first_offset + m) as i64 }
}

/// Goes to the first pair of the first non-empty task at index `from` or
/// later, or to `Done` when there is none.
pub open spec fn enter_from(v: WorkflowView, from: nat) -> (WorkflowView, Action) {
    match first_nonempty(v.tasks, from) {
        Some(k) => (
            WorkflowView { stage: Stage::Downloading { task: k as usize, month: 0 }, opening: false, ..v },
            search_action(v.tasks, k as usize, 0),
        ),
        None => (WorkflowView { stage: Stage::Done, opening: false, ..v }, Action::Finish),
    }
}

/// Moves on from the finished pair (`t`, `m`).
pub open spec fn advance(v: WorkflowView, t: usize, m: u64) -> (WorkflowView, Action) {
    if m + 1 < v.tasks[t as int].months {
        (
            WorkflowView { stage: Stage::Downloading { task: t, month: (m + 1) as u64 }, opening: false, ..v },
            search_action(v.tasks, t, (m + 1) as u64),
        )
    } else {
        enter_from(v, (t + 1) as nat)
    }
}

/// The workflow fails.
pub open spec fn fail(v: WorkflowView) -> (WorkflowView, Action) {
    (WorkflowView { stage: Stage::Failed, opening: false, ..v }, Action::Abort)
}

/// The stage that a performed action leads to, before the download loop.
pub open spec fn after_performed(stage: Stage) -> Stage {
    match stage {
        Stage::Init => Stage::ConsentDismissed,
        Stage::ConsentDismissed => Stage::AuthStage1Submitted,
        Stage::AuthStage1Submitted => Stage::AuthStage2Submitted,
        _ => Stage::Navigated,
    }
}

/// The action that the stage reached by `after_performed` asks for.
pub open spec fn action_of(stage: Stage) -> Action {
    match stage {
        Stage::ConsentDismissed => Action::SubmitIdentity,
        Stage::AuthStage1Submitted => Action::SubmitPinAndOtp,
        Stage::AuthStage2Submitted => Action::NavigateToArchive,
        _ => Action::PrepareSearch,
    }
}

/// One transition: the next state and action, given whether the shutdown
/// signal is published and what came of the last action.
pub open spec fn step_spec(v: WorkflowView, halted: bool, event: Event) -> (WorkflowView, Action) {
    if halted || v.stage is Done || v.stage is Failed {
        (v, Action::Stop)
    } else if event is Error {
        fail(v)
    } else {
        match v.stage {
            Stage::Downloading { task, month } => {
                if v.opening {
                    if event is Performed {
                        advance(v, task, month)
                    } else {
                        fail(v)
                    }
                } else {
                    match event {
                        Event::SearchResolved { found } => {
                            let outcome = if found {
                                DownloadOutcome::Downloaded
                            } else {
                                DownloadOutcome::NotFound
                            };
                            let v2 = WorkflowView {
                                records: v.records.push(Record { task, month, outcome }),
                                ..v
                            };
                            if found {
                                (WorkflowView { opening: true, ..v2 }, Action::OpenResult)
                            } else {
                                advance(v2, task, month)
                            }
                        },
                        _ => fail(v),
                    }
                }
            },
            Stage::Navigated => {
                if event is Performed {
                    enter_from(v, 0)
                } else {
                    fail(v)
                }
            },
            Stage::Init => {
                match event {
                    Event::Started => (v, Action::ProbeConsent),
                    Event::ConsentProbed { displayed } => {
                        if displayed {
                            (v, Action::DismissConsent)
                        } else {
                            (
                                WorkflowView { stage: Stage::ConsentDismissed, ..v },
                                Action::SubmitIdentity,
                            )
                        }
                    },
                    Event::Performed => (
                        WorkflowView { stage: Stage::ConsentDismissed, ..v },
                        Action::SubmitIdentity,
                    ),
                    _ => fail(v),
                }
            },
            _ => {
                if event is Performed {
                    let next = after_performed(v.stage);
                    (WorkflowView { stage: next, ..v }, action_of(next))
                } else {
                    fail(v)
                }
            },
        }
    }
}

/// The records made so far match the stage: none before the download loop;
/// during it, exactly the pairs before the current one (and the current one
/// once its outcome is recorded); when done, every pair of the plan.
pub open spec fn wf_view(v: WorkflowView) -> bool {
    &&& v.tasks.len() <= usize::MAX
    &&& forall|i: int| 0 <= i < v.tasks.len() ==> task_bounded(#[trigger] v.tasks[i])
    &&& match v.stage {
        Stage::Downloading { task, month } => {
            &&& task < v.tasks.len()
            &&& month < v.tasks[task as int].months
            &&& visited(v.records) == pairs_upto(v.tasks, task as nat) + task_pairs(
                task,
                v.tasks[task as int].months,
            ).take(if v.opening { month + 1 } else { month as int })
        },
        Stage::Done => visited(v.records) == all_pairs(v.tasks) && !v.opening,
        Stage::Failed => !v.opening,
        _ => v.records.len() == 0 && !v.opening,
    }
}

/// A run of empty tasks adds no pair.
proof fn lemma_skip_empty(tasks: Seq<Task>, a: nat, b: nat)
    requires
        a <= b <= tasks.len(),
        forall|j: int| a <= j < b ==> (#[trigger] tasks[j]).months == 0,
    ensures
        pairs_upto(tasks, b) == pairs_upto(tasks, a),
    decreases b,
{
    if b > a {
        lemma_skip_empty(tasks, a, (b - 1) as nat);
        assert(task_pairs((b - 1) as usize, tasks[b - 1].months) =~= Seq::<(usize, u64)>::empty());
        assert(pairs_upto(tasks, b) =~= pairs_upto(tasks, (b - 1) as nat));
    }
}

/// The first non-empty task from `i` on, if any, has only empty tasks before it.
proof fn lemma_first_nonempty(tasks: Seq<Task>, i: nat)
    requires
        i <= tasks.len(),
    ensures
        match first_nonempty(tasks, i) {
            Some(k) => {
                &&& i <= k < tasks.len()
                &&& tasks[k as int].months > 0
                &&& pairs_upto(tasks, k) == pairs_upto(tasks, i)
            },
            None => pairs_upto(tasks, tasks.len()) == pairs_upto(tasks, i),
        },
    decreases tasks.len() - i,
{
    if i < tasks.len() && tasks[i as int].months == 0 {
        lemma_first_nonempty(tasks, i + 1);
        lemma_skip_empty(tasks, i, i + 1);
    }
}

/// Entering the loop at task `from`, with the pairs of all earlier tasks
/// recorded, keeps the invariant.
proof fn lemma_enter_wf(v: WorkflowView, from: nat)
    requires
        v.tasks.len() <= usize::MAX,
        forall|i: int| 0 <= i < v.tasks.len() ==> task_bounded(#[trigger] v.tasks[i]),
        from <= v.tasks.len(),
        visited(v.records) == pairs_upto(v.tasks, from),
    ensures
        wf_view(enter_from(v, from).0),
{
    lemma_first_nonempty(v.tasks, from);
    if let Some(k) = first_nonempty(v.tasks, from) {
        let t = k as usize;
        assert(task_pairs(t, v.tasks[k as int].months).take(0) =~= Seq::<(usize, u64)>::empty());
        assert(pairs_upto(v.tasks, k) + Seq::<(usize, u64)>::empty() =~= pairs_upto(v.tasks, k));
    }
}

/// Moving on from the pair (`t`, `m`), once it is recorded, keeps the invariant.
proof fn lemma_advance_wf(v: WorkflowView, t: usize, m: u64)
    requires
        v.tasks.len() <= usize::MAX,
        forall|i: int| 0 <= i < v.tasks.len() ==> task_bounded(#[trigger] v.tasks[i]),
        t < v.tasks.len(),
        m < v.tasks[t as int].months,
        visited(v.records) == pairs_upto(v.tasks, t as nat) + task_pairs(t, v.tasks[t as int].months).take(
            m + 1,
        ),
    ensures
        wf_view(advance(v, t, m).0),
{
    let months = v.tasks[t as int].months;
    if m + 1 >= months {
        assert(task_pairs(t, months).take(m + 1) =~= task_pairs(t, months));
        assert(pairs_upto(v.tasks, (t + 1) as nat) == pairs_upto(v.tasks, t as nat) + task_pairs(
            t,
            months,
        ));
        lemma_enter_wf(v, (t + 1) as nat);
    }
}

/// Every transition keeps the invariant.
pub proof fn lemma_step_wf(v: WorkflowView, halted: bool, event: Event)
    requires
        wf_view(v),
    ensures
        wf_view(step_spec(v, halted, event).0),
        step_spec(v, halted, event).0.tasks == v.tasks,
{
    if halted || v.stage is Done || v.stage is Failed || event is Error {
    } else {
        match v.stage {
            Stage::Downloading { task, month } => {
                let months = v.tasks[task as int].months;
                if v.opening {
                    if event is Performed {
                        lemma_advance_wf(v, task, month);
                    }
                } else {
                    if let Event::SearchResolved { found } = event {
                        let outcome = if found {
                            DownloadOutcome::Downloaded
                        } else {
                            DownloadOutcome::NotFound
                        };
                        let r = Record { task, month, outcome };
                        let v2 = WorkflowView { records: v.records.push(r), ..v };
                        assert(visited(v.records.push(r)) =~= visited(v.records).push((task, month)));
                        assert(task_pairs(task, months).take(month + 1) =~= task_pairs(task, months).take(
                            month as int,
                        ).push((task, month)));
                        if !found {
                            lemma_advance_wf(v2, task, month);
                        }
                    }
                }
            },
            Stage::Navigated => {
                if event is Performed {
                    assert(pairs_upto(v.tasks, 0) =~= Seq::<(usize, u64)>::empty());
                    assert(visited(v.records) =~= Seq::<(usize, u64)>::empty());
                    lemma_enter_wf(v, 0);
                }
            },
            _ => {},
        }
    }
}

/// A run of the stage machine: a configuration, the month it is seen from,
/// its download plan, and the outcomes recorded so far.
pub struct Workflow {
    config: Config,
    today: MonthDate,
    tasks: Vec<Task>,
    stage: Stage,
    opening: bool,
    records: Vec<Record>,
}

impl View for Workflow {
    type V = WorkflowView;

    closed spec fn view(&self) -> WorkflowView {
        WorkflowView {
            stage: self.stage,
            opening: self.opening,
            tasks: self.tasks@,
            records: self.records@,
        }
    }
}

impl Workflow {
    pub closed spec fn config_spec(&self) -> Config {
        self.config
    }

    /// The month that offsets are counted from.
    pub closed spec fn today_spec(&self) -> MonthDate {
        self.today
    }

    /// Each task names a window and an account of the configuration.
    pub closed spec fn tasks_in_config(&self) -> bool {
        forall|i: int|
            0 <= i < self.tasks@.len() ==> {
                &&& (#[trigger] self.tasks@[i]).extraction < self.config.extractions@.len()
                &&& self.tasks@[i].account < self.config.extractions@[self.tasks@[i].extraction as int].accounts@.len()
            }
    }

    pub open spec fn wf(&self) -> bool {
        wf_view(self@) && self.tasks_in_config()
    }

    /// A workflow at its start, for `config` seen from `today`.
    pub fn new(config: Config, today: MonthDate) -> (r: Workflow)
        ensures
            r.wf(),
            r@.stage == Stage::Init,
            !r@.opening,
            r@.records.len() == 0,
            r@.tasks == plan_spec(config.extractions@, today),
            r.config_spec() == config,
            r.today_spec() == today,
    {
        let tasks = plan(&config, &today);
        // The plan is a vector, so its length fits in a usize.
        let count = tasks.len();
        assert(tasks@.len() == count);
        Workflow { config, today, tasks, stage: Stage::Init, opening: false, records: Vec::new() }
    }

    /// A workflow at its start, for `config` seen from the current month.
    pub fn start(config: Config) -> (r: Workflow)
        ensures
            r.wf(),
            r@.stage == Stage::Init,
            r@.records.len() == 0,
            r.today_spec().wf(),
            r@.tasks == plan_spec(config.extractions@, r.today_spec()),
            r.config_spec() == config,
    {
        let today = current_month();
        Workflow::new(config, today)
    }

    pub fn stage(&self) -> (r: Stage)
        ensures
            r == self@.stage,
    {
        self.stage
    }

    /// Whether the workflow has reached `Done` or `Failed`.
    pub fn is_finished(&self) -> (r: bool)
        ensures
            r == (self@.stage is Done || self@.stage is Failed),
    {
        match self.stage {
            Stage::Done | Stage::Failed => true,
            _ => false,
        }
    }

    pub fn today(&self) -> (r: MonthDate)
        ensures
            r == self.today_spec(),
    {
        self.today
    }

    pub fn tasks(&self) -> (r: &Vec<Task>)
        ensures
            r@ == self@.tasks,
    {
        &self.tasks
    }

    /// The outcomes recorded so far, in visiting order.
    pub fn records(&self) -> (r: &Vec<Record>)
        ensures
            r@ == self@.records,
    {
        &self.records
    }

    /// The outcomes recorded for task `task`, month by month.
    pub fn outcomes_of(&self, task: usize) -> (r: Vec<DownloadOutcome>)
        ensures
            r@ == outcomes_for(self@.records, task),
    {
        let mut out: Vec<DownloadOutcome> = Vec::new();
        let mut i: usize = 0;
        while i < self.records.len()
            invariant
                i <= self.records@.len(),
                out@ == outcomes_for(self.records@.subrange(0, i as int), task),
            decreases self.records@.len() - i,
        {
            let r = self.records[i];
            if r.task == task {
                out.push(r.outcome);
            }
            assert(self.records@.subrange(0, i + 1).drop_last() == self.records@.subrange(0, i as int));
            i = i + 1;
        }
        assert(self.records@.subrange(0, i as int) == self.records@);
        out
    }

    /// The stored national-identity number, if the configuration holds one.
    pub fn credential(&self) -> (r: &Option<String>)
        ensures
            *r == self.config_spec().ssn,
    {
        &self.config.ssn
    }

    /// The account that task `task` is about.
    pub fn task_account(&self, task: usize) -> (r: &Account)
        requires
            self.wf(),
            task < self@.tasks.len(),
        ensures
            *r == self.config_spec().extractions@[self@.tasks[task as int].extraction as int].accounts@[self@.tasks[task as int].account as int],
    {
        let t = self.tasks[task];
        &self.config.extractions[t.extraction].accounts[t.account]
    }

    /// The first task at index `from` or later with a month to visit.
    fn first_nonempty_from(&self, from: usize) -> (r: Option<usize>)
        requires
            from <= self.tasks@.len(),
        ensures
            r == (match first_nonempty(self.tasks@, from as nat) {
                Some(k) => Some(k as usize),
                None => None::<usize>,
            }),
    {
        let mut i = from;
        while i < self.tasks.len()
            invariant
                from <= i <= self.tasks@.len(),
                first_nonempty(self.tasks@, from as nat) == first_nonempty(self.tasks@, i as nat),
            decreases self.tasks@.len() - i,
        {
            if self.tasks[i].months > 0 {
                return Some(i);
            }
            i = i + 1;
        }
        None
    }

    /// The search request for month `m` of task `t`.
    fn search(&self, t: usize, m: u64) -> (a: Action)
        requires
            t < self.tasks@.len(),
            task_bounded(self.tasks@[t as int]),
            m < self.tasks@[t as int].months,
        ensures
            a == search_action(self.tasks@, t, m),
    {
        Action::Search { task: t, offset: self.tasks[t].first_offset + m as i64 }
    }

    /// Goes to the first pair at task `from` or later, or to `Done`.
    fn enter_from(&mut self, from: usize) -> (a: Action)
        requires
            from <= old(self).tasks@.len() <= usize::MAX,
            forall|i: int| 0 <= i < old(self).tasks@.len() ==> task_bounded(#[trigger] old(self).tasks@[i]),
        ensures
            (final(self)@, a) == enter_from(old(self)@, from as nat),
            final(self).config == old(self).config,
            final(self).today == old(self).today,
    {
        proof {
            lemma_first_nonempty(self.tasks@, from as nat);
        }
        match self.first_nonempty_from(from) {
            Some(k) => {
                self.stage = Stage::Downloading { task: k, month: 0 };
                self.opening = false;
                self.search(k, 0)
            },
            None => {
                self.stage = Stage::Done;
                self.opening = false;
                Action::Finish
            },
        }
    }

    /// Moves on from the finished pair (`t`, `m`).
    fn advance(&mut self, t: usize, m: u64) -> (a: Action)
        requires
            t < old(self).tasks@.len() <= usize::MAX,
            m < old(self).tasks@[t as int].months,
            forall|i: int| 0 <= i < old(self).tasks@.len() ==> task_bounded(#[trigger] old(self).tasks@[i]),
        ensures
            (final(self)@, a) == advance(old(self)@, t, m),
            final(self).config == old(self).config,
            final(self).today == old(self).today,
    {
        if m + 1 < self.tasks[t].months {
            self.stage = Stage::Downloading { task: t, month: m + 1 };
            self.opening = false;
            self.search(t, m + 1)
        } else {
            self.enter_from(t + 1)
        }
    }

    /// The workflow fails.
    fn fail(&mut self) -> (a: Action)
        ensures
            (final(self)@, a) == fail(old(self)@),
            final(self).config == old(self).config,
            final(self).today == old(self).today,
    {
        self.stage = Stage::Failed;
        self.opening = false;
        Action::Abort
    }

    /// Takes one transition on what came of the last action, and returns the
    /// next action. Once the shutdown signal is published, or the workflow is
    /// finished, nothing changes and the action is `Stop`.
    pub fn step(&mut self, bus: &ShutdownCoordinator, event: Event) -> (a: Action)
        requires
            old(self).wf(),
        ensures
            final(self).wf(),
            (final(self)@, a) == step_spec(old(self)@, bus@ is Some, event),
            final(self).config_spec() == old(self).config_spec(),
            final(self).today_spec() == old(self).today_spec(),
    {
        proof {
            lemma_step_wf(self@, bus@ is Some, event);
        }
        if bus.is_published() || self.is_finished() {
            return Action::Stop;
        }
        if let Event::Error = event {
            return self.fail();
        }
        match self.stage {
            Stage::Downloading { task, month } => {
                if self.opening {
                    if let Event::Performed = event {
                        self.advance(task, month)
                    } else {
                        self.fail()
                    }
                } else {
                    if let Event::SearchResolved { found } = event {
                        let outcome = if found {
                            DownloadOutcome::Downloaded
                        } else {
                            DownloadOutcome::NotFound
                        };
                        self.records.push(Record { task, month, outcome });
                        if found {
                            self.opening = true;
                            Action::OpenResult
                        } else {
                            self.advance(task, month)
                        }
                    } else {
                        self.fail()
                    }
                }
            },
            Stage::Navigated => {
                if let Event::Performed = event {
                    self.enter_from(0)
                } else {
                    self.fail()
                }
            },
            Stage::Init => {
                match event {
                    Event::Started => Action::ProbeConsent,
                    Event::ConsentProbed { displayed } => {
                        if displayed {
                            Action::DismissConsent
                        } else {
                            self.stage = Stage::ConsentDismissed;
                            Action::SubmitIdentity
                        }
                    },
                    Event::Performed => {
                        self.stage = Stage::ConsentDismissed;
                        Action::SubmitIdentity
                    },
                    _ => self.fail(),
                }
            },
            Stage::ConsentDismissed => {
                if let Event::Performed = event {
                    self.stage = Stage::AuthStage1Submitted;
                    Action::SubmitPinAndOtp
                } else {
                    self.fail()
                }
            },
            Stage::AuthStage1Submitted => {
                if let Event::Performed = event {
                    self.stage = Stage::AuthStage2Submitted;
                    Action::NavigateToArchive
                } else {
                    self.fail()
                }
            },
            _ => {
                if let Event::Performed = event {
                    self.stage = Stage::Navigated;
                    Action::PrepareSearch
                } else {
                    self.fail()
                }
            },
        }
    }
}

/// The number of pairs of the first `n` tasks is their total number of months.
pub proof fn lemma_pairs_count(tasks: Seq<Task>, n: nat)
    requires
        n <= tasks.len(),
    ensures
        pairs_upto(tasks, n).len() == total_months(tasks, n),
    decreases n,
{
    if n > 0 {
        lemma_pairs_count(tasks, (n - 1) as nat);
    }
}

/// Tasks that all span `m` months hold `n * m` months between the first `n`.
pub proof fn lemma_uniform_total(tasks: Seq<Task>, n: nat, m: nat)
    requires
        n <= tasks.len(),
        forall|i: int| 0 <= i < tasks.len() ==> (#[trigger] tasks[i]).months == m,
    ensures
        total_months(tasks, n) == n * m,
    decreases n,
{
    if n > 0 {
        lemma_uniform_total(tasks, (n - 1) as nat, m);
        assert(total_months(tasks, n) == (n - 1) * m + m);
        assert((n - 1) * m + m == n * m) by (nonlinear_arith);
    } else {
        assert(n * m == 0) by (nonlinear_arith)
            requires
                n == 0,
        ;
    }
}

/// When the download loop has completed, every (task, month) pair of the plan
/// has been visited exactly once and in order, each with one outcome.
pub proof fn lemma_finished_run_visits_every_pair(v: WorkflowView)
    requires
        wf_view(v),
        v.stage is Done,
    ensures
        visited(v.records) == all_pairs(v.tasks),
        v.records.len() == total_months(v.tasks, v.tasks.len()),
{
    lemma_pairs_count(v.tasks, v.tasks.len());
    assert(visited(v.records).len() == v.records.len());
}

/// For N account tasks that each span M months, a completed loop holds
/// N x M records.
pub proof fn lemma_finished_run_count(v: WorkflowView, m: nat)
    requires
        wf_view(v),
        v.stage is Done,
        forall|i: int| 0 <= i < v.tasks.len() ==> (#[trigger] v.tasks[i]).months == m,
    ensures
        v.records.len() == v.tasks.len() * m,
{
    lemma_finished_run_visits_every_pair(v);
    lemma_uniform_total(v.tasks, v.tasks.len(), m);
}

/// The window's tasks each span the window's months: one task per account.
pub proof fn lemma_window_tasks(e: Extraction, ei: int, today: MonthDate)
    ensures
        window_tasks(e, ei, today).len() == e.accounts@.len(),
        forall|i: int|
            0 <= i < e.accounts@.len() ==> (#[trigger] window_tasks(e, ei, today)[i]).months as nat
                == months_spanned(e) as u64 as nat,
{
}

/// Dismissing the consent overlay: when it is not displayed nothing is
/// dismissed and the workflow moves on; when it is displayed it is dismissed
/// once, and no later stage ever asks for a dismissal again.
pub proof fn lemma_consent_dismissal(v: WorkflowView, w: WorkflowView, halted: bool, event: Event)
    requires
        v.stage is Init,
        !(w.stage is Init),
    ensures
        step_spec(v, false, Event::ConsentProbed { displayed: false }) == (
            WorkflowView { stage: Stage::ConsentDismissed, ..v },
            Action::SubmitIdentity,
        ),
        step_spec(v, false, Event::ConsentProbed { displayed: true }) == (v, Action::DismissConsent),
        step_spec(step_spec(v, false, Event::ConsentProbed { displayed: true }).0, false, Event::Performed)
            == (WorkflowView { stage: Stage::ConsentDismissed, ..v }, Action::SubmitIdentity),
        step_spec(w, halted, event).1 != Action::DismissConsent,
        !(step_spec(w, halted, event).0.stage is Init),
{
}

/// Position of a stage in the fixed order of stages.
pub open spec fn stage_rank(s: Stage) -> nat {
    match s {
        Stage::Init => 0,
        Stage::ConsentDismissed => 1,
        Stage::AuthStage1Submitted => 2,
        Stage::AuthStage2Submitted => 3,
        Stage::Navigated => 4,
        Stage::Downloading { .. } => 5,
        Stage::Done => 6,
        Stage::Failed => 7,
    }
}

/// Stages only move forward, and within the download loop the (task, month)
/// pair only moves forward too.
pub proof fn lemma_no_backward_transition(v: WorkflowView, halted: bool, event: Event)
    requires
        wf_view(v),
    ensures
        stage_rank(step_spec(v, halted, event).0.stage) >= stage_rank(v.stage),
        match (v.stage, step_spec(v, halted, event).0.stage) {
            (Stage::Downloading { task: t0, month: m0 }, Stage::Downloading { task: t1, month: m1 }) =>
                t0 < t1 || (t0 == t1 && m0 <= m1),
            _ => true,
        },
{
    if !(halted || v.stage is Done || v.stage is Failed || event is Error) {
        if let Stage::Downloading { task, month } = v.stage {
            lemma_first_nonempty(v.tasks, (task + 1) as nat);
        }
    }
}

/// Whichever of interrupt, completion or fatal error publishes the shutdown
/// signal, the signal is then published, the workflow takes no further
/// transition, and a subprocess that still runs is sent a termination request.
pub proof fn lemma_shutdown_halts_run(
    signal: Option<ShutdownCause>,
    cause: ShutdownCause,
    v: WorkflowView,
    event: Event,
    status: ChildStatus,
)
    ensures
        published(signal, cause) is Some,
        step_spec(v, published(signal, cause) is Some, event) == (v, Action::Stop),
        status == ChildStatus::Running ==> reap_spec(status) == SupervisorAction::Terminate,
        status == ChildStatus::Exited ==> reap_spec(status) == SupervisorAction::Idle,
{
}

} // verus!
