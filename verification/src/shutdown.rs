//! Pausing in-flight downloads when the application quits.
//!
//! The persisted download table is seen here as a sequence of records. The
//! coordinator selects the records whose status is active, asks for each
//! worker process to be stopped, and marks every selected record as paused
//! whether or not its worker could be stopped.

use vstd::prelude::*;
use vstd::string::*;
use crate::text::{same_text, signed_decimal, signed_decimal_string};

verus! {

/// One row of the download table.
pub struct DownloadRecord {
    pub id: i32,
    pub download_id: String,
    pub download_status: String,
    pub process_id: Option<i32>,
    pub status: String,
}

/// What a [`DownloadRecord`] holds, as plain values.
pub struct DownloadModel {
    pub id: i32,
    pub download_id: Seq<char>,
    pub download_status: Seq<char>,
    pub process_id: Option<i32>,
    pub status: Seq<char>,
}

impl View for DownloadRecord {
    type V = DownloadModel;

    open spec fn view(&self) -> DownloadModel {
        DownloadModel {
            id: self.id,
            download_id: self.download_id@,
            download_status: self.download_status@,
            process_id: self.process_id,
            status: self.status@,
        }
    }
}

impl DeepView for DownloadRecord {
    type V = DownloadModel;

    open spec fn deep_view(&self) -> DownloadModel {
        self@
    }
}

/// The statuses that count as in flight.
pub open spec fn is_ongoing_status(status: Seq<char>) -> bool {
    status == "downloading"@ || status == "starting"@ || status == "queued"@
}

/// The record with its status replaced by `paused`.
pub open spec fn paused(record: DownloadModel) -> DownloadModel {
    DownloadModel {
        id: record.id,
        download_id: record.download_id,
        download_status: "paused"@,
        process_id: record.process_id,
        status: record.status,
    }
}

/// The record as the shutdown sequence leaves it when ids are unique.
pub open spec fn after_pause(record: DownloadModel) -> DownloadModel {
    if is_ongoing_status(record.download_status) {
        paused(record)
    } else {
        record
    }
}

/// The in-flight records of the table, in table order.
pub open spec fn ongoing(store: Seq<DownloadModel>) -> Seq<DownloadModel>
    decreases store.len(),
{
    if store.len() == 0 {
        Seq::empty()
    } else if is_ongoing_status(store.last().download_status) {
        ongoing(store.drop_last()).push(store.last())
    } else {
        ongoing(store.drop_last())
    }
}

/// Some in-flight record of the table carries `id`.
pub open spec fn selected(store: Seq<DownloadModel>, id: i32) -> bool {
    exists|j: int|
        0 <= j < store.len() && #[trigger] store[j].id == id && is_ongoing_status(
            store[j].download_status,
        )
}

/// The table after the statement that sets the status of the rows with `id`
/// to `paused`.
pub open spec fn mark(store: Seq<DownloadModel>, id: i32) -> Seq<DownloadModel> {
    Seq::new(
        store.len(),
        |i: int|
            if store[i].id == id {
                paused(store[i])
            } else {
                store[i]
            },
    )
}

/// The table after the whole shutdown sequence: every row whose id belongs
/// to an in-flight record is paused, every other row is as it was.
pub open spec fn pause_all(store: Seq<DownloadModel>) -> Seq<DownloadModel> {
    Seq::new(
        store.len(),
        |i: int|
            if selected(store, store[i].id) {
                paused(store[i])
            } else {
                store[i]
            },
    )
}

/// No two rows share an id.
pub open spec fn unique_ids(store: Seq<DownloadModel>) -> bool {
    forall|i: int, j: int|
        0 <= i < store.len() && 0 <= j < store.len() && i != j ==> (#[trigger] store[i]).id != (
        #[trigger] store[j]).id
}

/// What the coordinator does for one in-flight record: stop the worker, if
/// one is recorded, then mark the row with `id` as paused.
#[derive(Clone, Copy, Debug, PartialEq, Eq, Structural)]
pub struct PauseStep {
    pub id: i32,
    pub process_id: Option<i32>,
}

/// The step for one in-flight record.
pub open spec fn step_of(record: DownloadModel) -> PauseStep {
    PauseStep { id: record.id, process_id: record.process_id }
}

/// The steps of the shutdown sequence: one per in-flight record, in table
/// order.
pub open spec fn plan_of(store: Seq<DownloadModel>) -> Seq<PauseStep> {
    ongoing(store).map_values(|record: DownloadModel| step_of(record))
}

/// Whether `status` counts as in flight.
pub fn is_ongoing(status: &str) -> (active: bool)
    ensures
        active == is_ongoing_status(status@),
{
    same_text(status, "downloading") || same_text(status, "starting") || same_text(
        status,
        "queued",
    )
}

fn copy_record(record: &DownloadRecord) -> (copy: DownloadRecord)
    ensures
        copy@ == record@,
{
    DownloadRecord {
        id: record.id,
        download_id: record.download_id.clone(),
        download_status: record.download_status.clone(),
        process_id: record.process_id,
        status: record.status.clone(),
    }
}

proof fn lemma_ongoing_step(store: Seq<DownloadModel>, i: int)
    requires
        0 <= i < store.len(),
    ensures
        ongoing(store.take(i + 1)) == if is_ongoing_status(store[i].download_status) {
            ongoing(store.take(i)).push(store[i])
        } else {
            ongoing(store.take(i))
        },
{
    assert(store.take(i + 1).drop_last() =~= store.take(i));
}

/// The in-flight records of the table, in table order.
pub fn list_ongoing_downloads(store: &Vec<DownloadRecord>) -> (downloads: Vec<DownloadRecord>)
    ensures
        downloads.deep_view() == ongoing(store.deep_view()),
{
    let mut downloads: Vec<DownloadRecord> = Vec::new();
    let ghost table = store.deep_view();
    let mut i: usize = 0;
    while i < store.len()
        invariant
            i <= store.len(),
            table == store.deep_view(),
            downloads.deep_view() == ongoing(table.take(i as int)),
        decreases store.len() - i,
    {
        proof {
            lemma_ongoing_step(table, i as int);
        }
        let ghost before = downloads.deep_view();
        if is_ongoing(store[i].download_status.as_str()) {
            downloads.push(copy_record(&store[i]));
            assert(downloads.deep_view() =~= before.push(table[i as int]));
        }
        i += 1;
    }
    assert(table.take(store.len() as int) =~= table);
    downloads
}

/// The steps of the shutdown sequence for `store`.
pub fn pause_plan(store: &Vec<DownloadRecord>) -> (plan: Vec<PauseStep>)
    ensures
        plan@ == plan_of(store.deep_view()),
{
    let mut plan: Vec<PauseStep> = Vec::new();
    let ghost table = store.deep_view();
    let mut i: usize = 0;
    while i < store.len()
        invariant
            i <= store.len(),
            table == store.deep_view(),
            plan@ == plan_of(table.take(i as int)),
        decreases store.len() - i,
    {
        proof {
            lemma_ongoing_step(table, i as int);
        }
        if is_ongoing(store[i].download_status.as_str()) {
            plan.push(PauseStep { id: store[i].id, process_id: store[i].process_id });
            assert(plan@ =~= plan_of(table.take(i as int + 1)));
        }
        i += 1;
    }
    assert(table.take(store.len() as int) =~= table);
    plan
}

/// Sets the status of every row with `id` to `paused`.
pub fn mark_paused(store: &mut Vec<DownloadRecord>, id: i32)
    ensures
        final(store).deep_view() == mark(old(store).deep_view(), id),
{
    let ghost table = store.deep_view();
    let mut i: usize = 0;
    while i < store.len()
        invariant
            i <= store.len(),
            store.len() == table.len(),
            forall|k: int| 0 <= k < i ==> (#[trigger] store@[k])@ == mark(table, id)[k],
            forall|k: int| i <= k < store.len() ==> (#[trigger] store@[k])@ == table[k],
        decreases store.len() - i,
    {
        if store[i].id == id {
            let updated = DownloadRecord {
                id: store[i].id,
                download_id: store[i].download_id.clone(),
                download_status: String::from_str("paused"),
                process_id: store[i].process_id,
                status: store[i].status.clone(),
            };
            store.set(i, updated);
        }
        i += 1;
    }
    assert(store.deep_view() =~= mark(table, id));
}

/// What became of the attempt to stop one worker process.
pub struct Termination {
    /// The row whose worker it was.
    pub id: i32,
    /// The process that was to be stopped.
    pub process_id: i32,
    /// What the process control gave: nothing, or why the process could not
    /// be stopped.
    pub outcome: Result<(), String>,
}

/// The workers that a plan has stopped, each as the row's id and the
/// process id, in the order of the plan.
pub open spec fn workers(plan: Seq<PauseStep>) -> Seq<(i32, i32)>
    decreases plan.len(),
{
    if plan.len() == 0 {
        Seq::empty()
    } else {
        match plan.last().process_id {
            Some(pid) => workers(plan.drop_last()).push((plan.last().id, pid)),
            None => workers(plan.drop_last()),
        }
    }
}

/// Some step among the first `upto` of `plan` marks the rows with `id`.
pub open spec fn marked(plan: Seq<PauseStep>, upto: int, id: i32) -> bool {
    exists|j: int| 0 <= j < upto && j < plan.len() && (#[trigger] plan[j]).id == id
}

proof fn lemma_ongoing_members(store: Seq<DownloadModel>)
    ensures
        forall|j: int|
            0 <= j < ongoing(store).len() ==> is_ongoing_status(
                (#[trigger] ongoing(store)[j]).download_status,
            ) && store.contains(ongoing(store)[j]),
        forall|i: int|
            0 <= i < store.len() && is_ongoing_status((#[trigger] store[i]).download_status)
                ==> ongoing(store).contains(store[i]),
        ongoing(store).len() <= store.len(),
    decreases store.len(),
{
    if store.len() > 0 {
        let rest = store.drop_last();
        lemma_ongoing_members(rest);
        assert forall|j: int| 0 <= j < ongoing(store).len() implies is_ongoing_status(
            (#[trigger] ongoing(store)[j]).download_status,
        ) && store.contains(ongoing(store)[j]) by {
            if j < ongoing(rest).len() {
                let found = choose|k: int| 0 <= k < rest.len() && rest[k] == ongoing(rest)[j];
                assert(store[found] == ongoing(store)[j]);
            } else {
                assert(store[store.len() - 1] == ongoing(store)[j]);
            }
        }
        assert forall|i: int|
            0 <= i < store.len() && is_ongoing_status(
                (#[trigger] store[i]).download_status,
            ) implies ongoing(store).contains(store[i]) by {
            if i < rest.len() {
                assert(rest[i] == store[i]);
                let found = choose|k: int|
                    0 <= k < ongoing(rest).len() && ongoing(rest)[k] == rest[i];
                assert(ongoing(store)[found] == store[i]);
            } else {
                assert(ongoing(store)[ongoing(store).len() - 1] == store[i]);
            }
        }
    }
}

/// The plan marks exactly the ids of the in-flight records.
pub proof fn lemma_plan_marks_selected(store: Seq<DownloadModel>, id: i32)
    ensures
        marked(plan_of(store), plan_of(store).len() as int, id) <==> selected(store, id),
{
    lemma_ongoing_members(store);
    let plan = plan_of(store);
    if marked(plan, plan.len() as int, id) {
        let j = choose|j: int| 0 <= j < plan.len() && (#[trigger] plan[j]).id == id;
        let record = ongoing(store)[j];
        assert(store.contains(record));
        let k = choose|k: int| 0 <= k < store.len() && store[k] == record;
        assert(store[k].id == id && is_ongoing_status(store[k].download_status));
    }
    if selected(store, id) {
        let k = choose|k: int|
            0 <= k < store.len() && #[trigger] store[k].id == id && is_ongoing_status(
                store[k].download_status,
            );
        assert(ongoing(store).contains(store[k]));
        let j = choose|j: int| 0 <= j < ongoing(store).len() && ongoing(store)[j] == store[k];
        assert(plan[j].id == id);
    }
}

/// One thing that the shutdown sequence does.
#[derive(Clone, Copy, Debug, PartialEq, Eq, Structural)]
pub enum PauseAction {
    /// Stop the worker process `process_id` of the row `id` and wait until
    /// the attempt has ended; a failure is noted and changes nothing.
    Terminate { id: i32, process_id: i32 },
    /// Set the status of the rows with `id` to `paused`.
    MarkPaused { id: i32 },
}

/// What is done for one step of the plan: the worker, if one is recorded, is
/// stopped before the row is marked.
pub open spec fn step_actions(step: PauseStep) -> Seq<PauseAction> {
    match step.process_id {
        Some(process_id) => seq![
            PauseAction::Terminate { id: step.id, process_id },
            PauseAction::MarkPaused { id: step.id },
        ],
        None => seq![PauseAction::MarkPaused { id: step.id }],
    }
}

/// All that the shutdown sequence does for `plan`, in order.
pub open spec fn actions_of(plan: Seq<PauseStep>) -> Seq<PauseAction>
    decreases plan.len(),
{
    if plan.len() == 0 {
        Seq::empty()
    } else {
        actions_of(plan.drop_last()) + step_actions(plan.last())
    }
}

/// The workers that `actions` stop, each as the row's id and the process id,
/// in order.
pub open spec fn stops(actions: Seq<PauseAction>) -> Seq<(i32, i32)>
    decreases actions.len(),
{
    if actions.len() == 0 {
        Seq::empty()
    } else {
        match actions.last() {
            PauseAction::Terminate { id, process_id } => stops(actions.drop_last()).push(
                (id, process_id),
            ),
            PauseAction::MarkPaused { id } => stops(actions.drop_last()),
        }
    }
}

/// Some action among `actions` marks the rows with `id`.
pub open spec fn is_marked(actions: Seq<PauseAction>, id: i32) -> bool {
    exists|j: int| 0 <= j < actions.len() && #[trigger] actions[j] == (PauseAction::MarkPaused { id })
}

/// The table after `actions`.
pub open spec fn after_actions(store: Seq<DownloadModel>, actions: Seq<PauseAction>) -> Seq<
    DownloadModel,
> {
    Seq::new(
        store.len(),
        |i: int|
            if is_marked(actions, store[i].id) {
                paused(store[i])
            } else {
                store[i]
            },
    )
}

proof fn lemma_stops_append(a: Seq<PauseAction>, b: Seq<PauseAction>)
    ensures
        stops(a + b) == stops(a) + stops(b),
    decreases b.len(),
{
    if b.len() == 0 {
        assert(a + b =~= a);
        assert(stops(a) + stops(b) =~= stops(a));
    } else {
        assert((a + b).drop_last() =~= a + b.drop_last());
        assert((a + b).last() == b.last());
        lemma_stops_append(a, b.drop_last());
        assert(stops(a + b) =~= stops(a) + stops(b));
    }
}

proof fn lemma_stops_of_step(step: PauseStep)
    ensures
        stops(step_actions(step)) == match step.process_id {
            Some(process_id) => seq![(step.id, process_id)],
            None => Seq::<(i32, i32)>::empty(),
        },
{
    let actions = step_actions(step);
    match step.process_id {
        Some(process_id) => {
            let first = seq![PauseAction::Terminate { id: step.id, process_id }];
            let none = Seq::<PauseAction>::empty();
            assert(actions.last() == (PauseAction::MarkPaused { id: step.id }));
            assert(actions.drop_last() =~= first);
            assert(first.last() == (PauseAction::Terminate { id: step.id, process_id }));
            assert(first.drop_last() =~= none);
            assert(stops(none) =~= Seq::<(i32, i32)>::empty());
            assert(stops(first) =~= seq![(step.id, process_id)]);
            assert(stops(actions) == stops(first));
        },
        None => {
            let none = Seq::<PauseAction>::empty();
            assert(actions.last() == (PauseAction::MarkPaused { id: step.id }));
            assert(actions.drop_last() =~= none);
            assert(stops(none) =~= Seq::<(i32, i32)>::empty());
        },
    }
}

/// The actions stop exactly the workers of the plan, in its order.
pub proof fn lemma_actions_stop_workers(plan: Seq<PauseStep>)
    ensures
        stops(actions_of(plan)) == workers(plan),
    decreases plan.len(),
{
    if plan.len() > 0 {
        lemma_actions_stop_workers(plan.drop_last());
        lemma_stops_append(actions_of(plan.drop_last()), step_actions(plan.last()));
        lemma_stops_of_step(plan.last());
        assert(stops(actions_of(plan)) =~= workers(plan));
    }
}

/// The actions mark exactly the ids of the plan's steps.
pub proof fn lemma_actions_mark_steps(plan: Seq<PauseStep>, id: i32)
    ensures
        is_marked(actions_of(plan), id) <==> marked(plan, plan.len() as int, id),
    decreases plan.len(),
{
    if plan.len() > 0 {
        let rest = plan.drop_last();
        let head = actions_of(rest);
        let tail = step_actions(plan.last());
        let all = actions_of(plan);
        lemma_actions_mark_steps(rest, id);
        if is_marked(all, id) {
            let j = choose|j: int|
                0 <= j < all.len() && #[trigger] all[j] == (PauseAction::MarkPaused { id });
            if j < head.len() {
                assert(head[j] == all[j]);
                let k = choose|k: int|
                    0 <= k < rest.len() && k < rest.len() && (#[trigger] rest[k]).id == id;
                assert(plan[k].id == id);
            } else {
                assert(tail[j - head.len()] == all[j]);
                assert(plan[plan.len() - 1].id == id);
            }
        }
        if marked(plan, plan.len() as int, id) {
            let k = choose|k: int|
                0 <= k < plan.len() && k < plan.len() && (#[trigger] plan[k]).id == id;
            if k < rest.len() {
                assert(rest[k].id == id);
                let j = choose|j: int|
                    0 <= j < head.len() && #[trigger] head[j] == (PauseAction::MarkPaused { id });
                assert(all[j] == head[j]);
            } else {
                let at = tail.len() - 1;
                assert(tail[at] == (PauseAction::MarkPaused { id }));
                assert(all[head.len() + at] == tail[at]);
            }
        }
    }
}

/// All that the shutdown sequence does for `store`, in order: for each
/// in-flight record, in table order, the worker is stopped where one is
/// recorded, then the row is marked as paused.
pub fn pause_actions(store: &Vec<DownloadRecord>) -> (actions: Vec<PauseAction>)
    ensures
        actions@ == actions_of(plan_of(store.deep_view())),
{
    let plan = pause_plan(store);
    let mut actions: Vec<PauseAction> = Vec::new();
    let mut k: usize = 0;
    while k < plan.len()
        invariant
            k <= plan.len(),
            actions@ == actions_of(plan@.take(k as int)),
        decreases plan.len() - k,
    {
        let step = plan[k];
        proof {
            assert(plan@.take(k as int + 1).drop_last() =~= plan@.take(k as int));
            assert(plan@.take(k as int + 1).last() == step);
        }
        if let Some(process_id) = step.process_id {
            actions.push(PauseAction::Terminate { id: step.id, process_id });
        }
        actions.push(PauseAction::MarkPaused { id: step.id });
        assert(actions@ =~= actions_of(plan@.take(k as int + 1)));
        k += 1;
    }
    assert(plan@.take(plan@.len() as int) =~= plan@);
    actions
}

/// Runs the shutdown sequence on `store`: the actions that [`pause_actions`]
/// gives are carried out in order, a worker being stopped by a call of
/// `terminate` with its process id and a row being marked in `store`. What
/// `terminate` gave is handed back for each worker; a failure among them
/// changes nothing else.
pub fn pause_ongoing_downloads<F: Fn(i32) -> Result<(), String>>(
    store: &mut Vec<DownloadRecord>,
    terminate: F,
) -> (terminations: Vec<Termination>)
    requires
        forall|pid: i32| call_requires(terminate, (pid,)),
    ensures
        final(store).deep_view() == pause_all(old(store).deep_view()),
        terminations.len() == workers(plan_of(old(store).deep_view())).len(),
        forall|k: int|
            0 <= k < terminations.len() ==> {
                let termination = #[trigger] terminations@[k];
                &&& (termination.id, termination.process_id) == workers(
                    plan_of(old(store).deep_view()),
                )[k]
                &&& call_ensures(terminate, (termination.process_id,), termination.outcome)
            },
{
    let ghost table = store.deep_view();
    let actions = pause_actions(store);
    let mut terminations: Vec<Termination> = Vec::new();
    let mut a: usize = 0;
    assert(store.deep_view() =~= after_actions(table, actions@.take(0)));
    while a < actions.len()
        invariant
            a <= actions.len(),
            actions@ == actions_of(plan_of(table)),
            store.deep_view() == after_actions(table, actions@.take(a as int)),
            terminations.len() == stops(actions@.take(a as int)).len(),
            forall|pid: i32| call_requires(terminate, (pid,)),
            forall|f: int|
                0 <= f < terminations.len() ==> {
                    let termination = #[trigger] terminations@[f];
                    &&& (termination.id, termination.process_id) == stops(
                        actions@.take(a as int),
                    )[f]
                    &&& call_ensures(terminate, (termination.process_id,), termination.outcome)
                },
        decreases actions.len() - a,
    {
        let action = actions[a];
        let ghost done = actions@.take(a as int);
        let ghost next = actions@.take(a as int + 1);
        proof {
            assert(next.drop_last() =~= done);
            assert(next.last() == action);
            assert(next =~= done.push(action));
        }
        match action {
            PauseAction::Terminate { id, process_id } => {
                let outcome = terminate(process_id);
                terminations.push(Termination { id, process_id, outcome });
                proof {
                    assert forall|i: int| 0 <= i < table.len() implies after_actions(
                        table,
                        done,
                    )[i] == after_actions(table, next)[i] by {
                        lemma_marked_one_more(done, next, action, table[i].id);
                    }
                    assert(after_actions(table, done) =~= after_actions(table, next));
                }
            },
            PauseAction::MarkPaused { id } => {
                let ghost before = store.deep_view();
                mark_paused(store, id);
                proof {
                    assert forall|i: int| 0 <= i < table.len() implies mark(before, id)[i]
                        == after_actions(table, next)[i] by {
                        lemma_marked_one_more(done, next, action, table[i].id);
                    }
                    assert(mark(before, id) =~= after_actions(table, next));
                }
            },
        }
        a += 1;
    }
    proof {
        let plan = plan_of(table);
        assert(actions@.take(actions@.len() as int) =~= actions@);
        lemma_actions_stop_workers(plan);
        assert forall|i: int| 0 <= i < table.len() implies after_actions(table, actions@)[i]
            == pause_all(table)[i] by {
            lemma_actions_mark_steps(plan, table[i].id);
            lemma_plan_marks_selected(table, table[i].id);
        }
        assert(after_actions(table, actions@) =~= pause_all(table));
    }
    terminations
}

proof fn lemma_marked_one_more(
    done: Seq<PauseAction>,
    next: Seq<PauseAction>,
    action: PauseAction,
    id: i32,
)
    requires
        next == done.push(action),
    ensures
        is_marked(next, id) <==> is_marked(done, id) || action == (PauseAction::MarkPaused { id }),
{
    if is_marked(done, id) {
        let j = choose|j: int|
            0 <= j < done.len() && #[trigger] done[j] == (PauseAction::MarkPaused { id });
        assert(next[j] == done[j]);
    }
    if action == (PauseAction::MarkPaused { id }) {
        assert(next[done.len() as int] == action);
    }
    if is_marked(next, id) {
        let j = choose|j: int|
            0 <= j < next.len() && #[trigger] next[j] == (PauseAction::MarkPaused { id });
        if j < done.len() {
            assert(done[j] == next[j]);
        }
    }
}

/// Where no two rows share an id, the shutdown sequence pauses exactly the
/// in-flight rows and leaves every other row untouched.
pub proof fn lemma_pause_all_exact(store: Seq<DownloadModel>)
    requires
        unique_ids(store),
    ensures
        pause_all(store) == store.map_values(|record: DownloadModel| after_pause(record)),
{
    let expected = store.map_values(|record: DownloadModel| after_pause(record));
    assert forall|i: int| 0 <= i < store.len() implies pause_all(store)[i] == expected[i] by {
        if selected(store, store[i].id) {
            let j = choose|j: int|
                0 <= j < store.len() && #[trigger] store[j].id == store[i].id
                    && is_ongoing_status(store[j].download_status);
            assert(j == i);
        } else if is_ongoing_status(store[i].download_status) {
            assert(store[i].id == store[i].id);
        }
    }
    assert(pause_all(store) =~= expected);
}

/// Whatever the table held and whatever became of the worker processes, no
/// row is left in flight once the shutdown sequence has run, and only the
/// status of a row can have changed.
pub proof fn lemma_nothing_left_ongoing(store: Seq<DownloadModel>, i: int)
    requires
        0 <= i < store.len(),
    ensures
        !is_ongoing_status(pause_all(store)[i].download_status),
        pause_all(store)[i] == store[i] || pause_all(store)[i] == paused(store[i]),
        is_ongoing_status(store[i].download_status) ==> pause_all(store)[i].download_status
            == "paused"@,
{
    reveal_strlit("paused");
    reveal_strlit("downloading");
    reveal_strlit("starting");
    reveal_strlit("queued");
    assert("paused"@.len() == 6 && "downloading"@.len() == 11 && "starting"@.len() == 8);
    assert("paused"@[0] == 'p' && "queued"@[0] == 'q');
    assert(!is_ongoing_status("paused"@));
    if is_ongoing_status(store[i].download_status) {
        assert(store[i].id == store[i].id);
        assert(selected(store, store[i].id));
    }
}

/// The family of operating systems that decides how a worker is stopped.
#[derive(Clone, Copy, Debug, PartialEq, Eq, Structural)]
pub enum Platform {
    Posix,
    Windows,
}

/// A program and its arguments.
pub struct ProcessCommand {
    pub program: String,
    pub args: Vec<String>,
}

/// The arguments that stop process `pid` on `platform`: an interrupt signal
/// on POSIX systems, a forced kill of the process tree on Windows.
pub open spec fn termination_args(pid: i32, platform: Platform) -> Seq<Seq<char>> {
    match platform {
        Platform::Posix => seq!["-s"@, "SIGINT"@, signed_decimal(pid as int)],
        Platform::Windows => seq!["/PID"@, signed_decimal(pid as int), "/F"@, "/T"@],
    }
}

/// The program that stops a process on `platform`.
pub open spec fn termination_program(platform: Platform) -> Seq<char> {
    match platform {
        Platform::Posix => "kill"@,
        Platform::Windows => "taskkill"@,
    }
}

/// The command that stops the worker process `pid` on `platform`.
pub fn termination_command(pid: i32, platform: Platform) -> (command: ProcessCommand)
    ensures
        command.program@ == termination_program(platform),
        command.args.deep_view() == termination_args(pid, platform),
{
    let number = signed_decimal_string(pid as i64);
    let mut args: Vec<String> = Vec::new();
    match platform {
        Platform::Posix => {
            args.push(String::from_str("-s"));
            args.push(String::from_str("SIGINT"));
            args.push(number);
            assert(args.deep_view() =~= termination_args(pid, platform));
            ProcessCommand { program: String::from_str("kill"), args }
        },
        Platform::Windows => {
            args.push(String::from_str("/PID"));
            args.push(number);
            args.push(String::from_str("/F"));
            args.push(String::from_str("/T"));
            assert(args.deep_view() =~= termination_args(pid, platform));
            ProcessCommand { program: String::from_str("taskkill"), args }
        },
    }
}

} // verus!
