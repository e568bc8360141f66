//! The tasks a browsing service runs: their record, how steps, completion
//! and failure are recorded, and the events streamed to a client. Driving
//! the browser and streaming are done by the caller.

use vstd::prelude::*;
use crate::encode::{json_quote, json_string};
use crate::text::{concat, str_eq, views};

verus! {

/// How far a task has come.
#[derive(Debug, Clone, Copy, PartialEq, Eq, Structural)]
pub enum TaskState {
    Pending,
    Running,
    Completed,
    Failed,
}

/// One recorded step of a task; `timestamp` is in milliseconds since the Unix epoch.
#[derive(Debug, Clone)]
pub struct TaskStep {
    pub name: String,
    pub result: String,
    pub timestamp: i64,
}

/// A task of a session.
#[derive(Debug, Clone)]
pub struct Task {
    pub task_id: String,
    pub session_id: String,
    pub content: String,
    pub state: TaskState,
    pub steps: Vec<TaskStep>,
    pub created_at: i64,
    pub updated_at: i64,
}

/// Current time in milliseconds since the Unix epoch. It reads the clock,
/// so nothing is promised of it.
#[verifier::external_body]
pub(crate) fn now_millis() -> i64 {
    chrono::Utc::now().timestamp_millis()
}

/// The tasks, each under its own id.
#[derive(Debug)]
pub struct TaskStore {
    tasks: Vec<Task>,
}

/// Whether no two tasks share an id.
pub open spec fn distinct_ids(t: Seq<Task>) -> bool {
    forall|a: int, b: int| 0 <= a < b < t.len() ==> (#[trigger] t[a]).task_id@ != (#[trigger] t[b]).task_id@
}

/// The position of the task with id `id`, if any.
pub open spec fn position_of(t: Seq<Task>, id: Seq<char>) -> Option<int> {
    if exists|i: int| 0 <= i < t.len() && (#[trigger] t[i]).task_id@ == id {
        Some(choose|i: int| 0 <= i < t.len() && (#[trigger] t[i]).task_id@ == id)
    } else {
        None
    }
}

impl TaskStore {
    /// The tasks by id.
    pub closed spec fn tasks(&self) -> Map<Seq<char>, Task> {
        Map::new(
            |id: Seq<char>| position_of(self.tasks@, id) is Some,
            |id: Seq<char>| self.tasks@[position_of(self.tasks@, id)->0],
        )
    }

    /// Whether no two tasks share an id.
    pub closed spec fn wf(&self) -> bool {
        distinct_ids(self.tasks@)
    }

    /// No tasks.
    pub fn new() -> (s: TaskStore)
        ensures
            s.wf(),
            s.tasks() == Map::<Seq<char>, Task>::empty(),
    {
        let s = TaskStore { tasks: Vec::new() };
        assert(s.tasks() =~= Map::<Seq<char>, Task>::empty());
        s
    }

    fn find(&self, id: &str) -> (r: Option<usize>)
        requires
            self.wf(),
        ensures
            r matches Some(i) ==> i < self.tasks@.len() && self.tasks@[i as int].task_id@ == id@ && position_of(self.tasks@, id@)
                == Some(i as int),
            r is None ==> position_of(self.tasks@, id@) is None,
    {
        let mut i: usize = 0;
        while i < self.tasks.len()
            invariant
                i <= self.tasks@.len(),
                distinct_ids(self.tasks@),
                forall|j: int| 0 <= j < i ==> (#[trigger] self.tasks@[j]).task_id@ != id@,
            decreases self.tasks@.len() - i,
        {
            if str_eq(self.tasks[i].task_id.as_str(), id) {
                proof {
                    let c = choose|c: int| 0 <= c < self.tasks@.len() && (#[trigger] self.tasks@[c]).task_id@ == id@;
                    if c != i {
                        assert(self.tasks@[c].task_id@ == self.tasks@[i as int].task_id@);
                    }
                }
                return Some(i);
            }
            i = i + 1;
        }
        None
    }

    /// Records a task under its id, replacing a task with the same id.
    pub fn insert(&mut self, task: Task)
        requires
            old(self).wf(),
        ensures
            final(self).wf(),
            final(self).tasks() == old(self).tasks().insert(task.task_id@, task),
    {
        let ghost old_t = self.tasks@;
        match self.find(task.task_id.as_str()) {
            Some(i) => {
                self.tasks.set(i, task);
                proof {
                    let t = self.tasks@;
                    assert forall|a: int, b: int| 0 <= a < b < t.len() implies (#[trigger] t[a]).task_id@ != (#[trigger] t[b]).task_id@ by {
                        assert(old_t[a].task_id@ != old_t[b].task_id@);
                    }
                    assert forall|id: Seq<char>| #[trigger] position_of(t, id) == position_of(old_t, id) by {
                        if exists|j: int| 0 <= j < t.len() && (#[trigger] t[j]).task_id@ == id {
                            let j = choose|j: int| 0 <= j < t.len() && (#[trigger] t[j]).task_id@ == id;
                            assert(old_t[j].task_id@ == id);
                            let c = choose|c: int| 0 <= c < old_t.len() && (#[trigger] old_t[c]).task_id@ == id;
                            let d = choose|d: int| 0 <= d < t.len() && (#[trigger] t[d]).task_id@ == id;
                            if c != d {
                                assert(t[c].task_id@ == id);
                            }
                        } else {
                            if exists|j: int| 0 <= j < old_t.len() && (#[trigger] old_t[j]).task_id@ == id {
                                let j = choose|j: int| 0 <= j < old_t.len() && (#[trigger] old_t[j]).task_id@ == id;
                                assert(t[j].task_id@ == id);
                            }
                        }
                    }
                    assert(self.tasks() =~= old(self).tasks().insert(task.task_id@, task));
                }
            },
            None => {
                let ghost k = task.task_id@;
                let ghost tk = task;
                self.tasks.push(task);
                proof {
                    let t = self.tasks@;
                    let n = old_t.len() as int;
                    assert forall|a: int, b: int| 0 <= a < b < t.len() implies (#[trigger] t[a]).task_id@ != (#[trigger] t[b]).task_id@ by {
                        if b < n {
                            assert(old_t[a].task_id@ != old_t[b].task_id@);
                        } else {
                            assert(t[a] == old_t[a]);
                        }
                    }
                    assert forall|id: Seq<char>| id != k implies #[trigger] position_of(t, id) == position_of(old_t, id) by {
                        if exists|j: int| 0 <= j < t.len() && (#[trigger] t[j]).task_id@ == id {
                            let j = choose|j: int| 0 <= j < t.len() && (#[trigger] t[j]).task_id@ == id;
                            assert(j < n);
                            assert(t[j] == old_t[j]);
                            assert(old_t[j].task_id@ == id);
                            let c = choose|c: int| 0 <= c < old_t.len() && (#[trigger] old_t[c]).task_id@ == id;
                            let d = choose|d: int| 0 <= d < t.len() && (#[trigger] t[d]).task_id@ == id;
                            assert(t[c] == old_t[c]);
                            if c != d {
                                assert(t[c].task_id@ == id);
                            }
                        } else {
                            if exists|j: int| 0 <= j < old_t.len() && (#[trigger] old_t[j]).task_id@ == id {
                                let j = choose|j: int| 0 <= j < old_t.len() && (#[trigger] old_t[j]).task_id@ == id;
                                assert(t[j] == old_t[j]);
                                assert(t[j].task_id@ == id);
                            }
                        }
                    }
                    assert(t[n].task_id@ == k);
                    assert(position_of(t, k) == Some(n)) by {
                        let d = choose|d: int| 0 <= d < t.len() && (#[trigger] t[d]).task_id@ == k;
                        if d != n {
                            assert(t[d].task_id@ != t[n].task_id@);
                        }
                    }
                    assert(self.tasks() =~= old(self).tasks().insert(k, tk));
                }
            },
        }
    }

    /// The task with id `task_id`, if any.
    pub fn get(&self, task_id: &str) -> (r: Option<&Task>)
        requires
            self.wf(),
        ensures
            r is Some <==> self.tasks().dom().contains(task_id@),
            r matches Some(t) ==> *t == self.tasks()[task_id@],
    {
        match self.find(task_id) {
            Some(i) => Some(&self.tasks[i]),
            None => None,
        }
    }

    /// Applies a change to the task with id `task_id`: sets its state when
    /// one is given, adds a step when one is given, and stamps the update.
    /// Nothing happens when there is no such task.
    fn change(&mut self, task_id: &str, state: Option<TaskState>, step: Option<(String, String)>)
        requires
            old(self).wf(),
        ensures
            final(self).wf(),
            final(self).tasks().dom() == old(self).tasks().dom(),
            forall|id: Seq<char>| id != task_id@ && #[trigger] old(self).tasks().dom().contains(id) ==> final(self).tasks()[id]
                == old(self).tasks()[id],
            old(self).tasks().dom().contains(task_id@) ==> {
                let before = old(self).tasks()[task_id@];
                let after = final(self).tasks()[task_id@];
                &&& after.task_id == before.task_id
                &&& after.session_id == before.session_id
                &&& after.content == before.content
                &&& after.created_at == before.created_at
                &&& after.state == (match state {
                    Some(s) => s,
                    None => before.state,
                })
                &&& match step {
                    Some((n, r)) => after.steps@.len() == before.steps@.len() + 1 && after.steps@.drop_last()
                        == before.steps@ && after.steps@.last().name@ == n@ && after.steps@.last().result@ == r@,
                    None => after.steps@ == before.steps@,
                }
            },
    {
        let ghost old_t = self.tasks@;
        match self.find(task_id) {
            None => {},
            Some(i) => {
                let mut t = self.tasks.remove(i);
                let ghost before = t;
                match state {
                    Some(s) => {
                        t.state = s;
                    },
                    None => {},
                }
                match step {
                    Some((name, result)) => {
                        let ts = now_millis();
                        t.steps.push(TaskStep { name, result, timestamp: ts });
                        assert(t.steps@.drop_last() =~= before.steps@);
                    },
                    None => {},
                }
                t.updated_at = now_millis();
                self.tasks.insert(i, t);
                proof {
                    let nt = self.tasks@;
                    assert(nt =~= old_t.update(i as int, t));
                    assert forall|a: int, b: int| 0 <= a < b < nt.len() implies (#[trigger] nt[a]).task_id@ != (#[trigger] nt[b]).task_id@ by {
                        assert(old_t[a].task_id@ != old_t[b].task_id@);
                    }
                    assert forall|id: Seq<char>| #[trigger] position_of(nt, id) == position_of(old_t, id) by {
                        if exists|j: int| 0 <= j < nt.len() && (#[trigger] nt[j]).task_id@ == id {
                            let j = choose|j: int| 0 <= j < nt.len() && (#[trigger] nt[j]).task_id@ == id;
                            assert(old_t[j].task_id@ == id);
                            let c = choose|c: int| 0 <= c < old_t.len() && (#[trigger] old_t[c]).task_id@ == id;
                            let d = choose|d: int| 0 <= d < nt.len() && (#[trigger] nt[d]).task_id@ == id;
                            if c != d {
                                assert(nt[c].task_id@ == id);
                            }
                        } else {
                            if exists|j: int| 0 <= j < old_t.len() && (#[trigger] old_t[j]).task_id@ == id {
                                let j = choose|j: int| 0 <= j < old_t.len() && (#[trigger] old_t[j]).task_id@ == id;
                                assert(nt[j].task_id@ == id);
                            }
                        }
                    }
                    assert(self.tasks().dom() =~= old(self).tasks().dom());
                }
            },
        }
    }

    /// Adds a step with its result to the task, if there is one.
    pub fn push_step(&mut self, task_id: &str, name: String, result: String)
        requires
            old(self).wf(),
        ensures
            final(self).wf(),
            final(self).tasks().dom() == old(self).tasks().dom(),
            forall|id: Seq<char>| id != task_id@ && #[trigger] old(self).tasks().dom().contains(id) ==> final(self).tasks()[id]
                == old(self).tasks()[id],
            old(self).tasks().dom().contains(task_id@) ==> {
                let before = old(self).tasks()[task_id@];
                let after = final(self).tasks()[task_id@];
                &&& after.state == before.state
                &&& after.steps@.len() == before.steps@.len() + 1
                &&& after.steps@.drop_last() == before.steps@
                &&& after.steps@.last().name@ == name@
                &&& after.steps@.last().result@ == result@
            },
    {
        self.change(task_id, None, Some((name, result)));
    }

    /// Marks the task completed, if there is one.
    pub fn update_complete(&mut self, task_id: &str)
        requires
            old(self).wf(),
        ensures
            final(self).wf(),
            final(self).tasks().dom() == old(self).tasks().dom(),
            forall|id: Seq<char>| id != task_id@ && #[trigger] old(self).tasks().dom().contains(id) ==> final(self).tasks()[id]
                == old(self).tasks()[id],
            old(self).tasks().dom().contains(task_id@) ==> {
                let before = old(self).tasks()[task_id@];
                let after = final(self).tasks()[task_id@];
                &&& after.state == TaskState::Completed
                &&& after.steps@ == before.steps@
            },
    {
        self.change(task_id, Some(TaskState::Completed), None);
    }

    /// Marks the task failed and records the error as a step named `error`,
    /// if there is such a task.
    pub fn update_fail(&mut self, task_id: &str, err: String)
        requires
            old(self).wf(),
        ensures
            final(self).wf(),
            final(self).tasks().dom() == old(self).tasks().dom(),
            forall|id: Seq<char>| id != task_id@ && #[trigger] old(self).tasks().dom().contains(id) ==> final(self).tasks()[id]
                == old(self).tasks()[id],
            old(self).tasks().dom().contains(task_id@) ==> {
                let before = old(self).tasks()[task_id@];
                let after = final(self).tasks()[task_id@];
                &&& after.state == TaskState::Failed
                &&& after.steps@.len() == before.steps@.len() + 1
                &&& after.steps@.drop_last() == before.steps@
                &&& after.steps@.last().name@ == "error"@
                &&& after.steps@.last().result@ == err@
            },
    {
        self.change(task_id, Some(TaskState::Failed), Some((String::from_str("error"), err)));
    }
}

/// The event streamed when a task fails.
pub open spec fn error_event_spec(message: Seq<char>) -> Seq<char> {
    "{\"type\":\"error\",\"message\":"@ + json_string(message) + "}"@
}

/// The event streamed when a task fails (see `error_event_spec`).
pub fn error_event(message: &str) -> (r: String)
    ensures
        r@ == error_event_spec(message@),
{
    let q = json_quote(message);
    let mut r = String::from_str("{\"type\":\"error\",\"message\":");
    r.append(q.as_str());
    r.append("}");
    r
}

/// The event streamed when a task records a step.
pub open spec fn step_event_spec(name: Seq<char>, result: Seq<char>) -> Seq<char> {
    "{\"type\":\"step\",\"name\":\""@ + name + "\",\"result\":"@ + json_string(result) + "}"@
}

/// The event streamed when a task records a step (see `step_event_spec`).
pub fn step_event(name: &str, result: &str) -> (r: String)
    ensures
        r@ == step_event_spec(name@, result@),
{
    let q = json_quote(result);
    let mut r = String::from_str("{\"type\":\"step\",\"name\":\"");
    r.append(name);
    r.append("\",\"result\":");
    r.append(q.as_str());
    r.append("}");
    r
}

/// The event streamed when a task completes.
pub fn completed_event() -> (r: String)
    ensures
        r@ == "{\"type\":\"state\",\"value\":\"Completed\"}"@,
{
    String::from_str("{\"type\":\"state\",\"value\":\"Completed\"}")
}

/// Records a failure of the task's run (`stage` names what failed, such as
/// `connect`) and returns the event to stream.
pub fn fail_run(store: &mut TaskStore, task_id: &str, stage: &str, err: &str) -> (event: String)
    requires
        old(store).wf(),
    ensures
        final(store).wf(),
        event@ == error_event_spec(stage@ + " error: "@ + err@),
        old(store).tasks().dom().contains(task_id@) ==> {
            let before = old(store).tasks()[task_id@];
            let after = final(store).tasks()[task_id@];
            &&& after.state == TaskState::Failed
            &&& after.steps@.len() == before.steps@.len() + 1
            &&& after.steps@.drop_last() == before.steps@
            &&& after.steps@.last().name@ == "error"@
            &&& after.steps@.last().result@ == stage@ + " error: "@ + err@
        },
        final(store).tasks().dom() == old(store).tasks().dom(),
        forall|id: Seq<char>| id != task_id@ && #[trigger] old(store).tasks().dom().contains(id) ==> final(store).tasks()[id]
            == old(store).tasks()[id],
{
    let mut message = concat(stage, " error: ");
    message.append(err);
    let event = error_event(message.as_str());
    store.update_fail(task_id, message);
    event
}

/// How a task's browser run ended: a stage failed with an error, or the
/// page opened at the given URL.
pub enum RunOutcome {
    Failed { stage: String, error: String },
    Opened(String),
}

/// The events streamed for a run's outcome.
pub open spec fn run_events_spec(outcome: RunOutcome) -> Seq<Seq<char>> {
    match outcome {
        RunOutcome::Failed { stage, error } => seq![error_event_spec(stage@ + " error: "@ + error@)],
        RunOutcome::Opened(u) => seq![step_event_spec("open"@, u@), "{\"type\":\"state\",\"value\":\"Completed\"}"@],
    }
}

/// Records how a task's run ended and returns the events to stream: a
/// failure leaves the task Failed after an `error` step, an opened page
/// leaves it Completed after an `open` step holding the page's URL. No
/// other task changes, and every recorded task stays recorded.
pub fn record_run(store: &mut TaskStore, task_id: &str, outcome: RunOutcome) -> (events: Vec<String>)
    requires
        old(store).wf(),
    ensures
        final(store).wf(),
        views(events@) == run_events_spec(outcome),
        final(store).tasks().dom() == old(store).tasks().dom(),
        forall|id: Seq<char>| id != task_id@ && #[trigger] old(store).tasks().dom().contains(id) ==> final(store).tasks()[id]
            == old(store).tasks()[id],
        old(store).tasks().dom().contains(task_id@) ==> {
            let before = old(store).tasks()[task_id@];
            let after = final(store).tasks()[task_id@];
            &&& after.steps@.len() == before.steps@.len() + 1
            &&& after.steps@.drop_last() == before.steps@
            &&& match outcome {
                RunOutcome::Failed { stage, error } => {
                    &&& after.state == TaskState::Failed
                    &&& after.steps@.last().name@ == "error"@
                    &&& after.steps@.last().result@ == stage@ + " error: "@ + error@
                },
                RunOutcome::Opened(u) => {
                    &&& after.state == TaskState::Completed
                    &&& after.steps@.last().name@ == "open"@
                    &&& after.steps@.last().result@ == u@
                },
            }
        },
{
    let mut events: Vec<String> = Vec::new();
    match outcome {
        RunOutcome::Failed { stage, error } => {
            let e = fail_run(store, task_id, stage.as_str(), error.as_str());
            events.push(e);
        },
        RunOutcome::Opened(u) => {
            let ev = step_event("open", u.as_str());
            store.push_step(task_id, String::from_str("open"), u);
            store.update_complete(task_id);
            events.push(ev);
            events.push(completed_event());
        },
    }
    proof {
        assert(views(events@) =~= run_events_spec(outcome));
    }
    events
}

} // verus!
