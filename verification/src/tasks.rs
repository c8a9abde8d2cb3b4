//! Tasks and reminders, and how a request from the user becomes one.
use vstd::prelude::*;

verus! {

/// A to-do item.
#[derive(Debug, Clone)]
pub struct Task {
    pub id: String,
    pub title: String,
    pub description: Option<String>,
    pub due_at: Option<String>,
    pub completed: bool,
    pub priority: String,
    pub recurrence_rule: Option<String>,
    pub source_url: Option<String>,
    pub created_at: String,
    pub updated_at: String,
}

/// A request to create a task.
#[derive(Debug, Clone)]
pub struct NewTask {
    pub title: String,
    pub description: Option<String>,
    pub due_at: Option<String>,
    pub priority: Option<String>,
    pub source_url: Option<String>,
}

/// A notification to fire at a given time, possibly tied to a task.
#[derive(Debug, Clone)]
pub struct Reminder {
    pub id: String,
    pub task_id: Option<String>,
    pub fire_at: String,
    pub message: String,
    pub fired: bool,
}

/// A request to create a reminder.
#[derive(Debug, Clone)]
pub struct NewReminder {
    pub task_id: Option<String>,
    pub fire_at: String,
    pub message: String,
}

/// Whether a text has the shape of a hyphenated UUID: 36 characters with
/// hyphens at positions 8, 13, 18 and 23.
pub open spec fn is_hyphenated_uuid(s: Seq<char>) -> bool {
    &&& s.len() == 36
    &&& s[8] == '-'
    &&& s[13] == '-'
    &&& s[18] == '-'
    &&& s[23] == '-'
}

/// The priority a new task gets: the requested one, or `medium`.
pub open spec fn requested_priority(p: Option<String>) -> Seq<char> {
    match p {
        Some(p) => p@,
        None => "medium"@,
    }
}

/// The task made from a request, an id and a creation time.
pub open spec fn task_from_request_spec(req: NewTask, id: String, now: String, t: Task) -> bool {
    &&& t.id == id
    &&& t.title == req.title
    &&& t.description == req.description
    &&& t.due_at == req.due_at
    &&& !t.completed
    &&& t.priority@ == requested_priority(req.priority)
    &&& t.recurrence_rule is None
    &&& t.source_url == req.source_url
    &&& t.created_at == now
    &&& t.updated_at == now
}

/// The reminder made from a request and an id.
pub open spec fn reminder_from_request_spec(req: NewReminder, id: String, r: Reminder) -> bool {
    &&& r.id == id
    &&& r.task_id == req.task_id
    &&& r.fire_at == req.fire_at
    &&& r.message == req.message
    &&& !r.fired
}

/// `uuid::Uuid::new_v4().to_string()`: a random version-4 UUID in hyphenated
/// form. Only its shape is promised.
#[verifier::external_body]
fn new_uuid_v4() -> (res: String)
    ensures
        is_hyphenated_uuid(res@),
{
    uuid::Uuid::new_v4().to_string()
}

/// `chrono::Local::now().to_rfc3339()`: the current local time. Nothing is
/// promised of the text.
#[verifier::external_body]
fn local_now_rfc3339() -> (res: String) {
    chrono::Local::now().to_rfc3339()
}

impl Task {
    /// The task for a request, with the given id and creation time: not
    /// completed, no recurrence, priority `medium` unless one was requested.
    pub fn from_request(req: NewTask, id: String, now: String) -> (res: Task)
        ensures
            task_from_request_spec(req, id, now, res),
    {
        let priority = match req.priority {
            Some(p) => p,
            None => String::from_str("medium"),
        };
        Task {
            id,
            title: req.title,
            description: req.description,
            due_at: req.due_at,
            completed: false,
            priority,
            recurrence_rule: None,
            source_url: req.source_url,
            created_at: now.clone(),
            updated_at: now,
        }
    }

    /// A new task with a fresh random id, created now.
    pub fn new(req: NewTask) -> (res: Task)
        ensures
            exists|id: String, now: String| #[trigger]
                task_from_request_spec(req, id, now, res),
            is_hyphenated_uuid(res.id@),
    {
        let now = local_now_rfc3339();
        let id = new_uuid_v4();
        Task::from_request(req, id, now)
    }
}

impl Reminder {
    /// The reminder for a request with the given id, not yet fired.
    pub fn from_request(req: NewReminder, id: String) -> (res: Reminder)
        ensures
            reminder_from_request_spec(req, id, res),
    {
        Reminder { id, task_id: req.task_id, fire_at: req.fire_at, message: req.message, fired: false }
    }

    /// A new reminder with a fresh random id, not yet fired.
    pub fn new(req: NewReminder) -> (res: Reminder)
        ensures
            exists|id: String| #[trigger] reminder_from_request_spec(req, id, res),
            is_hyphenated_uuid(res.id@),
    {
        let id = new_uuid_v4();
        Reminder::from_request(req, id)
    }
}

/// The position of the first task with the given id.
pub open spec fn first_with_id(tasks: Seq<Task>, id: Seq<char>) -> Option<int>
    decreases tasks.len(),
{
    if tasks.len() == 0 {
        None
    } else if tasks[0].id@ == id {
        Some(0)
    } else {
        match first_with_id(tasks.skip(1), id) {
            Some(i) => Some(i + 1),
            None => None,
        }
    }
}

/// The task marked as completed, all else unchanged.
pub open spec fn completed_version(t: Task) -> Task {
    Task { completed: true, ..t }
}

/// Where the first task with a given id stands: it has that id and no task
/// before it has.
pub proof fn lemma_first_with_id(tasks: Seq<Task>, id: Seq<char>)
    ensures
        match first_with_id(tasks, id) {
            Some(i) => 0 <= i < tasks.len() && tasks[i].id@ == id && forall|j: int|
                0 <= j < i ==> (#[trigger] tasks[j]).id@ != id,
            None => forall|j: int| 0 <= j < tasks.len() ==> (#[trigger] tasks[j]).id@ != id,
        },
    decreases tasks.len(),
{
    if tasks.len() > 0 {
        let rest = tasks.skip(1);
        lemma_first_with_id(rest, id);
        if tasks[0].id@ != id {
            assert forall|j: int| 1 <= j < tasks.len() implies tasks[j] == rest[j - 1] by {}
        }
    }
}

/// A task made from a request keeps what the request asked for: its title,
/// description, due date and link; it is not completed, has no recurrence,
/// and has the requested priority (`medium` when none was asked for).
pub proof fn law_task_keeps_request(req: NewTask, id: String, now: String, t: Task)
    requires
        task_from_request_spec(req, id, now, t),
    ensures
        t.title == req.title,
        t.description == req.description,
        t.due_at == req.due_at,
        t.source_url == req.source_url,
        !t.completed,
        t.recurrence_rule is None,
        req.priority matches Some(p) ==> t.priority@ == p@,
        req.priority is None ==> t.priority@ == "medium"@,
        t.id == id && t.created_at == now && t.updated_at == now,
{
}

/// A reminder made from a request keeps its task, time and message, and has
/// not fired.
pub proof fn law_reminder_keeps_request(req: NewReminder, id: String, r: Reminder)
    requires
        reminder_from_request_spec(req, id, r),
    ensures
        r.id == id,
        r.task_id == req.task_id,
        r.fire_at == req.fire_at,
        r.message == req.message,
        !r.fired,
{
}

/// Marks the first task with the given id as completed and returns it
/// (`None` when no task has that id); every other field is unchanged.
pub fn complete_in(tasks: Vec<Task>, id: &str) -> (res: Option<Task>)
    ensures
        match first_with_id(tasks@, id@) {
            Some(i) => res matches Some(t) && t == completed_version(tasks@[i]),
            None => res is None,
        },
        res is Some <==> exists|i: int| 0 <= i < tasks@.len() && (#[trigger] tasks@[i]).id@ == id@,
        res matches Some(t) ==> exists|i: int|
            0 <= i < tasks@.len() && {
                let u = #[trigger] tasks@[i];
                &&& u.id@ == id@
                &&& forall|j: int| 0 <= j < i ==> tasks@[j].id@ != id@
                &&& t.completed
                &&& t.id == u.id
                &&& t.title == u.title
                &&& t.description == u.description
                &&& t.due_at == u.due_at
                &&& t.priority == u.priority
                &&& t.recurrence_rule == u.recurrence_rule
                &&& t.source_url == u.source_url
                &&& t.created_at == u.created_at
                &&& t.updated_at == u.updated_at
            },
{
    proof {
        lemma_first_with_id(tasks@, id@);
    }
    let ghost all = tasks@;
    let mut list = tasks;
    let mut i: usize = 0;
    assert(all.skip(0) =~= all);
    while i < list.len()
        invariant
            list@ == all,
            all == tasks@,
            0 <= i <= all.len(),
            first_with_id(all, id@) == match first_with_id(all.skip(i as int), id@) {
                Some(k) => Some(k + i),
                None => None::<int>,
            },
        decreases all.len() - i,
    {
        let ghost rest = all.skip(i as int);
        assert(rest[0] == all[i as int]);
        assert(rest.skip(1) =~= all.skip(i + 1));
        if crate::text::str_eq(list[i].id.as_str(), id) {
            assert(rest[0].id@ == id@);
            assert(first_with_id(rest, id@) == Some(0int));
            let mut t = list.remove(i);
            assert(t == all[i as int]);
            t.completed = true;
            assert(first_with_id(all, id@) == Some(i as int));
            assert(t == completed_version(all[i as int]));
            proof {
                lemma_first_with_id(all, id@);
                let u = tasks@[i as int];
                assert(u.id@ == id@);
                assert(forall|j: int| 0 <= j < i ==> tasks@[j].id@ != id@);
            }
            return Some(t);
        }
        i = i + 1;
    }
    None
}

} // verus!
