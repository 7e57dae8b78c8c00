//! Task files: where they lie, what they hold, and how a file of the first
//! layout becomes one of the second.

use vstd::prelude::*;
use crate::host::now_rfc3339;
use crate::paths::{join, task_file_of, tasks_dir_of};
use crate::text::{concat, copy_text, option_text};

verus! {

/// What a task is about.
#[derive(Clone)]
pub struct TaskContext {
    pub description: Option<String>,
    pub business_rules: Vec<String>,
    pub technical_notes: Option<String>,
    pub acceptance_criteria: Option<Vec<String>>,
}

impl Default for TaskContext {
    fn default() -> (context: TaskContext)
        ensures
            context.description is None,
            context.business_rules@.len() == 0,
            context.technical_notes is None,
            context.acceptance_criteria is None,
    {
        TaskContext {
            description: None,
            business_rules: Vec::new(),
            technical_notes: None,
            acceptance_criteria: None,
        }
    }
}

/// One step of a task.
#[derive(Clone)]
pub struct Subtask {
    pub id: String,
    pub title: String,
    pub status: String,
    pub order: i32,
    pub description: Option<String>,
    pub acceptance_criteria: Option<Vec<String>>,
    pub technical_notes: Option<String>,
    pub prompt_context: Option<String>,
    pub created_at: String,
    pub completed_at: Option<String>,
}

/// What the assistant did with a task so far.
#[derive(Clone)]
pub struct AIMetadata {
    pub last_interaction: Option<String>,
    pub session_ids: Vec<String>,
    pub tokens_used: i64,
    pub structuring_complete: bool,
}

impl Default for AIMetadata {
    fn default() -> (metadata: AIMetadata)
        ensures
            metadata.last_interaction is None,
            metadata.session_ids@.len() == 0,
            metadata.tokens_used == 0,
            !metadata.structuring_complete,
    {
        AIMetadata {
            last_interaction: None,
            session_ids: Vec::new(),
            tokens_used: 0,
            structuring_complete: false,
        }
    }
}

/// When a task was created, started and completed.
#[derive(Clone)]
pub struct TaskTimestamps {
    pub created_at: String,
    pub started_at: Option<String>,
    pub completed_at: Option<String>,
}

impl Default for TaskTimestamps {
    fn default() -> (timestamps: TaskTimestamps)
        ensures
            timestamps.created_at@.len() == 0,
            timestamps.started_at is None,
            timestamps.completed_at is None,
    {
        TaskTimestamps { created_at: String::new(), started_at: None, completed_at: None }
    }
}

/// One step of a task in a file of the first layout.
#[derive(Clone)]
pub struct MicrotaskV1 {
    pub id: String,
    pub title: String,
    pub status: String,
    pub prompt_context: Option<String>,
    pub completed_at: Option<String>,
}

/// A task file as read, of either layout.
pub struct TaskFullRaw {
    pub schema_version: i32,
    pub initialized: bool,
    pub id: String,
    pub title: String,
    pub status: String,
    pub priority: i32,
    pub category: String,
    pub complexity: Option<String>,
    pub context: TaskContext,
    pub subtasks: Option<Vec<Subtask>>,
    pub microtasks: Option<Vec<MicrotaskV1>>,
    pub ai_metadata: AIMetadata,
    pub timestamps: TaskTimestamps,
    pub modified_at: Option<String>,
    pub modified_by: Option<String>,
}

/// A task with everything that belongs to it, in the second layout.
#[derive(Clone)]
pub struct TaskFull {
    pub schema_version: i32,
    pub initialized: bool,
    pub id: String,
    pub title: String,
    pub status: String,
    pub priority: i32,
    pub category: String,
    pub complexity: Option<String>,
    pub context: TaskContext,
    pub subtasks: Vec<Subtask>,
    pub ai_metadata: AIMetadata,
    pub timestamps: TaskTimestamps,
    pub modified_at: Option<String>,
    pub modified_by: Option<String>,
}

/// Whether `task` is a new task with the given id, title, priority and
/// category that was created at `now`: pending, not initialized, without
/// steps, last modified by the user at `now`.
pub open spec fn is_new_task(
    task: TaskFull,
    id: Seq<char>,
    title: Seq<char>,
    priority: i32,
    category: Seq<char>,
    now: Seq<char>,
) -> bool {
    &&& task.schema_version == 2
    &&& !task.initialized
    &&& task.id@ == id
    &&& task.title@ == title
    &&& task.status@ == "pending"@
    &&& task.priority == priority
    &&& task.category@ == category
    &&& task.complexity is None
    &&& task.context.description is None
    &&& task.context.business_rules@.len() == 0
    &&& task.context.technical_notes is None
    &&& task.context.acceptance_criteria is None
    &&& task.subtasks@.len() == 0
    &&& task.ai_metadata.last_interaction is None
    &&& task.ai_metadata.session_ids@.len() == 0
    &&& task.ai_metadata.tokens_used == 0
    &&& !task.ai_metadata.structuring_complete
    &&& task.timestamps.created_at@ == now
    &&& task.timestamps.started_at is None
    &&& task.timestamps.completed_at is None
    &&& task.modified_at matches Some(at) && at@ == now
    &&& task.modified_by matches Some(by) && by@ == "user"@
}

impl TaskFull {
    /// A new task, created at `now`.
    pub fn created_at(id: String, title: String, priority: i32, category: String, now: String) -> (task:
        TaskFull)
        ensures
            is_new_task(task, id@, title@, priority, category@, now@),
    {
        TaskFull {
            schema_version: 2,
            initialized: false,
            id,
            title,
            status: "pending".to_owned(),
            priority,
            category,
            complexity: None,
            context: TaskContext::default(),
            subtasks: Vec::new(),
            ai_metadata: AIMetadata::default(),
            timestamps: TaskTimestamps {
                created_at: now.clone(),
                started_at: None,
                completed_at: None,
            },
            modified_at: Some(now),
            modified_by: Some("user".to_owned()),
        }
    }

    /// A new task, created now.
    pub fn new(id: String, title: String, priority: i32, category: String) -> (task: TaskFull)
        ensures
            exists|now: Seq<char>| is_new_task(task, id@, title@, priority, category@, now),
    {
        let now = now_rfc3339();
        let task = TaskFull::created_at(id, title, priority, category, now);
        assert(is_new_task(task, id@, title@, priority, category@, now@));
        task
    }
}

/// The directory that holds the task files of a project.
pub fn get_workopilot_dir(project_path: &str) -> (dir: String)
    ensures
        dir@ == tasks_dir_of(project_path@),
{
    let base = join(project_path, ".workopilot");
    join(base.as_str(), "tasks")
}

/// The file that holds a task of a project.
pub fn get_task_json_path(project_path: &str, task_id: &str) -> (path: String)
    ensures
        path@ == task_file_of(project_path@, task_id@),
{
    let dir = get_workopilot_dir(project_path);
    let name = concat(task_id, ".json");
    join(dir.as_str(), name.as_str())
}

/// Whether `subtask` is the step `microtask` of the first layout, placed at
/// `order` and created at `now`.
pub open spec fn is_converted(subtask: Subtask, microtask: MicrotaskV1, order: i32, now: Seq<char>) -> bool {
    &&& subtask.id@ == microtask.id@
    &&& subtask.title@ == microtask.title@
    &&& subtask.status@ == microtask.status@
    &&& subtask.order == order
    &&& subtask.description is None
    &&& subtask.acceptance_criteria is None
    &&& subtask.technical_notes is None
    &&& option_text(subtask.prompt_context) == option_text(
        microtask.prompt_context,
    )
    &&& subtask.created_at@ == now
    &&& option_text(subtask.completed_at) == option_text(
        microtask.completed_at,
    )
}

/// Turns a step of the first layout into one of the second.
pub fn convert_microtask_to_subtask(microtask: MicrotaskV1, order: i32, now: &str) -> (subtask:
    Subtask)
    ensures
        is_converted(subtask, microtask, order, now@),
{
    Subtask {
        id: microtask.id,
        title: microtask.title,
        status: microtask.status,
        order,
        description: None,
        acceptance_criteria: None,
        technical_notes: None,
        prompt_context: microtask.prompt_context,
        created_at: now.to_owned(),
        completed_at: microtask.completed_at,
    }
}

/// The place of the `i`-th step of a file of the first layout.
pub open spec fn order_of(i: int) -> i32 {
    #[verifier::truncate]
    (i as i32)
}

/// Whether a file that was read has to be written back: a file of the first
/// layout is, once brought to the second.
pub open spec fn needs_rewrite(raw: TaskFullRaw) -> bool {
    raw.schema_version < 2
}

/// Whether `steps` are the steps of the task read as `raw`: its steps where
/// it has some, else its steps of the first layout, converted in order, else
/// none.
pub open spec fn steps_match(steps: Seq<Subtask>, raw: TaskFullRaw, now: Seq<char>) -> bool {
    match (raw.subtasks, raw.microtasks) {
        (Some(subtasks), _) => steps == subtasks@,
        (None, Some(microtasks)) => steps.len() == microtasks@.len() && forall|i: int|
            0 <= i < steps.len() ==> is_converted(
                #[trigger] steps[i],
                microtasks@[i],
                order_of(i),
                now,
            ),
        (None, None) => steps.len() == 0,
    }
}

/// Brings a task file that was read to the second layout. The task keeps
/// what the file says; a file of the first layout counts as structured.
/// The flag says whether the file has to be written back.
pub fn upgrade_task(raw: TaskFullRaw, now: &str) -> (out: (TaskFull, bool))
    ensures
        out.1 == needs_rewrite(raw),
        out.0.schema_version == 2,
        out.0.initialized == raw.initialized,
        out.0.id == raw.id,
        out.0.title == raw.title,
        out.0.status == raw.status,
        out.0.priority == raw.priority,
        out.0.category == raw.category,
        out.0.complexity == raw.complexity,
        out.0.context == raw.context,
        steps_match(out.0.subtasks@, raw, now@),
        out.0.ai_metadata.last_interaction == raw.ai_metadata.last_interaction,
        out.0.ai_metadata.session_ids == raw.ai_metadata.session_ids,
        out.0.ai_metadata.tokens_used == raw.ai_metadata.tokens_used,
        out.0.ai_metadata.structuring_complete == (raw.schema_version < 2
            || raw.ai_metadata.structuring_complete),
        out.0.timestamps == raw.timestamps,
        out.0.modified_at == raw.modified_at,
        out.0.modified_by == raw.modified_by,
{
    let old_layout = raw.schema_version < 2;
    let subtasks = match raw.subtasks {
        Some(subtasks) => subtasks,
        None => match raw.microtasks {
            Some(microtasks) => convert_all(microtasks, now),
            None => Vec::new(),
        },
    };
    let task = TaskFull {
        schema_version: 2,
        initialized: raw.initialized,
        id: raw.id,
        title: raw.title,
        status: raw.status,
        priority: raw.priority,
        category: raw.category,
        complexity: raw.complexity,
        context: raw.context,
        subtasks,
        ai_metadata: AIMetadata {
            last_interaction: raw.ai_metadata.last_interaction,
            session_ids: raw.ai_metadata.session_ids,
            tokens_used: raw.ai_metadata.tokens_used,
            structuring_complete: if old_layout {
                true
            } else {
                raw.ai_metadata.structuring_complete
            },
        },
        timestamps: raw.timestamps,
        modified_at: raw.modified_at,
        modified_by: raw.modified_by,
    };
    (task, old_layout)
}

fn convert_all(microtasks: Vec<MicrotaskV1>, now: &str) -> (steps: Vec<Subtask>)
    ensures
        steps@.len() == microtasks@.len(),
        forall|i: int|
            0 <= i < steps@.len() ==> is_converted(
                #[trigger] steps@[i],
                microtasks@[i],
                order_of(i),
                now@,
            ),
{
    let mut steps: Vec<Subtask> = Vec::new();
    let mut i: usize = 0;
    while i < microtasks.len()
        invariant
            i <= microtasks@.len(),
            steps@.len() == i,
            forall|j: int|
                0 <= j < i ==> is_converted(#[trigger] steps@[j], microtasks@[j], order_of(j), now@),
        decreases microtasks@.len() - i,
    {
        let m = &microtasks[i];
        let copy = MicrotaskV1 {
            id: m.id.clone(),
            title: m.title.clone(),
            status: m.status.clone(),
            prompt_context: copy_text(&m.prompt_context),
            completed_at: copy_text(&m.completed_at),
        };
        let order: i32 = #[verifier::truncate]
        (i as i32);
        steps.push(convert_microtask_to_subtask(copy, order, now));
        i += 1;
    }
    steps
}

} // verus!
