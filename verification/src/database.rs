//! The rows of the local store and the rules around its queries: which
//! columns a store of an older layout still lacks, how a month is cut out
//! of the calendar, when a task is overdue.

use vstd::prelude::*;
use crate::host::now_rfc3339;
use crate::text::{
    chars_of, concat, decimal, lowercase, push_char, str_eq, to_lowercase, u64_to_text,
};

verus! {

/// A project in a list.
#[derive(Clone)]
pub struct Project {
    pub id: String,
    pub name: String,
    pub path: String,
    pub description: Option<String>,
}

/// One directory of a project.
#[derive(Clone)]
pub struct ProjectRoute {
    pub id: String,
    pub path: String,
    pub order: i32,
    pub env_path: Option<String>,
}

/// One tab of a project's terminal session.
#[derive(Clone)]
pub struct TmuxTab {
    pub id: String,
    pub name: String,
    pub route_id: String,
    pub startup_command: Option<String>,
    pub order: i32,
}

/// The terminal session of a project.
#[derive(Clone)]
pub struct TmuxConfig {
    pub session_name: String,
    pub tabs: Vec<TmuxTab>,
}

/// A project with its routes and its session.
#[derive(Clone)]
pub struct ProjectWithConfig {
    pub id: String,
    pub name: String,
    pub path: String,
    pub description: Option<String>,
    pub routes: Vec<ProjectRoute>,
    pub tmux_config: TmuxConfig,
    pub business_rules: String,
    pub tmux_configured: bool,
    pub created_at: String,
}

/// A task in a list.
#[derive(Clone)]
pub struct Task {
    pub id: String,
    pub project_id: Option<String>,
    pub title: String,
    pub description: Option<String>,
    pub priority: i32,
    pub category: String,
    pub status: String,
    pub due_date: Option<String>,
    pub json_path: Option<String>,
    pub created_at: Option<String>,
    pub scheduled_date: Option<String>,
}

/// A task as the calendar shows it.
#[derive(Clone)]
pub struct CalendarTask {
    pub id: String,
    pub title: String,
    pub project_id: Option<String>,
    pub project_name: String,
    pub priority: i32,
    pub category: String,
    pub status: String,
    pub scheduled_date: String,
    pub due_date: Option<String>,
    pub is_overdue: bool,
    pub subtask_count: i32,
    pub subtask_done_count: i32,
}

/// A file that a session touched.
#[derive(Clone)]
pub struct FileModified {
    pub path: String,
    pub action: String,
}

/// The record of one assistant session.
#[derive(Clone)]
pub struct SessionLog {
    pub id: String,
    pub project_name: String,
    pub summary: String,
    pub tokens_total: i32,
    pub files_modified: Vec<FileModified>,
    pub created_at: String,
}

/// What a task is about.
#[derive(Clone)]
pub struct TaskContext {
    pub description: Option<String>,
    pub business_rules: Vec<String>,
    pub technical_notes: Option<String>,
    pub acceptance_criteria: Option<Vec<String>>,
}

impl Default for TaskContext {
    fn default() -> (context: TaskContext)
        ensures
            context.description is None,
            context.business_rules@.len() == 0,
            context.technical_notes is None,
            context.acceptance_criteria is None,
    {
        TaskContext {
            description: None,
            business_rules: Vec::new(),
            technical_notes: None,
            acceptance_criteria: None,
        }
    }
}

/// One step of a task.
#[derive(Clone)]
pub struct Subtask {
    pub id: String,
    pub title: String,
    pub status: String,
    pub order: i32,
    pub description: Option<String>,
    pub acceptance_criteria: Option<Vec<String>>,
    pub technical_notes: Option<String>,
    pub prompt_context: Option<String>,
    pub created_at: String,
    pub completed_at: Option<String>,
}

/// What the assistant did with a task so far.
#[derive(Clone)]
pub struct AIMetadata {
    pub last_interaction: Option<String>,
    pub last_completed_action: Option<String>,
    pub session_ids: Vec<String>,
    pub tokens_used: i64,
    pub structuring_complete: bool,
}

impl Default for AIMetadata {
    fn default() -> (metadata: AIMetadata)
        ensures
            metadata.last_interaction is None,
            metadata.last_completed_action is None,
            metadata.session_ids@.len() == 0,
            metadata.tokens_used == 0,
            !metadata.structuring_complete,
    {
        AIMetadata {
            last_interaction: None,
            last_completed_action: None,
            session_ids: Vec::new(),
            tokens_used: 0,
            structuring_complete: false,
        }
    }
}

/// When a task was created, started and completed.
#[derive(Clone)]
pub struct TaskTimestamps {
    pub created_at: String,
    pub started_at: Option<String>,
    pub completed_at: Option<String>,
}

impl Default for TaskTimestamps {
    fn default() -> (timestamps: TaskTimestamps)
        ensures
            timestamps.created_at@.len() == 0,
            timestamps.started_at is None,
            timestamps.completed_at is None,
    {
        TaskTimestamps { created_at: String::new(), started_at: None, completed_at: None }
    }
}

/// A task with everything that belongs to it.
#[derive(Clone)]
pub struct TaskFull {
    pub schema_version: i32,
    pub initialized: bool,
    pub id: String,
    pub title: String,
    pub status: String,
    pub priority: i32,
    pub category: String,
    pub complexity: Option<String>,
    pub context: TaskContext,
    pub subtasks: Vec<Subtask>,
    pub ai_metadata: AIMetadata,
    pub timestamps: TaskTimestamps,
    pub modified_at: Option<String>,
    pub modified_by: Option<String>,
    pub project_id: Option<String>,
    pub due_date: Option<String>,
    pub scheduled_date: Option<String>,
}

/// Whether `task` is a new task with the given id, title, priority and
/// category that was created at `now`: pending, not initialized, without
/// steps, project or dates, last modified by the user at `now`.
pub open spec fn is_new_task(
    task: TaskFull,
    id: Seq<char>,
    title: Seq<char>,
    priority: i32,
    category: Seq<char>,
    now: Seq<char>,
) -> bool {
    &&& task.schema_version == 2
    &&& !task.initialized
    &&& task.id@ == id
    &&& task.title@ == title
    &&& task.status@ == "pending"@
    &&& task.priority == priority
    &&& task.category@ == category
    &&& task.complexity is None
    &&& task.context.description is None
    &&& task.context.business_rules@.len() == 0
    &&& task.context.technical_notes is None
    &&& task.context.acceptance_criteria is None
    &&& task.subtasks@.len() == 0
    &&& task.ai_metadata.last_interaction is None
    &&& task.ai_metadata.last_completed_action is None
    &&& task.ai_metadata.session_ids@.len() == 0
    &&& task.ai_metadata.tokens_used == 0
    &&& !task.ai_metadata.structuring_complete
    &&& task.timestamps.created_at@ == now
    &&& task.timestamps.started_at is None
    &&& task.timestamps.completed_at is None
    &&& task.modified_at matches Some(at) && at@ == now
    &&& task.modified_by matches Some(by) && by@ == "user"@
    &&& task.project_id is None
    &&& task.due_date is None
    &&& task.scheduled_date is None
}

impl TaskFull {
    /// A new task, created at `now`.
    pub fn created_at(id: String, title: String, priority: i32, category: String, now: String) -> (task:
        TaskFull)
        ensures
            is_new_task(task, id@, title@, priority, category@, now@),
    {
        TaskFull {
            schema_version: 2,
            initialized: false,
            id,
            title,
            status: "pending".to_owned(),
            priority,
            category,
            complexity: None,
            context: TaskContext::default(),
            subtasks: Vec::new(),
            ai_metadata: AIMetadata::default(),
            timestamps: TaskTimestamps {
                created_at: now.clone(),
                started_at: None,
                completed_at: None,
            },
            modified_at: Some(now),
            modified_by: Some("user".to_owned()),
            project_id: None,
            due_date: None,
            scheduled_date: None,
        }
    }

    /// A new task, created now.
    pub fn new(id: String, title: String, priority: i32, category: String) -> (task: TaskFull)
        ensures
            exists|now: Seq<char>| is_new_task(task, id@, title@, priority, category@, now),
    {
        let now = now_rfc3339();
        let task = TaskFull::created_at(id, title, priority, category, now);
        assert(is_new_task(task, id@, title@, priority, category@, now@));
        task
    }
}

/// When a task that takes on `status` at `now` counts as completed: at
/// `now` where the status is `done`, never otherwise.
pub fn completed_at_for(status: &str, now: String) -> (at: Option<String>)
    ensures
        status@ == "done"@ ==> at == Some(now),
        status@ != "done"@ ==> at is None,
{
    if str_eq(status, "done") {
        Some(now)
    } else {
        None
    }
}

/// `n` zeros.
pub open spec fn zeros(n: int) -> Seq<char> {
    Seq::new(
        if n > 0 {
            n as nat
        } else {
            0
        },
        |i: int| '0',
    )
}

/// `i` in decimal, filled up with zeros behind the sign to `width`
/// characters where it has fewer.
pub open spec fn zero_padded(i: int, width: int) -> Seq<char> {
    if i < 0 {
        seq!['-'] + zeros(width - 1 - decimal((-i) as nat).len()) + decimal((-i) as nat)
    } else {
        zeros(width - decimal(i as nat).len()) + decimal(i as nat)
    }
}

/// Computes [`zero_padded`].
pub fn pad_number(i: i32, width: usize) -> (out: String)
    ensures
        out@ == zero_padded(i as int, width as int),
{
    let mut out = String::new();
    let magnitude: u64 = if i < 0 {
        push_char(&mut out, '-');
        (-(i as i64)) as u64
    } else {
        i as u64
    };
    let digits = u64_to_text(magnitude);
    let used: usize = digits.as_str().unicode_len();
    let sign: usize = if i < 0 {
        1
    } else {
        0
    };
    let fill: usize = if width > sign && width - sign > used {
        width - sign - used
    } else {
        0
    };
    let ghost head = out@;
    let mut filled: usize = 0;
    while filled < fill
        invariant
            filled <= fill,
            out@ == head + zeros(filled as int),
        decreases fill - filled,
    {
        push_char(&mut out, '0');
        assert(out@ =~= head + zeros(filled + 1));
        filled += 1;
    }
    out.append(digits.as_str());
    assert(out@ =~= zero_padded(i as int, width as int)) by {
        assert(zeros(fill as int) =~= zeros(width - sign - used));
    }
    out
}

/// The first day of a month, as `YYYY-MM-DD`.
pub open spec fn month_start_of(year: int, month: int) -> Seq<char> {
    zero_padded(year, 4) + "-"@ + zero_padded(month, 2) + "-01"@
}

/// The first day of the month after a month.
pub open spec fn month_end_of(year: int, month: int) -> Seq<char> {
    if month == 12 {
        zero_padded(year + 1, 4) + "-01-01"@
    } else {
        month_start_of(year, month + 1)
    }
}

fn month_start(year: i32, month: i32) -> (day: String)
    ensures
        day@ == month_start_of(year as int, month as int),
{
    let mut day = pad_number(year, 4);
    day.append("-");
    day.append(pad_number(month, 2).as_str());
    day.append("-01");
    day
}

/// The dates between which the scheduled tasks of a month lie: from its
/// first day up to, not including, the first day of the next month.
pub fn month_range(year: i32, month: i32) -> (range: (String, String))
    requires
        month == 12 ==> year < i32::MAX,
        month != 12 ==> month < i32::MAX,
    ensures
        range.0@ == month_start_of(year as int, month as int),
        range.1@ == month_end_of(year as int, month as int),
{
    let start = month_start(year, month);
    let end = if month == 12 {
        let mut day = pad_number(year + 1, 4);
        day.append("-01-01");
        day
    } else {
        month_start(year, month + 1)
    };
    (start, end)
}

/// Whether `a` comes after `b` where texts are ordered character by
/// character, a text before each of its extensions.
pub open spec fn comes_after(a: Seq<char>, b: Seq<char>) -> bool
    decreases a.len(),
{
    if a.len() == 0 {
        false
    } else if b.len() == 0 {
        true
    } else if a[0] != b[0] {
        a[0] as u32 > b[0] as u32
    } else {
        comes_after(a.drop_first(), b.drop_first())
    }
}

/// Computes [`comes_after`].
pub fn is_after(a: &str, b: &str) -> (yes: bool)
    ensures
        yes == comes_after(a@, b@),
{
    let x = chars_of(a);
    let y = chars_of(b);
    let mut i: usize = 0;
    assert(x@.subrange(0, x@.len() as int) =~= x@);
    assert(y@.subrange(0, y@.len() as int) =~= y@);
    while i < x.len() && i < y.len()
        invariant
            i <= x@.len(),
            i <= y@.len(),
            x@ == a@,
            y@ == b@,
            comes_after(x@, y@) == comes_after(
                x@.subrange(i as int, x@.len() as int),
                y@.subrange(i as int, y@.len() as int),
            ),
        decreases x@.len() - i,
    {
        let ghost xs = x@.subrange(i as int, x@.len() as int);
        let ghost ys = y@.subrange(i as int, y@.len() as int);
        assert(xs[0] == x@[i as int] && ys[0] == y@[i as int]);
        assert(xs.drop_first() =~= x@.subrange(i + 1, x@.len() as int));
        assert(ys.drop_first() =~= y@.subrange(i + 1, y@.len() as int));
        if x[i] != y[i] {
            return x[i] as u32 > y[i] as u32;
        }
        i += 1;
    }
    i < x.len()
}

/// Whether a task scheduled for `scheduled` is overdue on `today`: it has
/// a due date, and its schedule or today lies after that date.
pub fn is_overdue(scheduled: &str, due: Option<&str>, today: &str) -> (overdue: bool)
    ensures
        overdue == match due {
            Some(d) => comes_after(scheduled@, d@) || comes_after(today@, d@),
            None => false,
        },
{
    match due {
        Some(d) => is_after(scheduled, d) || is_after(today, d),
        None => false,
    }
}

/// The start of the query for unscheduled tasks.
pub const UNSCHEDULED_SELECT: &'static str =
    "SELECT id, project_id, title, description, priority, category, status, due_date, json_path, created_at, scheduled_date
             FROM tasks
             WHERE scheduled_date IS NULL AND status != 'done'";

/// The order of the unscheduled tasks.
pub const UNSCHEDULED_ORDER: &'static str =
    " ORDER BY priority ASC, due_date ASC NULLS LAST, created_at DESC";

/// The number of the parameter that follows `taken` others.
pub open spec fn parameter_after(taken: int) -> Seq<char> {
    decimal((taken + 1) as nat)
}

/// The query for unscheduled tasks, narrowed by project, category and
/// priority as asked. The parameters are numbered in this order, those
/// that are not asked for left out.
pub open spec fn unscheduled_query_of(by_project: bool, by_category: bool, by_priority: bool) -> Seq<
    char,
> {
    let p: int = if by_project {
        1
    } else {
        0
    };
    let c: int = if by_category {
        1
    } else {
        0
    };
    UNSCHEDULED_SELECT@ + (if by_project {
        " AND project_id = ?1"@
    } else {
        Seq::empty()
    }) + (if by_category {
        " AND category = ?"@ + parameter_after(p)
    } else {
        Seq::empty()
    }) + (if by_priority {
        " AND priority = ?"@ + parameter_after(p + c)
    } else {
        Seq::empty()
    }) + UNSCHEDULED_ORDER@
}

/// Computes [`unscheduled_query_of`].
pub fn unscheduled_query(by_project: bool, by_category: bool, by_priority: bool) -> (query: String)
    ensures
        query@ == unscheduled_query_of(by_project, by_category, by_priority),
{
    let p: u64 = if by_project {
        1
    } else {
        0
    };
    let c: u64 = if by_category {
        1
    } else {
        0
    };
    let mut query = UNSCHEDULED_SELECT.to_owned();
    if by_project {
        query.append(" AND project_id = ?1");
    }
    if by_category {
        query.append(" AND category = ?");
        query.append(u64_to_text(p + 1).as_str());
    }
    if by_priority {
        query.append(" AND priority = ?");
        query.append(u64_to_text(p + c + 1).as_str());
    }
    query.append(UNSCHEDULED_ORDER);
    assert(query@ =~= unscheduled_query_of(by_project, by_category, by_priority));
    query
}

/// A column that a table of an older layout may lack.
pub struct Migration {
    /// The column's name.
    pub column: &'static str,
    /// The column's type, with its default where it has one.
    pub definition: &'static str,
}

/// Whether `columns` holds a column named `name`.
pub open spec fn has_column(columns: Seq<String>, name: Seq<char>) -> bool {
    exists|i: int| 0 <= i < columns.len() && (#[trigger] columns[i])@ == name
}

/// The statement that adds a column to `table`.
pub open spec fn statement_of(table: Seq<char>, column: Seq<char>, definition: Seq<char>) -> Seq<
    char,
> {
    "ALTER TABLE "@ + table + " ADD COLUMN "@ + column + " "@ + definition
}

/// The statements that add to `table` those columns of `migrations` that
/// `columns` lacks, in order.
pub open spec fn pending_of(table: Seq<char>, migrations: Seq<Migration>, columns: Seq<String>) -> Seq<
    Seq<char>,
>
    decreases migrations.len(),
{
    if migrations.len() == 0 {
        Seq::empty()
    } else if has_column(columns, migrations.last().column@) {
        pending_of(table, migrations.drop_last(), columns)
    } else {
        pending_of(table, migrations.drop_last(), columns).push(
            statement_of(table, migrations.last().column@, migrations.last().definition@),
        )
    }
}

/// Whether `m` adds the column `column` with `definition`.
pub open spec fn adds(m: Migration, column: Seq<char>, definition: Seq<char>) -> bool {
    m.column@ == column && m.definition@ == definition
}

/// The columns that the task table gained over time.
pub fn task_migrations() -> (migrations: Vec<Migration>)
    ensures
        migrations@.len() == 11,
        adds(migrations@[0], "complexity"@, "TEXT"@),
        adds(migrations@[1], "initialized"@, "INTEGER DEFAULT 0"@),
        adds(migrations@[2], "schema_version"@, "INTEGER DEFAULT 2"@),
        adds(migrations@[3], "context_description"@, "TEXT"@),
        adds(migrations@[4], "context_business_rules"@, "TEXT"@),
        adds(migrations@[5], "context_technical_notes"@, "TEXT"@),
        adds(migrations@[6], "context_acceptance_criteria"@, "TEXT"@),
        adds(migrations@[7], "ai_metadata"@, "TEXT"@),
        adds(migrations@[8], "timestamps_started_at"@, "TEXT"@),
        adds(migrations@[9], "modified_at"@, "TEXT"@),
        adds(migrations@[10], "modified_by"@, "TEXT"@),
{
    let mut migrations: Vec<Migration> = Vec::new();
    migrations.push(Migration { column: "complexity", definition: "TEXT" });
    migrations.push(Migration { column: "initialized", definition: "INTEGER DEFAULT 0" });
    migrations.push(Migration { column: "schema_version", definition: "INTEGER DEFAULT 2" });
    migrations.push(Migration { column: "context_description", definition: "TEXT" });
    migrations.push(Migration { column: "context_business_rules", definition: "TEXT" });
    migrations.push(Migration { column: "context_technical_notes", definition: "TEXT" });
    migrations.push(Migration { column: "context_acceptance_criteria", definition: "TEXT" });
    migrations.push(Migration { column: "ai_metadata", definition: "TEXT" });
    migrations.push(Migration { column: "timestamps_started_at", definition: "TEXT" });
    migrations.push(Migration { column: "modified_at", definition: "TEXT" });
    migrations.push(Migration { column: "modified_by", definition: "TEXT" });
    migrations
}

fn contains_column(columns: &Vec<String>, name: &str) -> (yes: bool)
    ensures
        yes == has_column(columns@, name@),
{
    let mut i: usize = 0;
    while i < columns.len()
        invariant
            i <= columns@.len(),
            forall|j: int| 0 <= j < i ==> (#[trigger] columns@[j])@ != name@,
        decreases columns@.len() - i,
    {
        if str_eq(columns[i].as_str(), name) {
            return true;
        }
        i += 1;
    }
    false
}

fn statement(table: &str, migration: &Migration) -> (text: String)
    ensures
        text@ == statement_of(table@, migration.column@, migration.definition@),
{
    let mut text = concat("ALTER TABLE ", table);
    text.append(" ADD COLUMN ");
    text.append(migration.column);
    text.append(" ");
    text.append(migration.definition);
    text
}

/// The statements that bring a table with `columns` up to date.
pub fn pending_migrations(table: &str, migrations: &Vec<Migration>, columns: &Vec<String>) -> (statements:
    Vec<String>)
    ensures
        statements.deep_view() == pending_of(table@, migrations@, columns@),
{
    let mut statements: Vec<String> = Vec::new();
    let mut i: usize = 0;
    assert(migrations@.take(0) =~= Seq::<Migration>::empty());
    assert(statements.deep_view() =~= Seq::<Seq<char>>::empty());
    while i < migrations.len()
        invariant
            i <= migrations@.len(),
            statements.deep_view() == pending_of(table@, migrations@.take(i as int), columns@),
        decreases migrations@.len() - i,
    {
        proof {
            assert(migrations@.take(i + 1).drop_last() =~= migrations@.take(i as int));
            assert(migrations@.take(i + 1).last() == migrations@[i as int]);
        }
        if !contains_column(columns, migrations[i].column) {
            let ghost before = statements.deep_view();
            let text = statement(table, &migrations[i]);
            statements.push(text);
            assert(statements.deep_view() =~= before.push(text@));
        }
        i += 1;
    }
    assert(migrations@.take(i as int) =~= migrations@);
    statements
}

/// `s` with a hyphen for every space.
pub open spec fn dashed(s: Seq<char>) -> Seq<char> {
    Seq::new(
        s.len(),
        |i: int|
            if s[i] == ' ' {
                '-'
            } else {
                s[i]
            },
    )
}

/// The name of the session that a new project named `name` gets: the name
/// in lower case, a hyphen for every space.
pub fn default_session_name(name: &str) -> (session: String)
    ensures
        session@ == dashed(lowercase(name@)),
{
    let lower = to_lowercase(name);
    let chars = chars_of(lower.as_str());
    let mut session = String::new();
    let mut i: usize = 0;
    while i < chars.len()
        invariant
            i <= chars@.len(),
            chars@ == lowercase(name@),
            session@ == dashed(chars@).take(i as int),
        decreases chars@.len() - i,
    {
        let c = if chars[i] == ' ' {
            '-'
        } else {
            chars[i]
        };
        push_char(&mut session, c);
        assert(session@ =~= dashed(chars@).take(i + 1));
        i += 1;
    }
    assert(dashed(chars@).take(i as int) =~= dashed(chars@));
    session
}

} // verus!
