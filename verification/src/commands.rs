//! What the command layer exchanges with the UI and the worker, and the
//! rules it applies on the way: the workflow hint for a task list, the
//! prompts handed to the coding assistant, and the checks on task images.

use vstd::prelude::*;
use crate::host::fresh_uuid;
use crate::text::{concat, copy_text, decimal, lowercase, option_text, str_eq, to_lowercase, u64_to_text};

verus! {

/// A project as the worker reports it.
#[derive(Clone, Debug)]
pub struct Project {
    pub id: String,
    pub name: String,
    pub path: String,
    pub description: Option<String>,
    pub display_order: i32,
    pub routes: Vec<ProjectRoute>,
    pub tmux_config: Option<TmuxConfig>,
    pub business_rules: Option<String>,
    pub tmux_configured: bool,
    pub created_at: Option<String>,
    pub color: Option<String>,
}

/// One directory of a project.
#[derive(Clone, Debug)]
pub struct ProjectRoute {
    pub id: String,
    pub path: String,
    pub order: i32,
    pub env_path: Option<String>,
}

/// One tab of a project's terminal session.
#[derive(Clone, Debug)]
pub struct TmuxTab {
    pub id: String,
    pub name: String,
    pub route_id: String,
    pub startup_command: Option<String>,
    pub order: i32,
}

/// The terminal session of a project.
#[derive(Clone, Debug)]
pub struct TmuxConfig {
    pub session_name: String,
    pub tabs: Vec<TmuxTab>,
}

/// A task in a list.
#[derive(Clone, Debug)]
pub struct Task {
    pub id: String,
    pub project_id: Option<String>,
    pub title: String,
    pub description: Option<String>,
    pub priority: i32,
    pub category: String,
    pub status: String,
    pub due_date: Option<String>,
    pub scheduled_date: Option<String>,
    pub created_at: Option<String>,
}

/// A task with everything that belongs to it.
#[derive(Clone, Debug)]
pub struct TaskFull {
    pub schema_version: i32,
    pub initialized: bool,
    pub id: String,
    pub title: String,
    pub status: String,
    pub priority: i32,
    pub category: String,
    pub complexity: Option<String>,
    pub context: TaskContext,
    pub subtasks: Vec<Subtask>,
    pub ai_metadata: AIMetadata,
    pub timestamps: TaskTimestamps,
    pub modified_at: Option<String>,
    pub modified_by: Option<String>,
    pub project_id: Option<String>,
    pub due_date: Option<String>,
    pub scheduled_date: Option<String>,
}

/// What a task is about.
#[derive(Clone, Debug)]
pub struct TaskContext {
    pub description: Option<String>,
    pub business_rules: Vec<String>,
    pub technical_notes: Option<String>,
    pub acceptance_criteria: Option<Vec<String>>,
}

impl Default for TaskContext {
    fn default() -> (context: TaskContext)
        ensures
            context.description is None,
            context.business_rules@.len() == 0,
            context.technical_notes is None,
            context.acceptance_criteria is None,
    {
        TaskContext {
            description: None,
            business_rules: Vec::new(),
            technical_notes: None,
            acceptance_criteria: None,
        }
    }
}

/// One step of a task.
#[derive(Clone, Debug)]
pub struct Subtask {
    pub id: String,
    pub task_id: Option<String>,
    pub title: String,
    pub status: String,
    pub order: i32,
    pub description: Option<String>,
    pub acceptance_criteria: Option<Vec<String>>,
    pub technical_notes: Option<String>,
    pub prompt_context: Option<String>,
    pub created_at: Option<String>,
    pub completed_at: Option<String>,
}

/// What the assistant did with a task so far.
#[derive(Clone, Debug)]
pub struct AIMetadata {
    pub last_interaction: Option<String>,
    pub last_completed_action: Option<String>,
    pub session_ids: Vec<String>,
    pub tokens_used: i64,
    pub structuring_complete: bool,
}

impl Default for AIMetadata {
    fn default() -> (metadata: AIMetadata)
        ensures
            metadata.last_interaction is None,
            metadata.last_completed_action is None,
            metadata.session_ids@.len() == 0,
            metadata.tokens_used == 0,
            !metadata.structuring_complete,
    {
        AIMetadata {
            last_interaction: None,
            last_completed_action: None,
            session_ids: Vec::new(),
            tokens_used: 0,
            structuring_complete: false,
        }
    }
}

/// When a task was created, started and completed.
#[derive(Clone, Debug)]
pub struct TaskTimestamps {
    pub created_at: String,
    pub started_at: Option<String>,
    pub completed_at: Option<String>,
}

impl Default for TaskTimestamps {
    fn default() -> (timestamps: TaskTimestamps)
        ensures
            timestamps.created_at@.len() == 0,
            timestamps.started_at is None,
            timestamps.completed_at is None,
    {
        TaskTimestamps { created_at: String::new(), started_at: None, completed_at: None }
    }
}

/// One run of the assistant on a task.
#[derive(Clone, Debug)]
pub struct TaskExecution {
    pub id: String,
    pub task_id: String,
    pub subtask_id: Option<String>,
    pub execution_type: String,
    pub status: String,
    pub current_step: i32,
    pub total_steps: i32,
    pub current_step_description: Option<String>,
    pub waiting_for_input: bool,
    pub tmux_session: Option<String>,
    pub pid: Option<i32>,
    pub last_heartbeat: String,
    pub error_message: Option<String>,
    pub started_at: String,
    pub ended_at: Option<String>,
}

/// A task as the calendar shows it.
#[derive(Clone, Debug)]
pub struct CalendarTask {
    pub id: String,
    pub title: String,
    pub project_id: Option<String>,
    pub project_name: String,
    pub priority: i32,
    pub category: String,
    pub status: String,
    pub scheduled_date: String,
    pub due_date: Option<String>,
    pub is_overdue: bool,
    pub subtask_count: i32,
    pub subtask_done_count: i32,
}

/// A file that a session touched.
#[derive(Clone, Debug)]
pub struct FileModified {
    pub path: String,
    pub action: String,
}

/// The record of one assistant session.
#[derive(Clone, Debug)]
pub struct SessionLog {
    pub id: String,
    pub project_name: String,
    pub summary: String,
    pub tokens_total: i32,
    pub files_modified: Vec<FileModified>,
    pub created_at: String,
}

/// What the UI is told about a quick fix.
#[derive(Clone)]
pub struct QuickfixPayload {
    pub task_id: String,
    pub status: String,
    pub prompt: Option<String>,
    pub error: Option<String>,
}

/// An image of a task, without its data.
#[derive(Clone, Debug)]
pub struct TaskImageMetadata {
    pub id: String,
    pub file_name: String,
    pub mime_type: String,
    pub created_at: Option<String>,
}

/// An image of a task, its data in base64.
#[derive(Clone, Debug)]
pub struct TaskImage {
    pub id: String,
    pub task_id: String,
    pub data: String,
    pub mime_type: String,
    pub file_name: String,
    pub created_at: Option<String>,
}

/// One entry of the activity log.
#[derive(Clone, Debug)]
pub struct ActivityLog {
    pub id: String,
    pub event_type: String,
    pub entity_type: Option<String>,
    pub entity_id: Option<String>,
    pub project_id: Option<String>,
    pub metadata: Option<String>,
    pub created_at: String,
}

/// One entry of the activity log, with the names it refers to.
#[derive(Clone, Debug)]
pub struct ActivityLogWithContext {
    pub id: String,
    pub event_type: String,
    pub entity_type: Option<String>,
    pub entity_id: Option<String>,
    pub project_id: Option<String>,
    pub metadata: Option<String>,
    pub created_at: String,
    pub project_name: Option<String>,
    pub task_title: Option<String>,
}

/// One page of a search in the activity log.
#[derive(Clone, Debug)]
pub struct ActivityLogSearchResult {
    pub logs: Vec<ActivityLogWithContext>,
    pub total: i32,
    pub next_cursor: Option<String>,
    pub has_more: bool,
}

/// One sitting of the user.
#[derive(Clone, Debug)]
pub struct UserSession {
    pub id: String,
    pub started_at: String,
    pub ended_at: Option<String>,
    pub duration_seconds: Option<i32>,
    pub app_version: Option<String>,
}

/// The prompt that asks the assistant to structure a task.
pub open spec fn structure_prompt_of(title: Seq<char>, task_id: Seq<char>) -> Seq<char> {
    "Estruturar: "@ + title
        + ", utilize a skill workopilot-structure para estruturar a task de id: "@ + task_id
}

/// The prompt that asks the assistant to carry out a whole task.
pub open spec fn execute_all_prompt_of(title: Seq<char>, task_id: Seq<char>) -> Seq<char> {
    "Executar: "@ + title
        + ", utilize a skill workopilot-execute-all para executar a task de id: "@ + task_id
}

/// The prompt that asks the assistant to review a task.
pub open spec fn review_prompt_of(title: Seq<char>, task_id: Seq<char>) -> Seq<char> {
    "Revisar: "@ + title + ", utilize a skill workopilot-review para revisar a task de id: "@
        + task_id
}

/// The prompt that asks the assistant to carry out one step of a task.
pub open spec fn subtask_prompt_of(
    subtask_title: Seq<char>,
    title: Seq<char>,
    subtask_id: Seq<char>,
    task_id: Seq<char>,
) -> Seq<char> {
    "Executar subtask: "@ + subtask_title + " (task: "@ + title
        + "), utilize a skill workopilot-execute-subtask para executar a subtask "@ + subtask_id
        + " da task "@ + task_id
}

/// The prompt that asks the assistant for a quick fix of a task.
pub open spec fn quickfix_prompt_of(title: Seq<char>, task_id: Seq<char>, request: Seq<char>) -> Seq<
    char,
> {
    "Quickfix: "@ + title + ", utilize a skill workopilot-quickfix para ajustar a task de id: "@
        + task_id + ". Ajuste solicitado: "@ + request
}

/// The title of the first of `subtasks` with id `subtask_id`, or `Subtask`
/// where there is none.
pub open spec fn subtask_title_of(subtasks: Seq<Subtask>, subtask_id: Seq<char>) -> Seq<char>
    decreases subtasks.len(),
{
    if subtasks.len() == 0 {
        "Subtask"@
    } else if subtasks[0].id@ == subtask_id {
        subtasks[0].title@
    } else {
        subtask_title_of(subtasks.drop_first(), subtask_id)
    }
}

/// Computes [`structure_prompt_of`].
pub fn structure_prompt(title: &str, task_id: &str) -> (prompt: String)
    ensures
        prompt@ == structure_prompt_of(title@, task_id@),
{
    let mut prompt = concat("Estruturar: ", title);
    prompt.append(", utilize a skill workopilot-structure para estruturar a task de id: ");
    prompt.append(task_id);
    prompt
}

/// Computes [`execute_all_prompt_of`].
pub fn execute_all_prompt(title: &str, task_id: &str) -> (prompt: String)
    ensures
        prompt@ == execute_all_prompt_of(title@, task_id@),
{
    let mut prompt = concat("Executar: ", title);
    prompt.append(", utilize a skill workopilot-execute-all para executar a task de id: ");
    prompt.append(task_id);
    prompt
}

/// Computes [`review_prompt_of`].
pub fn review_prompt(title: &str, task_id: &str) -> (prompt: String)
    ensures
        prompt@ == review_prompt_of(title@, task_id@),
{
    let mut prompt = concat("Revisar: ", title);
    prompt.append(", utilize a skill workopilot-review para revisar a task de id: ");
    prompt.append(task_id);
    prompt
}

/// Computes [`subtask_prompt_of`].
pub fn subtask_prompt(subtask_title: &str, title: &str, subtask_id: &str, task_id: &str) -> (prompt:
    String)
    ensures
        prompt@ == subtask_prompt_of(subtask_title@, title@, subtask_id@, task_id@),
{
    let mut prompt = concat("Executar subtask: ", subtask_title);
    prompt.append(" (task: ");
    prompt.append(title);
    prompt.append("), utilize a skill workopilot-execute-subtask para executar a subtask ");
    prompt.append(subtask_id);
    prompt.append(" da task ");
    prompt.append(task_id);
    prompt
}

/// Computes [`quickfix_prompt_of`].
pub fn quickfix_prompt(title: &str, task_id: &str, request: &str) -> (prompt: String)
    ensures
        prompt@ == quickfix_prompt_of(title@, task_id@, request@),
{
    let mut prompt = concat("Quickfix: ", title);
    prompt.append(", utilize a skill workopilot-quickfix para ajustar a task de id: ");
    prompt.append(task_id);
    prompt.append(". Ajuste solicitado: ");
    prompt.append(request);
    prompt
}

/// Computes [`subtask_title_of`].
pub fn subtask_title(subtasks: &Vec<Subtask>, subtask_id: &str) -> (title: String)
    ensures
        title@ == subtask_title_of(subtasks@, subtask_id@),
{
    let mut i: usize = 0;
    assert(subtasks@.subrange(0, subtasks@.len() as int) =~= subtasks@);
    while i < subtasks.len()
        invariant
            i <= subtasks@.len(),
            subtask_title_of(subtasks@, subtask_id@) == subtask_title_of(
                subtasks@.subrange(i as int, subtasks@.len() as int),
                subtask_id@,
            ),
        decreases subtasks@.len() - i,
    {
        let ghost rest = subtasks@.subrange(i as int, subtasks@.len() as int);
        assert(rest[0] == subtasks@[i as int]);
        assert(rest.drop_first() =~= subtasks@.subrange(i + 1, subtasks@.len() as int));
        if str_eq(subtasks[i].id.as_str(), subtask_id) {
            return subtasks[i].title.clone();
        }
        i += 1;
    }
    "Subtask".to_owned()
}

/// The first prompt of a task's workflow and whether it structures the
/// task: a named step is carried out; else a task that is not structured
/// yet is structured; else the whole task is carried out.
pub fn workflow_prompt(task: &TaskFull, task_id: &str, subtask_id: Option<&str>) -> (out: (
    String,
    bool,
))
    ensures
        match subtask_id {
            Some(sid) => out.0@ == subtask_prompt_of(
                subtask_title_of(task.subtasks@, sid@),
                task.title@,
                sid@,
                task_id@,
            ) && !out.1,
            None => if !task.ai_metadata.structuring_complete {
                out.0@ == structure_prompt_of(task.title@, task_id@) && out.1
            } else {
                out.0@ == execute_all_prompt_of(task.title@, task_id@) && !out.1
            },
        },
{
    match subtask_id {
        Some(sid) => {
            let title = subtask_title(&task.subtasks, sid);
            (subtask_prompt(title.as_str(), task.title.as_str(), sid, task_id), false)
        },
        None => {
            if !task.ai_metadata.structuring_complete {
                (structure_prompt(task.title.as_str(), task_id), true)
            } else {
                (execute_all_prompt(task.title.as_str(), task_id), false)
            }
        },
    }
}

/// The hint for an empty task list.
pub const NO_TASKS_HINT: &'static str =
    "Adicione algumas tarefas para receber sugestões de fluxo de trabalho.";

/// The hint for a list in which every task is completed.
pub const ALL_DONE_HINT: &'static str =
    "Parabéns! Todas as tarefas estão concluídas. Hora de adicionar mais ou relaxar.";

/// Whether `task` is still to be done.
pub open spec fn is_open(task: Task) -> bool {
    task.status@ != "completed"@
}

/// The tasks among `tasks` that are still to be done, in order.
pub open spec fn open_tasks(tasks: Seq<Task>) -> Seq<Task>
    decreases tasks.len(),
{
    if tasks.len() == 0 {
        Seq::empty()
    } else if is_open(tasks.last()) {
        open_tasks(tasks.drop_last()).push(tasks.last())
    } else {
        open_tasks(tasks.drop_last())
    }
}

/// The tasks among `tasks` that are still to be done and have `priority`,
/// in order.
pub open spec fn open_with_priority(tasks: Seq<Task>, priority: i32) -> Seq<Task>
    decreases tasks.len(),
{
    if tasks.len() == 0 {
        Seq::empty()
    } else if is_open(tasks.last()) && tasks.last().priority == priority {
        open_with_priority(tasks.drop_last(), priority).push(tasks.last())
    } else {
        open_with_priority(tasks.drop_last(), priority)
    }
}

/// The sentence that names the task to begin with.
pub open spec fn start_sentence(high: Seq<Task>) -> Seq<char> {
    if high.len() > 0 {
        "Comece por \""@ + high[0].title@ + "\" (prioridade alta, categoria: "@ + high[0].category@
            + "). "@
    } else {
        Seq::empty()
    }
}

/// The sentence that counts the urgent tasks, where there are several.
pub open spec fn count_sentence(high: Seq<Task>) -> Seq<char> {
    if high.len() > 1 {
        "Você tem "@ + decimal(high.len()) + " tarefas de alta prioridade no total. "@
    } else {
        Seq::empty()
    }
}

/// The sentence that names a task of medium priority, where none is urgent.
pub open spec fn focus_sentence(high: Seq<Task>, medium: Seq<Task>) -> Seq<char> {
    if medium.len() > 0 && high.len() == 0 {
        "Foque em \""@ + medium[0].title@ + "\" primeiro. "@
    } else {
        Seq::empty()
    }
}

/// The workflow hint for `tasks`.
pub open spec fn suggestion_of(tasks: Seq<Task>) -> Seq<char> {
    let high = open_with_priority(tasks, 1);
    let medium = open_with_priority(tasks, 2);
    if tasks.len() == 0 {
        NO_TASKS_HINT@
    } else if open_tasks(tasks).len() == 0 {
        ALL_DONE_HINT@
    } else {
        start_sentence(high) + count_sentence(high) + focus_sentence(high, medium) + "Total de "@
            + decimal(open_tasks(tasks).len()) + " tarefas pendentes."@
    }
}

/// Says where to begin in `tasks`: the first urgent task that is still to be
/// done, else the first one of medium priority, and how many are left.
pub fn get_ai_suggestion(tasks: Vec<Task>) -> (out: Result<String, String>)
    ensures
        out matches Ok(hint) && hint@ == suggestion_of(tasks@),
{
    if tasks.len() == 0 {
        return Ok(NO_TASKS_HINT.to_owned());
    }
    let mut open_count: usize = 0;
    let mut high_count: usize = 0;
    let mut first_high: Option<usize> = None;
    let mut first_medium: Option<usize> = None;
    let mut i: usize = 0;
    assert(tasks@.take(0) =~= Seq::<Task>::empty());
    while i < tasks.len()
        invariant
            i <= tasks@.len(),
            open_count <= i,
            high_count <= i,
            open_count == open_tasks(tasks@.take(i as int)).len(),
            high_count == open_with_priority(tasks@.take(i as int), 1).len(),
            first_high is Some <==> high_count > 0,
            first_high matches Some(j) ==> j < i && tasks@[j as int] == open_with_priority(
                tasks@.take(i as int),
                1,
            )[0],
            first_medium is Some <==> open_with_priority(tasks@.take(i as int), 2).len() > 0,
            first_medium matches Some(j) ==> j < i && tasks@[j as int] == open_with_priority(
                tasks@.take(i as int),
                2,
            )[0],
        decreases tasks@.len() - i,
    {
        proof {
            assert(tasks@.take(i + 1).drop_last() =~= tasks@.take(i as int));
            assert(tasks@.take(i + 1).last() == tasks@[i as int]);
        }
        let task = &tasks[i];
        if !str_eq(task.status.as_str(), "completed") {
            open_count += 1;
            if task.priority == 1 {
                high_count += 1;
                if first_high.is_none() {
                    first_high = Some(i);
                }
            }
            if task.priority == 2 && first_medium.is_none() {
                first_medium = Some(i);
            }
        }
        i += 1;
    }
    assert(tasks@.take(i as int) =~= tasks@);
    if open_count == 0 {
        return Ok(ALL_DONE_HINT.to_owned());
    }
    let ghost high = open_with_priority(tasks@, 1);
    let ghost medium = open_with_priority(tasks@, 2);
    let mut hint = String::new();
    match first_high {
        Some(j) => {
            hint.append("Comece por \"");
            hint.append(tasks[j].title.as_str());
            hint.append("\" (prioridade alta, categoria: ");
            hint.append(tasks[j].category.as_str());
            hint.append("). ");
        },
        None => {},
    }
    assert(hint@ =~= start_sentence(high));
    if high_count > 1 {
        hint.append("Você tem ");
        hint.append(u64_to_text(high_count as u64).as_str());
        hint.append(" tarefas de alta prioridade no total. ");
    }
    assert(hint@ =~= start_sentence(high) + count_sentence(high));
    match first_medium {
        Some(j) => {
            if first_high.is_none() {
                hint.append("Foque em \"");
                hint.append(tasks[j].title.as_str());
                hint.append("\" primeiro. ");
            }
        },
        None => {},
    }
    assert(hint@ =~= start_sentence(high) + count_sentence(high) + focus_sentence(high, medium));
    hint.append("Total de ");
    hint.append(u64_to_text(open_count as u64).as_str());
    hint.append(" tarefas pendentes.");
    assert(hint@ =~= suggestion_of(tasks@));
    Ok(hint)
}

/// How many images a task can have.
pub const MAX_IMAGES_PER_TASK: i32 = 5;

/// Why base64 text could not be decoded.
#[verifier::external_type_specification]
#[verifier::external_body]
pub struct ExDecodeError(base64::DecodeError);

/// The bytes that standard base64 text stands for, where it stands for any:
/// what the `STANDARD` engine of `base64` decodes it to.
pub uninterp spec fn standard_decoding(text: Seq<char>) -> Option<Seq<u8>>;

/// The standard base64 text for `bytes`: what the `STANDARD` engine of
/// `base64` encodes them to.
pub uninterp spec fn standard_encoding(bytes: Seq<u8>) -> Seq<char>;

/// Whether the base64 text for `len` bytes has a length that can be held.
pub open spec fn can_be_encoded(len: nat) -> bool {
    (len / 3) * 4 + (if len % 3 > 0 {
        4int
    } else {
        0int
    }) <= usize::MAX
}

/// Decodes standard base64 text.
///
/// Trusted: wraps `Engine::decode` on `base64::engine::general_purpose::STANDARD`.
/// The contract names what the text decodes to and says that the call
/// fails exactly where the text decodes to nothing.
#[verifier::external_body]
pub(crate) fn base64_decode(text: &str) -> (out: Result<Vec<u8>, base64::DecodeError>)
    ensures
        match out {
            Ok(bytes) => standard_decoding(text@) == Some(bytes@),
            Err(_) => standard_decoding(text@) is None,
        },
{
    base64::Engine::decode(&base64::engine::general_purpose::STANDARD, text)
}

/// Encodes bytes as standard base64 text.
///
/// Trusted: wraps `Engine::encode` on `base64::engine::general_purpose::STANDARD`,
/// which gives up where the length of the text cannot be held. The contract
/// names the text.
#[verifier::external_body]
pub(crate) fn base64_encode(bytes: &Vec<u8>) -> (text: String)
    requires
        can_be_encoded(bytes@.len()),
    ensures
        text@ == standard_encoding(bytes@),
{
    base64::Engine::encode(&base64::engine::general_purpose::STANDARD, bytes)
}

/// The message of a decoding failure.
///
/// Trusted: wraps the error's `Display` through `to_string`. Nothing is
/// claimed of the message.
#[verifier::external_body]
pub(crate) fn decode_error_text(error: &base64::DecodeError) -> (message: String) {
    error.to_string()
}

/// Whether images of this type are taken.
pub open spec fn is_allowed_mime(mime_type: Seq<char>) -> bool {
    mime_type == "image/png"@ || mime_type == "image/jpeg"@ || mime_type == "image/gif"@
        || mime_type == "image/webp"@
}

/// The refusal of an image type.
pub open spec fn invalid_mime_message(mime_type: Seq<char>) -> Seq<char> {
    "Invalid mime type: "@ + mime_type + ". Allowed: PNG, JPG, GIF, WebP"@
}

/// The refusal of one image too many.
pub open spec fn too_many_images_message() -> Seq<char> {
    "Maximum of "@ + decimal(MAX_IMAGES_PER_TASK as nat) + " images per task reached"@
}

/// Takes an image type or refuses it.
pub fn check_mime_type(mime_type: &str) -> (out: Result<(), String>)
    ensures
        out is Ok == is_allowed_mime(mime_type@),
        out matches Err(message) ==> message@ == invalid_mime_message(mime_type@),
{
    if str_eq(mime_type, "image/png") || str_eq(mime_type, "image/jpeg") || str_eq(
        mime_type,
        "image/gif",
    ) || str_eq(mime_type, "image/webp") {
        Ok(())
    } else {
        let mut message = concat("Invalid mime type: ", mime_type);
        message.append(". Allowed: PNG, JPG, GIF, WebP");
        Err(message)
    }
}

/// Takes one more image for a task that has `current_count`, or refuses it.
pub fn check_image_count(current_count: i32) -> (out: Result<(), String>)
    ensures
        out is Ok == (current_count < MAX_IMAGES_PER_TASK),
        out matches Err(message) ==> message@ == too_many_images_message(),
{
    if current_count >= MAX_IMAGES_PER_TASK {
        let mut message = concat("Maximum of ", u64_to_text(MAX_IMAGES_PER_TASK as u64).as_str());
        message.append(" images per task reached");
        Err(message)
    } else {
        Ok(())
    }
}

/// What decoding gave, for the caller: the bytes, or the refusal with the
/// reason.
pub fn decoded_image(decoded: Result<Vec<u8>, String>) -> (out: Result<Vec<u8>, String>)
    ensures
        match decoded {
            Ok(bytes) => out == Ok::<Vec<u8>, String>(bytes),
            Err(reason) => out matches Err(message) && message@ == "Invalid base64 data: "@
                + reason@,
        },
{
    match decoded {
        Ok(bytes) => Ok(bytes),
        Err(reason) => Err(concat("Invalid base64 data: ", reason.as_str())),
    }
}

/// Checks an image that is to be added to a task and decodes it: the type
/// first, then the number of images the task has, then the data. Data that
/// does not decode is refused with the decoder's reason behind
/// `Invalid base64 data: `.
pub fn accept_image(mime_type: &str, current_count: i32, file_data: &str) -> (out: Result<
    Vec<u8>,
    String,
>)
    ensures
        !is_allowed_mime(mime_type@) ==> (out matches Err(message) && message@
            == invalid_mime_message(mime_type@)),
        is_allowed_mime(mime_type@) && current_count >= MAX_IMAGES_PER_TASK ==> (out matches Err(
            message,
        ) && message@ == too_many_images_message()),
        is_allowed_mime(mime_type@) && current_count < MAX_IMAGES_PER_TASK ==> (out is Ok
            == standard_decoding(file_data@) is Some),
        out matches Ok(bytes) ==> standard_decoding(file_data@) == Some(bytes@),
        is_allowed_mime(mime_type@) && current_count < MAX_IMAGES_PER_TASK && standard_decoding(
            file_data@,
        ) is None ==> (out matches Err(message) && "Invalid base64 data: "@.is_prefix_of(
            message@,
        )),
{
    match check_mime_type(mime_type) {
        Err(message) => {
            return Err(message);
        },
        Ok(_) => {},
    }
    match check_image_count(current_count) {
        Err(message) => {
            return Err(message);
        },
        Ok(_) => {},
    }
    let decoded = match base64_decode(file_data) {
        Ok(bytes) => Ok(bytes),
        Err(error) => Err(decode_error_text(&error)),
    };
    let out = decoded_image(decoded);
    proof {
        if out is Err {
            let head = "Invalid base64 data: "@;
            assert(out->Err_0@.subrange(0, head.len() as int) =~= head);
        }
    }
    out
}

/// The image of a task as the UI gets it, its data in base64.
pub fn image_for_display(
    id: String,
    task_id: String,
    data: &Vec<u8>,
    mime_type: String,
    file_name: String,
    created_at: Option<String>,
) -> (image: TaskImage)
    requires
        can_be_encoded(data@.len()),
    ensures
        image.id == id,
        image.task_id == task_id,
        image.data@ == standard_encoding(data@),
        image.mime_type == mime_type,
        image.file_name == file_name,
        image.created_at == created_at,
{
    TaskImage { id, task_id, data: base64_encode(data), mime_type, file_name, created_at }
}

/// The image type that a file extension in lower case stands for.
pub open spec fn mime_of_extension(extension: Seq<char>) -> Option<Seq<char>> {
    if extension == "jpg"@ || extension == "jpeg"@ {
        Some("image/jpeg"@)
    } else if extension == "gif"@ {
        Some("image/gif"@)
    } else if extension == "webp"@ {
        Some("image/webp"@)
    } else if extension == "png"@ {
        Some("image/png"@)
    } else {
        None
    }
}

/// The image type of a file by its extension; a file without one counts
/// as `png`. Case does not count.
pub fn mime_type_for_extension(extension: Option<&str>) -> (out: Result<&'static str, String>)
    ensures
        ({
            let lower = match extension {
                Some(e) => lowercase(e@),
                None => lowercase("png"@),
            };
            match mime_of_extension(lower) {
                Some(mime) => out matches Ok(m) && m@ == mime,
                None => out matches Err(message) && message@ == "Unsupported image format: "@
                    + lower,
            }
        }),
{
    let lower = match extension {
        Some(e) => to_lowercase(e),
        None => to_lowercase("png"),
    };
    let ext = lower.as_str();
    if str_eq(ext, "jpg") || str_eq(ext, "jpeg") {
        Ok("image/jpeg")
    } else if str_eq(ext, "gif") {
        Ok("image/gif")
    } else if str_eq(ext, "webp") {
        Ok("image/webp")
    } else if str_eq(ext, "png") {
        Ok("image/png")
    } else {
        Err(concat("Unsupported image format: ", ext))
    }
}

/// How many of `subtasks` are done.
pub open spec fn done_count(subtasks: Seq<Subtask>) -> nat
    decreases subtasks.len(),
{
    if subtasks.len() == 0 {
        0
    } else if subtasks.last().status@ == "done"@ {
        done_count(subtasks.drop_last()) + 1
    } else {
        done_count(subtasks.drop_last())
    }
}

/// Counts the steps of a task and those that are done.
pub fn subtask_counts(subtasks: &Vec<Subtask>) -> (counts: (i32, i32))
    requires
        subtasks@.len() <= i32::MAX,
    ensures
        counts.0 == subtasks@.len(),
        counts.1 == done_count(subtasks@),
{
    let mut done: i32 = 0;
    let mut i: usize = 0;
    assert(subtasks@.take(0) =~= Seq::<Subtask>::empty());
    while i < subtasks.len()
        invariant
            i <= subtasks@.len() <= i32::MAX,
            done <= i,
            done == done_count(subtasks@.take(i as int)),
        decreases subtasks@.len() - i,
    {
        proof {
            assert(subtasks@.take(i + 1).drop_last() =~= subtasks@.take(i as int));
            assert(subtasks@.take(i + 1).last() == subtasks@[i as int]);
        }
        if str_eq(subtasks[i].status.as_str(), "done") {
            done += 1;
        }
        i += 1;
    }
    assert(subtasks@.take(i as int) =~= subtasks@);
    (subtasks.len() as i32, done)
}

/// What a look at one directory of a project gave.
#[derive(Debug)]
pub struct DirectoryProbe {
    pub path: String,
    pub is_dir: bool,
    pub has_package_json: bool,
    pub has_cargo_toml: bool,
    pub has_go_mod: bool,
    /// The directory's `.env` file, where it has one.
    pub env_file: Option<String>,
}

/// A route without its id.
pub struct RouteView {
    pub path: Seq<char>,
    pub order: int,
    pub env_path: Option<Seq<char>>,
}

/// Whether a directory below `apps` becomes a route: it holds a package of
/// one of the known kinds.
pub open spec fn is_app(probe: DirectoryProbe) -> bool {
    probe.is_dir && (probe.has_package_json || probe.has_cargo_toml || probe.has_go_mod)
}

/// Whether a directory below `packages` becomes a route.
pub open spec fn is_package(probe: DirectoryProbe) -> bool {
    probe.is_dir && probe.has_package_json
}

/// The routes of the applications among `apps`, numbered from `first`.
pub open spec fn app_routes_of(apps: Seq<DirectoryProbe>, first: int) -> Seq<RouteView>
    decreases apps.len(),
{
    if apps.len() == 0 {
        Seq::empty()
    } else {
        let before = app_routes_of(apps.drop_last(), first);
        if is_app(apps.last()) {
            before.push(
                RouteView {
                    path: apps.last().path@,
                    order: first + before.len(),
                    env_path: option_text(apps.last().env_file),
                },
            )
        } else {
            before
        }
    }
}

/// The routes of the packages among `packages`, numbered from `first`.
pub open spec fn package_routes_of(packages: Seq<DirectoryProbe>, first: int) -> Seq<RouteView>
    decreases packages.len(),
{
    if packages.len() == 0 {
        Seq::empty()
    } else {
        let before = package_routes_of(packages.drop_last(), first);
        if is_package(packages.last()) {
            before.push(
                RouteView { path: packages.last().path@, order: first + before.len(), env_path: None },
            )
        } else {
            before
        }
    }
}

/// The routes of a project: its root, its applications, its packages,
/// numbered in this order from 0.
pub open spec fn routes_of(
    root_path: Seq<char>,
    root_env: Option<Seq<char>>,
    apps: Seq<DirectoryProbe>,
    packages: Seq<DirectoryProbe>,
) -> Seq<RouteView> {
    let root = seq![RouteView { path: root_path, order: 0, env_path: root_env }];
    let with_apps = root + app_routes_of(apps, 1);
    with_apps + package_routes_of(packages, with_apps.len() as int)
}

/// The routes in `routes`, without their ids.
pub open spec fn route_views(routes: Seq<ProjectRoute>) -> Seq<RouteView> {
    Seq::new(
        routes.len(),
        |i: int|
            RouteView {
                path: routes[i].path@,
                order: routes[i].order as int,
                env_path: option_text(routes[i].env_path),
            },
    )
}

proof fn lemma_app_routes_len(apps: Seq<DirectoryProbe>, first: int)
    ensures
        app_routes_of(apps, first).len() <= apps.len(),
    decreases apps.len(),
{
    if apps.len() > 0 {
        lemma_app_routes_len(apps.drop_last(), first);
    }
}

proof fn lemma_package_routes_len(packages: Seq<DirectoryProbe>, first: int)
    ensures
        package_routes_of(packages, first).len() <= packages.len(),
    decreases packages.len(),
{
    if packages.len() > 0 {
        lemma_package_routes_len(packages.drop_last(), first);
    }
}

/// Puts the routes of a project together from what a look at its
/// directories gave. Each route gets a fresh id.
pub fn assemble_routes(
    root_path: &str,
    root_env: Option<String>,
    apps: &Vec<DirectoryProbe>,
    packages: &Vec<DirectoryProbe>,
) -> (routes: Vec<ProjectRoute>)
    requires
        1 + apps@.len() + packages@.len() <= i32::MAX,
    ensures
        route_views(routes@) == routes_of(root_path@, option_text(root_env), apps@, packages@),
{
    let mut routes: Vec<ProjectRoute> = Vec::new();
    let ghost root_view = seq![
        RouteView { path: root_path@, order: 0, env_path: option_text(root_env) },
    ];
    routes.push(
        ProjectRoute { id: fresh_uuid(), path: root_path.to_owned(), order: 0, env_path: root_env },
    );
    assert(route_views(routes@) =~= root_view);
    let mut order: i32 = 1;
    let mut i: usize = 0;
    assert(apps@.take(0) =~= Seq::<DirectoryProbe>::empty());
    while i < apps.len()
        invariant
            i <= apps@.len(),
            1 + apps@.len() + packages@.len() <= i32::MAX,
            order == routes@.len(),
            routes@.len() <= 1 + i,
            root_view.len() == 1,
            route_views(routes@) == root_view + app_routes_of(apps@.take(i as int), 1),
        decreases apps@.len() - i,
    {
        proof {
            assert(apps@.take(i + 1).drop_last() =~= apps@.take(i as int));
            assert(apps@.take(i + 1).last() == apps@[i as int]);
        }
        let probe = &apps[i];
        if probe.is_dir && (probe.has_package_json || probe.has_cargo_toml || probe.has_go_mod) {
            let ghost before = route_views(routes@);
            assert(before.len() == order);
            routes.push(
                ProjectRoute {
                    id: fresh_uuid(),
                    path: probe.path.clone(),
                    order,
                    env_path: copy_text(&probe.env_file),
                },
            );
            assert(route_views(routes@) =~= before.push(
                RouteView {
                    path: probe.path@,
                    order: order as int,
                    env_path: option_text(probe.env_file),
                },
            ));
            proof {
                let prior = app_routes_of(apps@.take(i as int), 1);
                assert(before.len() == root_view.len() + prior.len());
                assert(order as int == 1 + prior.len());
                assert(root_view + prior.push(
                    RouteView {
                        path: probe.path@,
                        order: order as int,
                        env_path: option_text(probe.env_file),
                    },
                ) =~= before.push(
                    RouteView {
                        path: probe.path@,
                        order: order as int,
                        env_path: option_text(probe.env_file),
                    },
                ));
            }
            assert(route_views(routes@) =~= root_view + app_routes_of(apps@.take(i + 1), 1));
            order += 1;
        }
        i += 1;
    }
    assert(apps@.take(i as int) =~= apps@);
    let ghost with_apps = route_views(routes@);
    let ghost base = with_apps.len() as int;
    let mut k: usize = 0;
    assert(packages@.take(0) =~= Seq::<DirectoryProbe>::empty());
    while k < packages.len()
        invariant
            k <= packages@.len(),
            1 + apps@.len() + packages@.len() <= i32::MAX,
            base <= 1 + apps@.len(),
            base == with_apps.len(),
            order == routes@.len(),
            routes@.len() <= base + k,
            route_views(routes@) == with_apps + package_routes_of(packages@.take(k as int), base),
        decreases packages@.len() - k,
    {
        proof {
            assert(packages@.take(k + 1).drop_last() =~= packages@.take(k as int));
            assert(packages@.take(k + 1).last() == packages@[k as int]);
        }
        let probe = &packages[k];
        if probe.is_dir && probe.has_package_json {
            let ghost before = route_views(routes@);
            assert(before.len() == order);
            routes.push(
                ProjectRoute { id: fresh_uuid(), path: probe.path.clone(), order, env_path: None },
            );
            assert(route_views(routes@) =~= before.push(
                RouteView { path: probe.path@, order: order as int, env_path: None },
            ));
            proof {
                let prior = package_routes_of(packages@.take(k as int), base);
                assert(before.len() == with_apps.len() + prior.len());
                assert(order as int == base + prior.len());
                assert(with_apps + prior.push(
                    RouteView { path: probe.path@, order: order as int, env_path: None },
                ) =~= before.push(
                    RouteView { path: probe.path@, order: order as int, env_path: None },
                ));
            }
            assert(route_views(routes@) =~= with_apps + package_routes_of(
                packages@.take(k + 1),
                base,
            ));
            order += 1;
        }
        k += 1;
    }
    assert(packages@.take(k as int) =~= packages@);
    routes
}

impl QuickfixPayload {
    /// A quick fix of `task_id` for `prompt` began.
    pub fn running(task_id: &str, prompt: &str) -> (payload: QuickfixPayload)
        ensures
            payload.task_id@ == task_id@,
            payload.status@ == "running"@,
            option_text(payload.prompt) == Some(prompt@),
            payload.error is None,
    {
        QuickfixPayload {
            task_id: task_id.to_owned(),
            status: "running".to_owned(),
            prompt: Some(prompt.to_owned()),
            error: None,
        }
    }

    /// What became of a quick fix of `task_id`: `Ok` says whether the
    /// assistant succeeded, with what it wrote as errors; `Err` says why it
    /// could not be run.
    pub fn finished(task_id: &str, outcome: Result<(bool, String), String>) -> (payload:
        QuickfixPayload)
        ensures
            payload.task_id@ == task_id@,
            payload.prompt is None,
            match outcome {
                Ok((true, _)) => payload.status@ == "completed"@ && payload.error is None,
                Ok((false, errors)) => payload.status@ == "failed"@ && option_text(payload.error)
                    == Some(errors@),
                Err(reason) => payload.status@ == "failed"@ && option_text(payload.error) == Some(
                    reason@,
                ),
            },
    {
        match outcome {
            Ok((true, _)) => QuickfixPayload {
                task_id: task_id.to_owned(),
                status: "completed".to_owned(),
                prompt: None,
                error: None,
            },
            Ok((false, errors)) => QuickfixPayload {
                task_id: task_id.to_owned(),
                status: "failed".to_owned(),
                prompt: None,
                error: Some(errors),
            },
            Err(reason) => QuickfixPayload {
                task_id: task_id.to_owned(),
                status: "failed".to_owned(),
                prompt: None,
                error: Some(reason),
            },
        }
    }
}

/// After how many minutes without a sign of life a run counts as stale.
pub fn stale_after_minutes(timeout_minutes: Option<i32>) -> (minutes: i32)
    ensures
        minutes == match timeout_minutes {
            Some(m) => m,
            None => 5,
        },
{
    match timeout_minutes {
        Some(m) => m,
        None => 5,
    }
}

} // verus!
