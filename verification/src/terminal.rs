//! Terminal sessions for tasks: how a tab is named, what the assistant is
//! asked, and the text of the scripts that open a tab and type the prompt.
//! Running the terminal multiplexer is the caller's part.

use vstd::prelude::*;
use vstd::utf8::{decode_utf8, encode_utf8, encode_utf8_decode_utf8, is_char_boundary};
use crate::commands::{
    execute_all_prompt, execute_all_prompt_of, review_prompt, review_prompt_of, structure_prompt,
    structure_prompt_of, subtask_prompt, subtask_prompt_of, subtask_title, subtask_title_of,
    Project, ProjectRoute, Subtask, TaskFull, TmuxConfig, TmuxTab,
};
use crate::script_text::{
    ATTACH_HEAD, ATTACH_OR_GO_ON, ATTACH_OR_REPORT, ATTACH_TAIL, END_OF_COMMAND, IN_DIRECTORY,
    KEYS_BEGIN, KEYS_END, LAUNCH_BODY, LAUNCH_HEAD, LAUNCH_PATH, LAUNCH_TAB, LAUNCH_TAIL,
    LOADING_HEAD, LOADING_SEND, LOADING_TAIL, LOADING_WAIT, NEW_SESSION, NEW_WINDOW, SELECT_WINDOW,
    SEND_KEYS, WORKFLOW_BODY, WORKFLOW_TAIL,
};
use crate::text::{
    char_is_alphanumeric, chars_of, concat, contains, contains_text, is_alphanumeric, lines,
    lines_of, lowercase, push_char, str_eq, to_lowercase, trim, trimmed,
};

verus! {

/// The session in which every task gets its tab.
pub const SESSION_NAME: &'static str = "workopilot";

/// What the UI can ask of the terminal.
#[derive(Clone, Copy, Debug, PartialEq, Eq, Structural)]
pub enum TerminalAction {
    LaunchProject,
    FocusSession,
    Structure,
    ExecuteAll,
    ExecuteSubtask,
    Review,
}

/// The action that `name` stands for.
pub open spec fn action_named(name: Seq<char>) -> Option<TerminalAction> {
    if name == "launch_project"@ {
        Some(TerminalAction::LaunchProject)
    } else if name == "focus"@ || name == "focus_session"@ {
        Some(TerminalAction::FocusSession)
    } else if name == "structure"@ {
        Some(TerminalAction::Structure)
    } else if name == "execute_all"@ {
        Some(TerminalAction::ExecuteAll)
    } else if name == "execute_subtask"@ {
        Some(TerminalAction::ExecuteSubtask)
    } else if name == "review"@ {
        Some(TerminalAction::Review)
    } else {
        None
    }
}

impl TerminalAction {
    /// Reads an action by its name.
    pub fn from_str(s: &str) -> (out: Result<TerminalAction, String>)
        ensures
            match action_named(s@) {
                Some(action) => out == Ok::<TerminalAction, String>(action),
                None => out matches Err(message) && message@ == "Unknown terminal action: "@ + s@,
            },
    {
        if str_eq(s, "launch_project") {
            Ok(TerminalAction::LaunchProject)
        } else if str_eq(s, "focus") || str_eq(s, "focus_session") {
            Ok(TerminalAction::FocusSession)
        } else if str_eq(s, "structure") {
            Ok(TerminalAction::Structure)
        } else if str_eq(s, "execute_all") {
            Ok(TerminalAction::ExecuteAll)
        } else if str_eq(s, "execute_subtask") {
            Ok(TerminalAction::ExecuteSubtask)
        } else if str_eq(s, "review") {
            Ok(TerminalAction::Review)
        } else {
            Err(concat("Unknown terminal action: ", s))
        }
    }
}

/// Whether a character of a project's name goes into a tab's name.
pub open spec fn keeps_in_tab_name(c: char) -> bool {
    is_alphanumeric(c) || c == '-' || c == '_'
}

/// A project's name as it stands in a tab's name: its letters, numbers,
/// hyphens and underscores.
pub open spec fn safe_name_of(name: Seq<char>) -> Seq<char>
    decreases name.len(),
{
    if name.len() == 0 {
        Seq::empty()
    } else if keeps_in_tab_name(name.last()) {
        safe_name_of(name.drop_last()).push(name.last())
    } else {
        safe_name_of(name.drop_last())
    }
}

/// A task's id as it stands in a tab's name: the text of its first eight
/// bytes where it has more than eight.
pub open spec fn short_id_of(task_id: Seq<char>) -> Seq<char> {
    if encode_utf8(task_id).len() > 8 {
        decode_utf8(encode_utf8(task_id).subrange(0, 8))
    } else {
        task_id
    }
}

/// The name of the tab of task `task_id` in the project named
/// `project_name`.
pub open spec fn tab_name_of(project_name: Seq<char>, task_id: Seq<char>) -> Seq<char> {
    safe_name_of(project_name) + "-"@ + short_id_of(task_id)
}

/// Whether the first eight bytes of `task_id` can be cut off as text.
pub open spec fn can_be_shortened(task_id: Seq<char>) -> bool {
    encode_utf8(task_id).len() > 8 ==> is_char_boundary(encode_utf8(task_id), 8)
}

/// Computes [`safe_name_of`].
pub fn safe_name(name: &str) -> (out: String)
    ensures
        out@ == safe_name_of(name@),
{
    let chars = chars_of(name);
    let mut out = String::new();
    let mut i: usize = 0;
    assert(chars@.take(0) =~= Seq::<char>::empty());
    while i < chars.len()
        invariant
            i <= chars@.len(),
            out@ == safe_name_of(chars@.take(i as int)),
        decreases chars@.len() - i,
    {
        proof {
            assert(chars@.take(i + 1).drop_last() =~= chars@.take(i as int));
            assert(chars@.take(i + 1).last() == chars@[i as int]);
        }
        let c = chars[i];
        if char_is_alphanumeric(c) || c == '-' || c == '_' {
            push_char(&mut out, c);
        }
        i += 1;
    }
    assert(chars@.take(i as int) =~= chars@);
    out
}

/// Names the tab of a task: the project's safe name, a hyphen, the task's
/// short id.
pub fn get_tab_name(project: &Project, task_id: &str) -> (name: String)
    requires
        can_be_shortened(task_id@),
    ensures
        name@ == tab_name_of(project.name@, task_id@),
{
    let mut name = safe_name(project.name.as_str());
    name.append("-");
    if task_id.as_bytes().len() > 8 {
        let short = task_id.split_at(8).0;
        proof {
            encode_utf8_decode_utf8(short@);
            assert(encode_utf8(short@) =~= encode_utf8(task_id@).subrange(0, 8));
        }
        name.append(short);
    } else {
        name.append(task_id);
    }
    name
}

/// Looks for a tab named `tab_name` among the session's windows.
pub fn find_tab_by_name(windows: &Vec<String>, tab_name: &str) -> (found: Option<String>)
    ensures
        found is Some <==> exists|i: int| 0 <= i < windows@.len() && windows@[i]@ == tab_name@,
        found matches Some(name) ==> name@ == tab_name@,
{
    let mut i: usize = 0;
    while i < windows.len()
        invariant
            i <= windows@.len(),
            forall|j: int| 0 <= j < i ==> windows@[j]@ != tab_name@,
        decreases windows@.len() - i,
    {
        if str_eq(windows[i].as_str(), tab_name) {
            return Some(windows[i].clone());
        }
        i += 1;
    }
    None
}

/// The names of the session's windows, from what the multiplexer printed:
/// one name a line. Without a session, or where the query failed, there are
/// none.
pub fn window_names(session_exists: bool, query_succeeded: bool, output: &str) -> (names: Vec<String>)
    ensures
        names.deep_view() == if session_exists && query_succeeded {
            lines_of(output@)
        } else {
            Seq::<Seq<char>>::empty()
        },
{
    if session_exists && query_succeeded {
        lines(output)
    } else {
        let names: Vec<String> = Vec::new();
        assert(names.deep_view() =~= Seq::<Seq<char>>::empty());
        names
    }
}

/// The command that runs in a pane, from what the multiplexer printed:
/// the output without surrounding white space, nothing where the query
/// failed.
pub fn pane_command(query_succeeded: bool, output: &str) -> (command: String)
    ensures
        command@ == if query_succeeded {
            trimmed(output@)
        } else {
            Seq::<char>::empty()
        },
{
    if query_succeeded {
        trim(output)
    } else {
        String::new()
    }
}

/// Whether the assistant runs in a tab, from the command that runs in the
/// tab's pane.
pub fn is_opencode_running(pane_command: &Result<String, String>) -> (running: bool)
    ensures
        running == (pane_command matches Ok(command) && command@ == "node"@),
{
    match pane_command {
        Ok(command) => str_eq(command.as_str(), "node"),
        Err(_) => false,
    }
}

/// The prompt for `action` on a task.
pub open spec fn prompt_of(
    action: TerminalAction,
    task: TaskFull,
    subtask_id: Option<Seq<char>>,
) -> Seq<char> {
    match action {
        TerminalAction::Structure => structure_prompt_of(task.title@, task.id@),
        TerminalAction::ExecuteAll => execute_all_prompt_of(task.title@, task.id@),
        TerminalAction::ExecuteSubtask => match subtask_id {
            Some(sid) => subtask_prompt_of(
                subtask_title_of(task.subtasks@, sid),
                task.title@,
                sid,
                task.id@,
            ),
            None => subtask_prompt_of("Subtask"@, task.title@, "unknown"@, task.id@),
        },
        TerminalAction::Review => review_prompt_of(task.title@, task.id@),
        TerminalAction::LaunchProject => Seq::empty(),
        TerminalAction::FocusSession => Seq::empty(),
    }
}

/// The text of an optional string.
pub open spec fn text_of(s: Option<&str>) -> Option<Seq<char>> {
    match s {
        Some(t) => Some(t@),
        None => None,
    }
}

/// Writes the prompt that asks the assistant to do `action` on `task`.
/// Actions that ask nothing of the assistant have the empty prompt.
pub fn generate_prompt(action: &TerminalAction, task: &TaskFull, subtask_id: Option<&str>) -> (prompt:
    String)
    ensures
        prompt@ == prompt_of(*action, *task, text_of(subtask_id)),
{
    match action {
        TerminalAction::Structure => structure_prompt(task.title.as_str(), task.id.as_str()),
        TerminalAction::ExecuteAll => execute_all_prompt(task.title.as_str(), task.id.as_str()),
        TerminalAction::ExecuteSubtask => match subtask_id {
            Some(sid) => {
                let title = subtask_title(&task.subtasks, sid);
                subtask_prompt(title.as_str(), task.title.as_str(), sid, task.id.as_str())
            },
            None => subtask_prompt("Subtask", task.title.as_str(), "unknown", task.id.as_str()),
        },
        TerminalAction::Review => review_prompt(task.title.as_str(), task.id.as_str()),
        TerminalAction::LaunchProject => String::new(),
        TerminalAction::FocusSession => String::new(),
    }
}

/// What stands for a character of a prompt inside double quotes.
pub open spec fn escaped_char(c: char) -> Seq<char> {
    if c == '\\' {
        seq!['\\', '\\']
    } else if c == '"' {
        seq!['\\', '"']
    } else {
        seq![c]
    }
}

/// A prompt made fit to stand inside double quotes: a backslash before
/// every backslash and every double quote.
pub open spec fn escaped_of(prompt: Seq<char>) -> Seq<char>
    decreases prompt.len(),
{
    if prompt.len() == 0 {
        Seq::empty()
    } else {
        escaped_of(prompt.drop_last()) + escaped_char(prompt.last())
    }
}

/// Computes [`escaped_of`].
pub fn escape_prompt(prompt: &str) -> (out: String)
    ensures
        out@ == escaped_of(prompt@),
{
    let chars = chars_of(prompt);
    let mut out = String::new();
    let mut i: usize = 0;
    assert(chars@.take(0) =~= Seq::<char>::empty());
    while i < chars.len()
        invariant
            i <= chars@.len(),
            out@ == escaped_of(chars@.take(i as int)),
        decreases chars@.len() - i,
    {
        proof {
            assert(chars@.take(i + 1).drop_last() =~= chars@.take(i as int));
            assert(chars@.take(i + 1).last() == chars@[i as int]);
        }
        let ghost before = out@;
        let c = chars[i];
        if c == '\\' {
            push_char(&mut out, '\\');
            push_char(&mut out, '\\');
        } else if c == '"' {
            push_char(&mut out, '\\');
            push_char(&mut out, '"');
        } else {
            push_char(&mut out, c);
        }
        assert(out@ =~= before + escaped_char(c));
        i += 1;
    }
    assert(chars@.take(i as int) =~= chars@);
    out
}

/// The pane `tab_name` of `session_name`, as the multiplexer addresses it.
pub open spec fn pane_of(session_name: Seq<char>, tab_name: Seq<char>) -> Seq<char> {
    session_name + ":"@ + tab_name
}

/// The script that shows a progress animation until the assistant runs in
/// the pane, then types the prompt into it.
pub open spec fn loading_script_of(
    session_name: Seq<char>,
    tab_name: Seq<char>,
    escaped_prompt: Seq<char>,
) -> Seq<char> {
    LOADING_HEAD@ + pane_of(session_name, tab_name) + LOADING_WAIT@ + pane_of(
        session_name,
        tab_name,
    ) + LOADING_SEND@ + escaped_prompt + LOADING_TAIL@
}

/// Computes [`loading_script_of`].
pub fn generate_loading_animation_script(
    session_name: &str,
    tab_name: &str,
    escaped_prompt: &str,
) -> (script: String)
    ensures
        script@ == loading_script_of(session_name@, tab_name@, escaped_prompt@),
{
    let mut script = concat(LOADING_HEAD, session_name);
    script.append(":");
    script.append(tab_name);
    script.append(LOADING_WAIT);
    script.append(session_name);
    script.append(":");
    script.append(tab_name);
    script.append(LOADING_SEND);
    script.append(escaped_prompt);
    script.append(LOADING_TAIL);
    assert(script@ =~= loading_script_of(session_name@, tab_name@, escaped_prompt@));
    script
}

/// The script that opens the tab of a task in the session, starts the
/// assistant in it and attaches to the session. `body` and `tail` are the
/// fixed text around the animation.
pub open spec fn launch_script_of(
    body: Seq<char>,
    tail: Seq<char>,
    tab_name: Seq<char>,
    project_path: Seq<char>,
    escaped_prompt: Seq<char>,
) -> Seq<char> {
    LAUNCH_HEAD@ + SESSION_NAME@ + LAUNCH_TAB@ + tab_name + LAUNCH_PATH@ + project_path + body
        + loading_script_of(SESSION_NAME@, tab_name, escaped_prompt) + tail
}

fn launch_script(
    body: &str,
    tail: &str,
    tab_name: &str,
    project_path: &str,
    escaped_prompt: &str,
) -> (script: String)
    ensures
        script@ == launch_script_of(body@, tail@, tab_name@, project_path@, escaped_prompt@),
{
    let animation = generate_loading_animation_script(SESSION_NAME, tab_name, escaped_prompt);
    let mut script = concat(LAUNCH_HEAD, SESSION_NAME);
    script.append(LAUNCH_TAB);
    script.append(tab_name);
    script.append(LAUNCH_PATH);
    script.append(project_path);
    script.append(body);
    script.append(animation.as_str());
    script.append(tail);
    script
}

/// The script that a new terminal runs to open a task's tab.
pub fn task_launch_script(tab_name: &str, project_path: &str, escaped_prompt: &str) -> (script:
    String)
    ensures
        script@ == launch_script_of(
            LAUNCH_BODY@,
            LAUNCH_TAIL@,
            tab_name@,
            project_path@,
            escaped_prompt@,
        ),
{
    launch_script(LAUNCH_BODY, LAUNCH_TAIL, tab_name, project_path, escaped_prompt)
}

/// The script that a new terminal runs to open a task's tab, reporting each
/// step as it goes.
pub fn workflow_launch_script(tab_name: &str, project_path: &str, escaped_prompt: &str) -> (script:
    String)
    ensures
        script@ == launch_script_of(
            WORKFLOW_BODY@,
            WORKFLOW_TAIL@,
            tab_name@,
            project_path@,
            escaped_prompt@,
        ),
{
    launch_script(WORKFLOW_BODY, WORKFLOW_TAIL, tab_name, project_path, escaped_prompt)
}

/// What the terminal is to do for a request of the UI.
#[derive(Debug)]
pub enum ActionPlan {
    /// Open the project's own session.
    LaunchProject,
    /// Bring the tab of the task to the front.
    Focus { task_id: String },
    /// Hand `prompt` to the assistant in the tab of the task. The task is
    /// first marked as in progress where `mark_in_progress` says so, and the
    /// tab is opened anew where `force_new_tab` says so.
    Run { task_id: String, prompt: String, mark_in_progress: bool, force_new_tab: bool },
}

/// A plan as contracts see it.
pub enum PlanView {
    LaunchProject,
    Focus { task_id: Seq<char> },
    Run { task_id: Seq<char>, prompt: Seq<char>, mark_in_progress: bool, force_new_tab: bool },
}

/// The name by which a refusal calls `action`.
pub open spec fn action_word(action: TerminalAction) -> Seq<char> {
    match action {
        TerminalAction::LaunchProject => "launch_project"@,
        TerminalAction::FocusSession => "focus"@,
        TerminalAction::Structure => "structure"@,
        TerminalAction::ExecuteAll => "execute_all"@,
        TerminalAction::ExecuteSubtask => "execute_subtask"@,
        TerminalAction::Review => "review"@,
    }
}

/// The plan for `action`, or why there is none. Every action but the
/// project launch needs a task id; every action on the assistant needs the
/// task itself, and the one on a step needs the step's id. Asked in this
/// order, the first that is missing is reported.
pub open spec fn plan_of(
    action: TerminalAction,
    task_id: Option<Seq<char>>,
    task: Option<TaskFull>,
    subtask_id: Option<Seq<char>>,
) -> Result<PlanView, Seq<char>> {
    if action == TerminalAction::LaunchProject {
        Ok(PlanView::LaunchProject)
    } else if task_id is None {
        Err("task_id required for "@ + action_word(action) + " action"@)
    } else if action == TerminalAction::FocusSession {
        Ok(PlanView::Focus { task_id: task_id->0 })
    } else if task is None {
        Err("task not found"@)
    } else if action == TerminalAction::ExecuteSubtask && subtask_id is None {
        Err("subtask_id required for execute_subtask action"@)
    } else {
        Ok(
            PlanView::Run {
                task_id: task_id->0,
                prompt: prompt_of(
                    action,
                    task->0,
                    if action == TerminalAction::ExecuteSubtask {
                        subtask_id
                    } else {
                        None
                    },
                ),
                mark_in_progress: action != TerminalAction::Review,
                force_new_tab: action == TerminalAction::Structure,
            },
        )
    }
}

/// What `out` says, as contracts see it.
pub open spec fn plan_view(out: Result<ActionPlan, String>) -> Result<PlanView, Seq<char>> {
    match out {
        Ok(ActionPlan::LaunchProject) => Ok(PlanView::LaunchProject),
        Ok(ActionPlan::Focus { task_id }) => Ok(PlanView::Focus { task_id: task_id@ }),
        Ok(ActionPlan::Run { task_id, prompt, mark_in_progress, force_new_tab }) => Ok(
            PlanView::Run { task_id: task_id@, prompt: prompt@, mark_in_progress, force_new_tab },
        ),
        Err(message) => Err(message@),
    }
}

fn missing_task_id(word: &str) -> (message: String)
    ensures
        message@ == "task_id required for "@ + word@ + " action"@,
{
    let mut message = concat("task_id required for ", word);
    message.append(" action");
    message
}

/// Computes [`plan_of`].
pub fn plan_terminal_action(
    action: TerminalAction,
    task_id: Option<String>,
    task: Option<&TaskFull>,
    subtask_id: Option<String>,
) -> (out: Result<ActionPlan, String>)
    ensures
        plan_view(out) == plan_of(
            action,
            match task_id {
                Some(t) => Some(t@),
                None => None,
            },
            match task {
                Some(t) => Some(*t),
                None => None,
            },
            match subtask_id {
                Some(t) => Some(t@),
                None => None,
            },
        ),
{
    let word = match action {
        TerminalAction::LaunchProject => {
            return Ok(ActionPlan::LaunchProject);
        },
        TerminalAction::FocusSession => "focus",
        TerminalAction::Structure => "structure",
        TerminalAction::ExecuteAll => "execute_all",
        TerminalAction::ExecuteSubtask => "execute_subtask",
        TerminalAction::Review => "review",
    };
    let task_id = match task_id {
        Some(id) => id,
        None => {
            return Err(missing_task_id(word));
        },
    };
    match action {
        TerminalAction::FocusSession => {
            return Ok(ActionPlan::Focus { task_id });
        },
        _ => {},
    }
    let task = match task {
        Some(task) => task,
        None => {
            return Err("task not found".to_owned());
        },
    };
    let prompt = match action {
        TerminalAction::ExecuteSubtask => match subtask_id {
            Some(sid) => generate_prompt(&action, task, Some(sid.as_str())),
            None => {
                return Err("subtask_id required for execute_subtask action".to_owned());
            },
        },
        _ => generate_prompt(&action, task, None),
    };
    let mark_in_progress = match action {
        TerminalAction::Review => false,
        _ => true,
    };
    let force_new_tab = match action {
        TerminalAction::Structure => true,
        _ => false,
    };
    Ok(ActionPlan::Run { task_id, prompt, mark_in_progress, force_new_tab })
}

/// How a prompt reaches the assistant.
#[derive(Clone, Copy, Debug, PartialEq, Eq, Structural)]
pub enum PromptRoute {
    /// The assistant runs in the task's tab: type the prompt there.
    TypeIntoTab,
    /// Open the tab anew and let the launch script type the prompt.
    OpenNewTab,
}

/// The way a prompt takes: into the tab where that is not ruled out, the
/// tab exists and the assistant runs in it; through a new tab otherwise.
pub open spec fn route_of(force_new_tab: bool, tab_exists: bool, assistant_runs: bool) -> PromptRoute {
    if !force_new_tab && tab_exists && assistant_runs {
        PromptRoute::TypeIntoTab
    } else {
        PromptRoute::OpenNewTab
    }
}

/// Computes [`route_of`].
pub fn choose_prompt_route(force_new_tab: bool, tab_exists: bool, assistant_runs: bool) -> (route:
    PromptRoute)
    ensures
        route == route_of(force_new_tab, tab_exists, assistant_runs),
{
    if !force_new_tab && tab_exists && assistant_runs {
        PromptRoute::TypeIntoTab
    } else {
        PromptRoute::OpenNewTab
    }
}

/// The directory in which the terminals of a project open: that of its
/// first route.
pub fn project_directory(project: &Project) -> (out: Result<String, String>)
    ensures
        project.routes@.len() == 0 ==> (out matches Err(message) && message@
            == "No routes configured"@),
        project.routes@.len() > 0 ==> (out matches Ok(path) && path@ == project.routes@[0].path@),
{
    if project.routes.len() == 0 {
        Err("No routes configured".to_owned())
    } else {
        Ok(project.routes[0].path.clone())
    }
}

/// Whether a window with this title shows the session.
pub fn is_session_window(title: &str) -> (yes: bool)
    ensures
        yes == (contains_text(lowercase(title@), SESSION_NAME@) || contains_text(
            lowercase(title@),
            "tmux"@,
        )),
{
    let lower = to_lowercase(title);
    contains(lower.as_str(), SESSION_NAME) || contains(lower.as_str(), "tmux")
}

/// The script that attaches to `session_name`, or says that there is no
/// such session.
pub fn attach_script(session_name: &str) -> (script: String)
    ensures
        script@ == ATTACH_HEAD@ + session_name@ + ATTACH_OR_REPORT@,
{
    let mut script = concat(ATTACH_HEAD, session_name);
    script.append(ATTACH_OR_REPORT);
    script
}

/// `sorted` with `tab` put in behind the last tab whose order is not
/// greater.
pub open spec fn inserted(sorted: Seq<TmuxTab>, tab: TmuxTab) -> Seq<TmuxTab>
    decreases sorted.len(),
{
    if sorted.len() == 0 || sorted.last().order <= tab.order {
        sorted.push(tab)
    } else {
        inserted(sorted.drop_last(), tab).push(sorted.last())
    }
}

/// `tabs` by rising order, tabs of equal order as they stood.
pub open spec fn sorted_by_order(tabs: Seq<TmuxTab>) -> Seq<TmuxTab>
    decreases tabs.len(),
{
    if tabs.len() == 0 {
        Seq::empty()
    } else {
        inserted(sorted_by_order(tabs.drop_last()), tabs.last())
    }
}

/// Whether `tabs` stand by rising order.
pub open spec fn is_sorted_by_order(tabs: Seq<TmuxTab>) -> bool {
    forall|i: int, j: int| 0 <= i <= j < tabs.len() ==> tabs[i].order <= tabs[j].order
}

proof fn lemma_inserted_is_sorted(sorted: Seq<TmuxTab>, tab: TmuxTab)
    requires
        is_sorted_by_order(sorted),
    ensures
        is_sorted_by_order(inserted(sorted, tab)),
        inserted(sorted, tab).to_multiset() == sorted.to_multiset().insert(tab),
        inserted(sorted, tab).len() == sorted.len() + 1,
        forall|k: int|
            0 <= k < inserted(sorted, tab).len() ==> (#[trigger] inserted(sorted, tab)[k]) == tab
                || exists|m: int| 0 <= m < sorted.len() && sorted[m] == inserted(sorted, tab)[k],
    decreases sorted.len(),
{
    broadcast use vstd::seq_lib::group_to_multiset_ensures;

    let out = inserted(sorted, tab);
    if sorted.len() == 0 || sorted.last().order <= tab.order {
        assert forall|i: int, j: int| 0 <= i <= j < out.len() implies out[i].order
            <= out[j].order by {
            if j == sorted.len() {
                if i < sorted.len() {
                    assert(sorted[i].order <= sorted[sorted.len() - 1].order);
                }
            } else {
                assert(sorted[i].order <= sorted[j].order);
            }
        }
        assert forall|k: int| 0 <= k < out.len() implies (#[trigger] out[k]) == tab || exists|
            m: int,
        | 0 <= m < sorted.len() && sorted[m] == out[k] by {
            if k < sorted.len() {
                assert(sorted[k] == out[k]);
            }
        }
    } else {
        let rest = sorted.drop_last();
        let last = sorted.last();
        assert forall|i: int, j: int| 0 <= i <= j < rest.len() implies rest[i].order
            <= rest[j].order by {
            assert(sorted[i].order <= sorted[j].order);
        }
        lemma_inserted_is_sorted(rest, tab);
        let inner = inserted(rest, tab);
        assert(out == inner.push(last));
        assert forall|i: int, j: int| 0 <= i <= j < out.len() implies out[i].order
            <= out[j].order by {
            if j == inner.len() {
                if i < inner.len() {
                    if inner[i] == tab {
                    } else {
                        let m = choose|m: int| 0 <= m < rest.len() && rest[m] == inner[i];
                        assert(sorted[m].order <= sorted[sorted.len() - 1].order);
                    }
                }
            } else {
                assert(inner[i].order <= inner[j].order);
            }
        }
        assert forall|k: int| 0 <= k < out.len() implies (#[trigger] out[k]) == tab || exists|
            m: int,
        | 0 <= m < sorted.len() && sorted[m] == out[k] by {
            if k < inner.len() {
                if inner[k] != tab {
                    let m = choose|m: int| 0 <= m < rest.len() && rest[m] == inner[k];
                    assert(sorted[m] == out[k]);
                }
            } else {
                assert(sorted[sorted.len() - 1] == out[k]);
            }
        }
        assert(sorted =~= rest.push(last));
        assert(out.to_multiset() =~= sorted.to_multiset().insert(tab));
    }
}

/// Sorting by order gives the same tabs, by rising order.
pub proof fn law_tabs_are_sorted(tabs: Seq<TmuxTab>)
    ensures
        is_sorted_by_order(sorted_by_order(tabs)),
        sorted_by_order(tabs).to_multiset() == tabs.to_multiset(),
        sorted_by_order(tabs).len() == tabs.len(),
    decreases tabs.len(),
{
    broadcast use vstd::seq_lib::group_to_multiset_ensures;

    if tabs.len() > 0 {
        law_tabs_are_sorted(tabs.drop_last());
        lemma_inserted_is_sorted(sorted_by_order(tabs.drop_last()), tabs.last());
        assert(tabs =~= tabs.drop_last().push(tabs.last()));
    } else {
        assert(tabs =~= Seq::<TmuxTab>::empty());
    }
}

/// The directory of the route `route_id`: that of the first route with
/// this id, that of the first route where none has it.
pub open spec fn directory_of(routes: Seq<ProjectRoute>, route_id: Seq<char>, from: int) -> Seq<char>
    decreases routes.len() - from,
{
    if from < 0 || from >= routes.len() {
        routes[0].path@
    } else if routes[from].id@ == route_id {
        routes[from].path@
    } else {
        directory_of(routes, route_id, from + 1)
    }
}

/// The commands that open one tab: a session for the first tab, a window
/// for every other, and the tab's startup command where it has one.
pub open spec fn tab_commands_of(tab: TmuxTab, first: bool, routes: Seq<ProjectRoute>) -> Seq<char> {
    let open = if first {
        NEW_SESSION@
    } else {
        NEW_WINDOW@
    };
    let opened = open + tab.name@ + IN_DIRECTORY@ + directory_of(routes, tab.route_id@, 0)
        + END_OF_COMMAND@;
    match tab.startup_command {
        Some(command) => if command@.len() > 0 {
            opened + SEND_KEYS@ + tab.name@ + KEYS_BEGIN@ + command@ + KEYS_END@
        } else {
            opened
        },
        None => opened,
    }
}

/// The commands that open `tabs`, one after the other.
pub open spec fn all_tab_commands_of(tabs: Seq<TmuxTab>, routes: Seq<ProjectRoute>) -> Seq<char>
    decreases tabs.len(),
{
    if tabs.len() == 0 {
        Seq::empty()
    } else {
        all_tab_commands_of(tabs.drop_last(), routes) + tab_commands_of(
            tabs.last(),
            tabs.len() == 1,
            routes,
        )
    }
}

/// The script that opens a project's session: attach where the session is
/// there, else open its tabs by rising order, select the first and attach.
pub open spec fn session_script_of(config: TmuxConfig, routes: Seq<ProjectRoute>) -> Seq<char> {
    let tabs = sorted_by_order(config.tabs@);
    let opened = ATTACH_HEAD@ + config.session_name@ + ATTACH_OR_GO_ON@ + all_tab_commands_of(
        tabs,
        routes,
    );
    if tabs.len() > 0 {
        opened + SELECT_WINDOW@ + tabs[0].name@ + ATTACH_TAIL@
    } else {
        opened
    }
}

proof fn lemma_inserted_at(sorted: Seq<TmuxTab>, tab: TmuxTab, at: int)
    requires
        0 <= at <= sorted.len(),
        forall|k: int| at <= k < sorted.len() ==> (#[trigger] sorted[k]).order > tab.order,
        at > 0 ==> sorted[at - 1].order <= tab.order,
    ensures
        inserted(sorted, tab) == sorted.insert(at, tab),
    decreases sorted.len() - at,
{
    if at == sorted.len() {
        assert(sorted.insert(at, tab) =~= sorted.push(tab));
    } else {
        assert(sorted.last().order > tab.order);
        lemma_inserted_at(sorted.drop_last(), tab, at);
        assert(sorted.drop_last().insert(at, tab).push(sorted.last()) =~= sorted.insert(at, tab));
    }
}

/// The tabs behind `order`, a list of positions in `tabs`.
spec fn picked(tabs: Seq<TmuxTab>, order: Seq<usize>) -> Seq<TmuxTab> {
    Seq::new(order.len(), |k: int| tabs[order[k] as int])
}

fn sort_tabs(tabs: &Vec<TmuxTab>) -> (order: Vec<usize>)
    ensures
        order@.len() == tabs@.len(),
        forall|k: int| 0 <= k < order@.len() ==> (#[trigger] order@[k]) < tabs@.len(),
        picked(tabs@, order@) == sorted_by_order(tabs@),
{
    let mut order: Vec<usize> = Vec::new();
    let mut i: usize = 0;
    assert(tabs@.take(0) =~= Seq::<TmuxTab>::empty());
    assert(picked(tabs@, order@) =~= Seq::<TmuxTab>::empty());
    while i < tabs.len()
        invariant
            i <= tabs@.len(),
            order@.len() == i,
            forall|k: int| 0 <= k < order@.len() ==> (#[trigger] order@[k]) < tabs@.len(),
            picked(tabs@, order@) == sorted_by_order(tabs@.take(i as int)),
        decreases tabs@.len() - i,
    {
        let ghost before = picked(tabs@, order@);
        let mut at: usize = order.len();
        while at > 0 && tabs[order[at - 1]].order > tabs[i].order
            invariant
                at <= order@.len(),
                i < tabs@.len(),
                before == picked(tabs@, order@),
                forall|k: int| 0 <= k < order@.len() ==> (#[trigger] order@[k]) < tabs@.len(),
                forall|k: int|
                    at <= k < before.len() ==> (#[trigger] before[k]).order > tabs@[i as int].order,
            decreases at,
        {
            assert(before[at - 1] == tabs@[order@[at - 1] as int]);
            at -= 1;
        }
        proof {
            if at > 0 {
                assert(before[at - 1] == tabs@[order@[at - 1] as int]);
            }
            lemma_inserted_at(before, tabs@[i as int], at as int);
            assert(tabs@.take(i + 1).drop_last() =~= tabs@.take(i as int));
            assert(tabs@.take(i + 1).last() == tabs@[i as int]);
        }
        order.insert(at, i);
        assert(picked(tabs@, order@) =~= before.insert(at as int, tabs@[i as int]));
        i += 1;
    }
    assert(tabs@.take(i as int) =~= tabs@);
    order
}

fn directory_for<'a>(routes: &'a Vec<ProjectRoute>, route_id: &str) -> (path: &'a str)
    requires
        routes@.len() > 0,
    ensures
        path@ == directory_of(routes@, route_id@, 0),
{
    let mut i: usize = 0;
    while i < routes.len()
        invariant
            i <= routes@.len(),
            routes@.len() > 0,
            directory_of(routes@, route_id@, 0) == directory_of(routes@, route_id@, i as int),
        decreases routes@.len() - i,
    {
        if str_eq(routes[i].id.as_str(), route_id) {
            return routes[i].path.as_str();
        }
        i += 1;
    }
    routes[0].path.as_str()
}

fn append_tab_commands(script: &mut String, tab: &TmuxTab, first: bool, routes: &Vec<ProjectRoute>)
    requires
        routes@.len() > 0,
    ensures
        final(script)@ == old(script)@ + tab_commands_of(*tab, first, routes@),
{
    let ghost before = script@;
    if first {
        script.append(NEW_SESSION);
    } else {
        script.append(NEW_WINDOW);
    }
    script.append(tab.name.as_str());
    script.append(IN_DIRECTORY);
    script.append(directory_for(routes, tab.route_id.as_str()));
    script.append(END_OF_COMMAND);
    match &tab.startup_command {
        Some(command) => {
            if command.as_str().unicode_len() > 0 {
                script.append(SEND_KEYS);
                script.append(tab.name.as_str());
                script.append(KEYS_BEGIN);
                script.append(command.as_str());
                script.append(KEYS_END);
            }
        },
        None => {},
    }
    assert(script@ =~= before + tab_commands_of(*tab, first, routes@));
}

/// Writes the script that opens a project's session. A project with tabs
/// needs a route for them to open in.
pub fn project_session_script(config: &TmuxConfig, routes: &Vec<ProjectRoute>) -> (script: String)
    requires
        config.tabs@.len() > 0 ==> routes@.len() > 0,
    ensures
        script@ == session_script_of(*config, routes@),
{
    let order = sort_tabs(&config.tabs);
    let ghost tabs = sorted_by_order(config.tabs@);
    let mut script = concat(ATTACH_HEAD, config.session_name.as_str());
    script.append(ATTACH_OR_GO_ON);
    let ghost head = script@;
    let mut k: usize = 0;
    assert(tabs.take(0) =~= Seq::<TmuxTab>::empty());
    while k < order.len()
        invariant
            k <= order@.len(),
            order@.len() == config.tabs@.len(),
            config.tabs@.len() > 0 ==> routes@.len() > 0,
            forall|j: int| 0 <= j < order@.len() ==> (#[trigger] order@[j]) < config.tabs@.len(),
            picked(config.tabs@, order@) == tabs,
            script@ == head + all_tab_commands_of(tabs.take(k as int), routes@),
        decreases order@.len() - k,
    {
        proof {
            assert(tabs.take(k + 1).drop_last() =~= tabs.take(k as int));
            assert(tabs.take(k + 1).last() == tabs[k as int]);
            assert(tabs[k as int] == config.tabs@[order@[k as int] as int]);
        }
        let ghost before = script@;
        append_tab_commands(&mut script, &config.tabs[order[k]], k == 0, routes);
        assert(script@ =~= head + all_tab_commands_of(tabs.take(k + 1), routes@));
        k += 1;
    }
    assert(tabs.take(k as int) =~= tabs);
    if order.len() > 0 {
        assert(tabs[0] == config.tabs@[order@[0] as int]);
        script.append(SELECT_WINDOW);
        script.append(config.tabs[order[0]].name.as_str());
        script.append(ATTACH_TAIL);
    }
    assert(script@ =~= session_script_of(*config, routes@));
    script
}

} // verus!
