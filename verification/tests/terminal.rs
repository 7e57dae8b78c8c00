use workopilot::commands::{
    AIMetadata, Project, ProjectRoute, Subtask, TaskContext, TaskFull, TaskTimestamps, TmuxConfig,
    TmuxTab,
};
use workopilot::terminal::{
    attach_script, choose_prompt_route, escape_prompt, find_tab_by_name,
    generate_loading_animation_script, generate_prompt, get_tab_name, is_opencode_running,
    is_session_window, pane_command, plan_terminal_action, project_directory,
    project_session_script, safe_name, task_launch_script, window_names, workflow_launch_script,
    ActionPlan, PromptRoute, TerminalAction, SESSION_NAME,
};

fn project(name: &str) -> Project {
    Project {
        id: "123".to_string(),
        name: name.to_string(),
        path: "/tmp".to_string(),
        description: None,
        display_order: 0,
        routes: vec![],
        tmux_config: None,
        business_rules: None,
        tmux_configured: false,
        created_at: None,
        color: None,
    }
}

fn subtask(id: &str, title: &str) -> Subtask {
    Subtask {
        id: id.to_string(),
        task_id: None,
        title: title.to_string(),
        status: "pending".to_string(),
        order: 0,
        description: None,
        acceptance_criteria: None,
        technical_notes: None,
        prompt_context: None,
        created_at: None,
        completed_at: None,
    }
}

fn task(id: &str, title: &str, subtasks: Vec<Subtask>) -> TaskFull {
    TaskFull {
        schema_version: 2,
        initialized: true,
        id: id.to_string(),
        title: title.to_string(),
        status: "pending".to_string(),
        priority: 1,
        category: "feature".to_string(),
        complexity: None,
        context: TaskContext::default(),
        subtasks,
        ai_metadata: AIMetadata::default(),
        timestamps: TaskTimestamps::default(),
        modified_at: None,
        modified_by: None,
        project_id: None,
        due_date: None,
        scheduled_date: None,
    }
}

fn tab(name: &str, route_id: &str, command: Option<&str>, order: i32) -> TmuxTab {
    TmuxTab {
        id: format!("tab-{}", name),
        name: name.to_string(),
        route_id: route_id.to_string(),
        startup_command: command.map(|c| c.to_string()),
        order,
    }
}

fn route(id: &str, path: &str) -> ProjectRoute {
    ProjectRoute { id: id.to_string(), path: path.to_string(), order: 0, env_path: None }
}

#[test]
fn test_terminal_action_from_str() {
    assert_eq!(
        TerminalAction::from_str("launch_project").unwrap(),
        TerminalAction::LaunchProject
    );
    assert_eq!(
        TerminalAction::from_str("focus").unwrap(),
        TerminalAction::FocusSession
    );
    assert_eq!(
        TerminalAction::from_str("structure").unwrap(),
        TerminalAction::Structure
    );
    assert_eq!(
        TerminalAction::from_str("execute_all").unwrap(),
        TerminalAction::ExecuteAll
    );
    assert_eq!(
        TerminalAction::from_str("execute_subtask").unwrap(),
        TerminalAction::ExecuteSubtask
    );
    assert_eq!(
        TerminalAction::from_str("review").unwrap(),
        TerminalAction::Review
    );
    assert!(TerminalAction::from_str("invalid").is_err());
}

#[test]
fn test_get_tab_name() {
    let project = Project {
        id: "123".to_string(),
        name: "My Project".to_string(),
        path: "/tmp".to_string(),
        description: None,
        display_order: 0,
        routes: vec![],
        tmux_config: None,
        business_rules: None,
        tmux_configured: false,
        created_at: None,
        color: None,
    };

    // Test with long task_id
    let tab_name = get_tab_name(&project, "1769173112207-zweq0yz");
    assert_eq!(tab_name, "MyProject-17691731");

    // Test with short task_id
    let tab_name = get_tab_name(&project, "abc123");
    assert_eq!(tab_name, "MyProject-abc123");
}

#[test]
fn action_names_and_the_refusal() {
    assert_eq!(TerminalAction::from_str("focus_session").unwrap(), TerminalAction::FocusSession);
    assert_eq!(
        TerminalAction::from_str("Focus").unwrap_err(),
        "Unknown terminal action: Focus"
    );
    assert_eq!(TerminalAction::from_str("").unwrap_err(), "Unknown terminal action: ");
}

#[test]
fn tab_name_keeps_letters_numbers_hyphens_and_underscores() {
    assert_eq!(safe_name("My Project"), "MyProject");
    assert_eq!(safe_name("a-b_c.d/e!"), "a-b_cde");
    assert_eq!(safe_name("ação №5"), "ação5");
    assert_eq!(safe_name(""), "");
    assert_eq!(get_tab_name(&project("!!!"), "12345678"), "-12345678");
    assert_eq!(get_tab_name(&project("p"), "123456789"), "p-12345678");
    assert_eq!(get_tab_name(&project("p"), ""), "p-");
    assert_eq!(get_tab_name(&project("p"), "123456é89"), "p-123456é");
}

#[test]
fn tab_is_found_by_its_exact_name() {
    let windows = vec!["oc".to_string(), "MyProject-abc".to_string(), "term".to_string()];
    assert_eq!(find_tab_by_name(&windows, "MyProject-abc"), Some("MyProject-abc".to_string()));
    assert_eq!(find_tab_by_name(&windows, "MyProject"), None);
    assert_eq!(find_tab_by_name(&Vec::new(), "oc"), None);
}

#[test]
fn window_names_are_the_lines_of_the_listing() {
    assert_eq!(window_names(true, true, "oc\nterm\n"), vec!["oc", "term"]);
    assert_eq!(window_names(true, true, "oc\r\n\nterm"), vec!["oc", "", "term"]);
    assert_eq!(window_names(true, true, "oc\r"), vec!["oc\r"]);
    assert_eq!(window_names(true, true, "\n"), vec![""]);
    assert!(window_names(true, true, "").is_empty());
    assert!(window_names(false, true, "oc\n").is_empty());
    assert!(window_names(true, false, "oc\n").is_empty());
}

#[test]
fn assistant_runs_where_the_pane_runs_node() {
    assert_eq!(pane_command(true, " node \n"), "node");
    assert_eq!(pane_command(false, "node"), "");
    assert!(is_opencode_running(&Ok("node".to_string())));
    assert!(!is_opencode_running(&Ok("bash".to_string())));
    assert!(!is_opencode_running(&Ok("node ".to_string())));
    assert!(!is_opencode_running(&Err("no tmux".to_string())));
}

#[test]
fn prompts_name_title_and_id() {
    let t = task("t-1", "Login", vec![subtask("s1", "Form"), subtask("s2", "Token")]);
    assert_eq!(
        generate_prompt(&TerminalAction::Structure, &t, None),
        "Estruturar: Login, utilize a skill workopilot-structure para estruturar a task de id: t-1"
    );
    assert_eq!(
        generate_prompt(&TerminalAction::ExecuteAll, &t, Some("s1")),
        "Executar: Login, utilize a skill workopilot-execute-all para executar a task de id: t-1"
    );
    assert_eq!(
        generate_prompt(&TerminalAction::Review, &t, None),
        "Revisar: Login, utilize a skill workopilot-review para revisar a task de id: t-1"
    );
    assert_eq!(
        generate_prompt(&TerminalAction::ExecuteSubtask, &t, Some("s2")),
        "Executar subtask: Token (task: Login), utilize a skill workopilot-execute-subtask para executar a subtask s2 da task t-1"
    );
    assert_eq!(
        generate_prompt(&TerminalAction::ExecuteSubtask, &t, Some("s9")),
        "Executar subtask: Subtask (task: Login), utilize a skill workopilot-execute-subtask para executar a subtask s9 da task t-1"
    );
    assert_eq!(
        generate_prompt(&TerminalAction::ExecuteSubtask, &t, None),
        "Executar subtask: Subtask (task: Login), utilize a skill workopilot-execute-subtask para executar a subtask unknown da task t-1"
    );
    assert_eq!(generate_prompt(&TerminalAction::LaunchProject, &t, None), "");
    assert_eq!(generate_prompt(&TerminalAction::FocusSession, &t, None), "");
}

#[test]
fn first_subtask_with_the_id_gives_the_title() {
    let t = task("t", "T", vec![subtask("s", "First"), subtask("s", "Second")]);
    assert!(generate_prompt(&TerminalAction::ExecuteSubtask, &t, Some("s"))
        .starts_with("Executar subtask: First (task: T)"));
}

#[test]
fn prompt_is_escaped_for_double_quotes() {
    assert_eq!(escape_prompt("say \"hi\""), "say \\\"hi\\\"");
    assert_eq!(escape_prompt("a\\b"), "a\\\\b");
    assert_eq!(escape_prompt("\\\""), "\\\\\\\"");
    assert_eq!(escape_prompt("plain"), "plain");
    assert_eq!(escape_prompt(""), "");
}

#[test]
fn loading_script_has_its_exact_text() {
    let expected = EXPECTED_LOADING;
    let script = generate_loading_animation_script("workopilot", "MyProject-abc123", "say \\\"hi\\\"");
    assert_eq!(script, expected);
    assert_eq!(script.matches("\"workopilot:MyProject-abc123\"").count(), 2);
}

#[test]
fn launch_scripts_have_their_exact_text() {
    assert_eq!(SESSION_NAME, "workopilot");
    assert_eq!(
        task_launch_script("MyProject-abc123", "/work/app", "say \\\"hi\\\""),
        EXPECTED_LAUNCH
    );
    assert_eq!(
        workflow_launch_script("MyProject-abc123", "/work/app", "say \\\"hi\\\""),
        EXPECTED_WORKFLOW
    );
}

#[test]
fn attach_script_names_the_session() {
    assert_eq!(
        attach_script("demo"),
        "#!/usr/bin/env bash\nSESSION=\"demo\"\n\nif tmux has-session -t \"$SESSION\" 2>/dev/null; then\n    tmux attach-session -t \"$SESSION\"\nelse\n    echo \"Session $SESSION not found\"\n    sleep 2\nfi\n"
    );
}

#[test]
fn session_script_opens_tabs_by_order() {
    let config = TmuxConfig {
        session_name: "demo".to_string(),
        tabs: vec![
            tab("term", "r2", None, 1),
            tab("oc", "r1", Some("opencode"), 0),
            tab("logs", "gone", Some(""), 1),
        ],
    };
    let routes = vec![route("r1", "/work/app"), route("r2", "/work/app/web")];
    let expected = "#!/usr/bin/env bash\nSESSION=\"demo\"\n\nif tmux has-session -t \"$SESSION\" 2>/dev/null; then\n    tmux attach-session -t \"$SESSION\"\n    exit 0\nfi\n\ntmux new-session -d -s \"$SESSION\" -n \"oc\" -c \"/work/app\"\ntmux send-keys -t \"$SESSION:oc\" \"opencode\" Enter\ntmux new-window -t \"$SESSION\" -n \"term\" -c \"/work/app/web\"\ntmux new-window -t \"$SESSION\" -n \"logs\" -c \"/work/app\"\n\ntmux select-window -t \"$SESSION:oc\"\ntmux attach-session -t \"$SESSION\"\n";
    assert_eq!(project_session_script(&config, &routes), expected);
}

#[test]
fn session_script_without_tabs_only_attaches() {
    let config = TmuxConfig { session_name: "demo".to_string(), tabs: vec![] };
    assert_eq!(
        project_session_script(&config, &Vec::new()),
        "#!/usr/bin/env bash\nSESSION=\"demo\"\n\nif tmux has-session -t \"$SESSION\" 2>/dev/null; then\n    tmux attach-session -t \"$SESSION\"\n    exit 0\nfi\n\n"
    );
}

#[test]
fn tabs_of_equal_order_keep_their_place() {
    let config = TmuxConfig {
        session_name: "s".to_string(),
        tabs: vec![tab("b", "r", None, 5), tab("a", "r", None, 5), tab("c", "r", None, -1)],
    };
    let script = project_session_script(&config, &vec![route("r", "/p")]);
    let c = script.find("-n \"c\"").unwrap();
    let b = script.find("-n \"b\"").unwrap();
    let a = script.find("-n \"a\"").unwrap();
    assert!(c < b && b < a);
    assert!(script.contains("tmux new-session -d -s \"$SESSION\" -n \"c\""));
    assert!(script.ends_with("tmux select-window -t \"$SESSION:c\"\ntmux attach-session -t \"$SESSION\"\n"));
}

#[test]
fn plan_asks_for_what_the_action_needs() {
    let t = task("t-1", "Login", vec![subtask("s1", "Form")]);
    assert!(matches!(
        plan_terminal_action(TerminalAction::LaunchProject, None, None, None),
        Ok(ActionPlan::LaunchProject)
    ));
    assert_eq!(
        plan_terminal_action(TerminalAction::FocusSession, None, Some(&t), None).unwrap_err(),
        "task_id required for focus action"
    );
    assert_eq!(
        plan_terminal_action(TerminalAction::Structure, None, Some(&t), None).unwrap_err(),
        "task_id required for structure action"
    );
    assert_eq!(
        plan_terminal_action(TerminalAction::ExecuteAll, None, None, None).unwrap_err(),
        "task_id required for execute_all action"
    );
    assert_eq!(
        plan_terminal_action(TerminalAction::ExecuteSubtask, None, None, None).unwrap_err(),
        "task_id required for execute_subtask action"
    );
    assert_eq!(
        plan_terminal_action(TerminalAction::Review, None, None, None).unwrap_err(),
        "task_id required for review action"
    );
    assert_eq!(
        plan_terminal_action(TerminalAction::Review, Some("t-1".to_string()), None, None)
            .unwrap_err(),
        "task not found"
    );
    assert_eq!(
        plan_terminal_action(
            TerminalAction::ExecuteSubtask,
            Some("t-1".to_string()),
            Some(&t),
            None
        )
        .unwrap_err(),
        "subtask_id required for execute_subtask action"
    );
    assert_eq!(
        plan_terminal_action(TerminalAction::ExecuteSubtask, Some("t-1".to_string()), None, None)
            .unwrap_err(),
        "task not found"
    );
}

#[test]
fn plan_says_how_the_prompt_is_run() {
    let t = task("t-1", "Login", vec![subtask("s1", "Form")]);
    match plan_terminal_action(TerminalAction::FocusSession, Some("t-1".to_string()), None, None)
    {
        Ok(ActionPlan::Focus { task_id }) => assert_eq!(task_id, "t-1"),
        other => panic!("unexpected plan: {:?}", other),
    }
    match plan_terminal_action(TerminalAction::Structure, Some("t-1".to_string()), Some(&t), None)
    {
        Ok(ActionPlan::Run { task_id, prompt, mark_in_progress, force_new_tab }) => {
            assert_eq!(task_id, "t-1");
            assert_eq!(prompt, generate_prompt(&TerminalAction::Structure, &t, None));
            assert!(mark_in_progress);
            assert!(force_new_tab);
        }
        other => panic!("unexpected plan: {:?}", other),
    }
    match plan_terminal_action(
        TerminalAction::ExecuteAll,
        Some("t-1".to_string()),
        Some(&t),
        Some("s1".to_string()),
    ) {
        Ok(ActionPlan::Run { prompt, mark_in_progress, force_new_tab, .. }) => {
            assert_eq!(prompt, generate_prompt(&TerminalAction::ExecuteAll, &t, None));
            assert!(mark_in_progress);
            assert!(!force_new_tab);
        }
        other => panic!("unexpected plan: {:?}", other),
    }
    match plan_terminal_action(
        TerminalAction::ExecuteSubtask,
        Some("t-1".to_string()),
        Some(&t),
        Some("s1".to_string()),
    ) {
        Ok(ActionPlan::Run { prompt, mark_in_progress, force_new_tab, .. }) => {
            assert_eq!(prompt, generate_prompt(&TerminalAction::ExecuteSubtask, &t, Some("s1")));
            assert!(mark_in_progress);
            assert!(!force_new_tab);
        }
        other => panic!("unexpected plan: {:?}", other),
    }
    match plan_terminal_action(TerminalAction::Review, Some("t-1".to_string()), Some(&t), None) {
        Ok(ActionPlan::Run { prompt, mark_in_progress, force_new_tab, .. }) => {
            assert_eq!(prompt, generate_prompt(&TerminalAction::Review, &t, None));
            assert!(!mark_in_progress);
            assert!(!force_new_tab);
        }
        other => panic!("unexpected plan: {:?}", other),
    }
}

#[test]
fn prompt_is_typed_only_into_a_running_assistant() {
    assert_eq!(choose_prompt_route(false, true, true), PromptRoute::TypeIntoTab);
    assert_eq!(choose_prompt_route(true, true, true), PromptRoute::OpenNewTab);
    assert_eq!(choose_prompt_route(false, false, true), PromptRoute::OpenNewTab);
    assert_eq!(choose_prompt_route(false, true, false), PromptRoute::OpenNewTab);
}

#[test]
fn terminals_open_in_the_first_route() {
    let mut p = project("p");
    assert_eq!(project_directory(&p).unwrap_err(), "No routes configured");
    p.routes = vec![route("r1", "/a"), route("r2", "/b")];
    assert_eq!(project_directory(&p).unwrap(), "/a");
}

#[test]
fn session_window_is_known_by_its_title() {
    assert!(is_session_window("WorkoPilot - main"));
    assert!(is_session_window("TMUX"));
    assert!(!is_session_window("Alacritty"));
    assert!(!is_session_window(""));
}

const EXPECTED_LOADING: &str = r#"
clear
printf '\e[?25l'
stty -echo 2>/dev/null

GREEN="\e[38;5;143m"
GREEN4="\e[38;5;65m"
DIM="\e[38;5;238m"
WHITE="\e[38;5;255m"
R="\e[0m"
B="\e[1m"

COLS=$(tput cols)
ROWS=$(tput lines)

LOGO1="██╗    ██╗  ██████╗  ██████╗  ██╗  ██╗  ██████╗  ██████╗  ██╗ ██╗       ██████╗  ████████╗"
LOGO2="██║    ██║ ██╔═══██╗ ██╔══██╗ ██║ ██╔╝ ██╔═══██╗ ██╔══██╗ ██║ ██║      ██╔═══██╗ ╚══██╔══╝"
LOGO3="██║ █╗ ██║ ██║   ██║ ██████╔╝ █████╔╝  ██║   ██║ ██████╔╝ ██║ ██║      ██║   ██║    ██║   "
LOGO4="██║███╗██║ ██║   ██║ ██╔══██╗ ██╔═██╗  ██║   ██║ ██╔═══╝  ██║ ██║      ██║   ██║    ██║   "
LOGO5="╚███╔███╔╝ ╚██████╔╝ ██║  ██║ ██║  ██╗ ╚██████╔╝ ██║      ██║ ███████╗ ╚██████╔╝    ██║   "
LOGO6=" ╚══╝╚══╝   ╚═════╝  ╚═╝  ╚═╝ ╚═╝  ╚═╝  ╚═════╝  ╚═╝      ╚═╝ ╚══════╝  ╚═════╝     ╚═╝   "

CX=$(( (COLS - 88) / 2 ))
CY=$(( (ROWS - 16) / 2 ))
[ $CX -lt 1 ] && CX=1
[ $CY -lt 1 ] && CY=1

BAR_WIDTH=50
BAR_Y=$((CY + 8))
BAR_X=$(( (COLS - BAR_WIDTH - 2) / 2 ))
MSG_Y=$((CY + 11))
MSG_X=$(( (COLS - 22) / 2 ))

draw_base() {
    clear
    printf "\e[3;10H$GREEN4✦$R"
    printf "\e[4;$((COLS-10))H$GREEN4✧$R"
    printf "\e[3;$((COLS/2))H$GREEN4◆$R"
    printf "\e[$((ROWS-3));15H$GREEN4✧$R"
    printf "\e[$((ROWS-4));$((COLS-15))H$GREEN4✦$R"
    printf "\e[$((ROWS-3));$((COLS/2-5))H$GREEN4◇$R"
    printf "\e[$((CY-2));$((CX+20))H$GREEN4✦$R"
    printf "\e[$((CY+8));$((CX-3))H$GREEN4◇$R"
    printf "\e[$((CY+8));$((CX+90))H$GREEN4✧$R"
    printf "\e[$CY;${CX}H$GREEN$B$LOGO1$R"
    printf "\e[$((CY+1));${CX}H$GREEN$B$LOGO2$R"
    printf "\e[$((CY+2));${CX}H$GREEN$B$LOGO3$R"
    printf "\e[$((CY+3));${CX}H$GREEN$B$LOGO4$R"
    printf "\e[$((CY+4));${CX}H$GREEN$B$LOGO5$R"
    printf "\e[$((CY+5));${CX}H$GREEN$B$LOGO6$R"
    printf "\e[$BAR_Y;${BAR_X}H$DIM[$R"
    printf "\e[$BAR_Y;$((BAR_X + BAR_WIDTH + 1))H$DIM]$R"
    printf "\e[$((ROWS-2));$((COLS/2-20))H$DIM⚡ Preparando seu ambiente de código ⚡$R"
}

draw_progress() {
    local filled=$1
    printf "\e[$BAR_Y;$((BAR_X + 1))H"
    for j in $(seq 1 $BAR_WIDTH); do
        if [ $j -le $filled ]; then
            printf "$GREEN█$R"
        else
            printf "$DIM░$R"
        fi
    done
    printf "\e[$MSG_Y;${MSG_X}H$WHITE Iniciando OpenCode...$R"
}

draw_success() {
    printf "\e[$BAR_Y;$((BAR_X + 1))H"
    for j in $(seq 1 $BAR_WIDTH); do
        printf "$GREEN█$R"
    done
    printf "\e[$MSG_Y;${MSG_X}H$GREEN$B✓$R $WHITE$BOpenCode Pronto!$R   "
}

draw_base

NODE_READY=0
PROGRESS=0

for i in $(seq 1 90); do
    PANE_CMD=$(tmux display-message -p -t "workopilot:MyProject-abc123" '#{pane_current_command}' 2>/dev/null)
    if [ "$PANE_CMD" = "node" ]; then
        NODE_READY=1
        while [ $PROGRESS -lt $BAR_WIDTH ]; do
            PROGRESS=$((PROGRESS + 2))
            [ $PROGRESS -gt $BAR_WIDTH ] && PROGRESS=$BAR_WIDTH
            draw_progress $PROGRESS
            sleep 0.03
        done
        break
    fi
    PROGRESS=$((i * BAR_WIDTH / 100))
    [ $PROGRESS -gt $((BAR_WIDTH - 8)) ] && PROGRESS=$((BAR_WIDTH - 8))
    draw_progress $PROGRESS
    sleep 0.35
done

if [ $NODE_READY -eq 1 ]; then
    draw_success
    sleep 2.5
    tmux send-keys -t "workopilot:MyProject-abc123" "say \"hi\"" Enter
fi

printf '\e[?25h'
stty echo 2>/dev/null
"#;

const EXPECTED_LAUNCH: &str = r#"#!/usr/bin/env bash
SESSION="workopilot"
TAB_NAME="MyProject-abc123"
PROJECT_PATH="/work/app"

if tmux has-session -t "$SESSION" 2>/dev/null; then
    tmux kill-window -t "$SESSION:$TAB_NAME" 2>/dev/null
    tmux new-window -t "$SESSION" -n "$TAB_NAME" -c "$PROJECT_PATH"
else
    tmux new-session -d -s "$SESSION" -n "$TAB_NAME" -c "$PROJECT_PATH"
fi

sleep 0.3
tmux send-keys -t "$SESSION:$TAB_NAME" "opencode" Enter


clear
printf '\e[?25l'
stty -echo 2>/dev/null

GREEN="\e[38;5;143m"
GREEN4="\e[38;5;65m"
DIM="\e[38;5;238m"
WHITE="\e[38;5;255m"
R="\e[0m"
B="\e[1m"

COLS=$(tput cols)
ROWS=$(tput lines)

LOGO1="██╗    ██╗  ██████╗  ██████╗  ██╗  ██╗  ██████╗  ██████╗  ██╗ ██╗       ██████╗  ████████╗"
LOGO2="██║    ██║ ██╔═══██╗ ██╔══██╗ ██║ ██╔╝ ██╔═══██╗ ██╔══██╗ ██║ ██║      ██╔═══██╗ ╚══██╔══╝"
LOGO3="██║ █╗ ██║ ██║   ██║ ██████╔╝ █████╔╝  ██║   ██║ ██████╔╝ ██║ ██║      ██║   ██║    ██║   "
LOGO4="██║███╗██║ ██║   ██║ ██╔══██╗ ██╔═██╗  ██║   ██║ ██╔═══╝  ██║ ██║      ██║   ██║    ██║   "
LOGO5="╚███╔███╔╝ ╚██████╔╝ ██║  ██║ ██║  ██╗ ╚██████╔╝ ██║      ██║ ███████╗ ╚██████╔╝    ██║   "
LOGO6=" ╚══╝╚══╝   ╚═════╝  ╚═╝  ╚═╝ ╚═╝  ╚═╝  ╚═════╝  ╚═╝      ╚═╝ ╚══════╝  ╚═════╝     ╚═╝   "

CX=$(( (COLS - 88) / 2 ))
CY=$(( (ROWS - 16) / 2 ))
[ $CX -lt 1 ] && CX=1
[ $CY -lt 1 ] && CY=1

BAR_WIDTH=50
BAR_Y=$((CY + 8))
BAR_X=$(( (COLS - BAR_WIDTH - 2) / 2 ))
MSG_Y=$((CY + 11))
MSG_X=$(( (COLS - 22) / 2 ))

draw_base() {
    clear
    printf "\e[3;10H$GREEN4✦$R"
    printf "\e[4;$((COLS-10))H$GREEN4✧$R"
    printf "\e[3;$((COLS/2))H$GREEN4◆$R"
    printf "\e[$((ROWS-3));15H$GREEN4✧$R"
    printf "\e[$((ROWS-4));$((COLS-15))H$GREEN4✦$R"
    printf "\e[$((ROWS-3));$((COLS/2-5))H$GREEN4◇$R"
    printf "\e[$((CY-2));$((CX+20))H$GREEN4✦$R"
    printf "\e[$((CY+8));$((CX-3))H$GREEN4◇$R"
    printf "\e[$((CY+8));$((CX+90))H$GREEN4✧$R"
    printf "\e[$CY;${CX}H$GREEN$B$LOGO1$R"
    printf "\e[$((CY+1));${CX}H$GREEN$B$LOGO2$R"
    printf "\e[$((CY+2));${CX}H$GREEN$B$LOGO3$R"
    printf "\e[$((CY+3));${CX}H$GREEN$B$LOGO4$R"
    printf "\e[$((CY+4));${CX}H$GREEN$B$LOGO5$R"
    printf "\e[$((CY+5));${CX}H$GREEN$B$LOGO6$R"
    printf "\e[$BAR_Y;${BAR_X}H$DIM[$R"
    printf "\e[$BAR_Y;$((BAR_X + BAR_WIDTH + 1))H$DIM]$R"
    printf "\e[$((ROWS-2));$((COLS/2-20))H$DIM⚡ Preparando seu ambiente de código ⚡$R"
}

draw_progress() {
    local filled=$1
    printf "\e[$BAR_Y;$((BAR_X + 1))H"
    for j in $(seq 1 $BAR_WIDTH); do
        if [ $j -le $filled ]; then
            printf "$GREEN█$R"
        else
            printf "$DIM░$R"
        fi
    done
    printf "\e[$MSG_Y;${MSG_X}H$WHITE Iniciando OpenCode...$R"
}

draw_success() {
    printf "\e[$BAR_Y;$((BAR_X + 1))H"
    for j in $(seq 1 $BAR_WIDTH); do
        printf "$GREEN█$R"
    done
    printf "\e[$MSG_Y;${MSG_X}H$GREEN$B✓$R $WHITE$BOpenCode Pronto!$R   "
}

draw_base

NODE_READY=0
PROGRESS=0

for i in $(seq 1 90); do
    PANE_CMD=$(tmux display-message -p -t "workopilot:MyProject-abc123" '#{pane_current_command}' 2>/dev/null)
    if [ "$PANE_CMD" = "node" ]; then
        NODE_READY=1
        while [ $PROGRESS -lt $BAR_WIDTH ]; do
            PROGRESS=$((PROGRESS + 2))
            [ $PROGRESS -gt $BAR_WIDTH ] && PROGRESS=$BAR_WIDTH
            draw_progress $PROGRESS
            sleep 0.03
        done
        break
    fi
    PROGRESS=$((i * BAR_WIDTH / 100))
    [ $PROGRESS -gt $((BAR_WIDTH - 8)) ] && PROGRESS=$((BAR_WIDTH - 8))
    draw_progress $PROGRESS
    sleep 0.35
done

if [ $NODE_READY -eq 1 ]; then
    draw_success
    sleep 2.5
    tmux send-keys -t "workopilot:MyProject-abc123" "say \"hi\"" Enter
fi

printf '\e[?25h'
stty echo 2>/dev/null


tmux select-window -t "$SESSION:$TAB_NAME"
tmux attach-session -t "$SESSION"
"#;

const EXPECTED_WORKFLOW: &str = r#"#!/usr/bin/env bash
SESSION="workopilot"
TAB_NAME="MyProject-abc123"
PROJECT_PATH="/work/app"

echo "[WorkoPilot Script] Starting..."
echo "[WorkoPilot Script] Session: $SESSION, Tab: $TAB_NAME"
echo "[WorkoPilot Script] Project path: $PROJECT_PATH"

if tmux has-session -t "$SESSION" 2>/dev/null; then
    echo "[WorkoPilot Script] Session exists, killing old window if any..."
    tmux kill-window -t "$SESSION:$TAB_NAME" 2>/dev/null
    tmux new-window -t "$SESSION" -n "$TAB_NAME" -c "$PROJECT_PATH"
else
    echo "[WorkoPilot Script] Creating new session..."
    tmux new-session -d -s "$SESSION" -n "$TAB_NAME" -c "$PROJECT_PATH"
fi

sleep 0.3
echo "[WorkoPilot Script] Sending opencode command..."
tmux send-keys -t "$SESSION:$TAB_NAME" "opencode" Enter


clear
printf '\e[?25l'
stty -echo 2>/dev/null

GREEN="\e[38;5;143m"
GREEN4="\e[38;5;65m"
DIM="\e[38;5;238m"
WHITE="\e[38;5;255m"
R="\e[0m"
B="\e[1m"

COLS=$(tput cols)
ROWS=$(tput lines)

LOGO1="██╗    ██╗  ██████╗  ██████╗  ██╗  ██╗  ██████╗  ██████╗  ██╗ ██╗       ██████╗  ████████╗"
LOGO2="██║    ██║ ██╔═══██╗ ██╔══██╗ ██║ ██╔╝ ██╔═══██╗ ██╔══██╗ ██║ ██║      ██╔═══██╗ ╚══██╔══╝"
LOGO3="██║ █╗ ██║ ██║   ██║ ██████╔╝ █████╔╝  ██║   ██║ ██████╔╝ ██║ ██║      ██║   ██║    ██║   "
LOGO4="██║███╗██║ ██║   ██║ ██╔══██╗ ██╔═██╗  ██║   ██║ ██╔═══╝  ██║ ██║      ██║   ██║    ██║   "
LOGO5="╚███╔███╔╝ ╚██████╔╝ ██║  ██║ ██║  ██╗ ╚██████╔╝ ██║      ██║ ███████╗ ╚██████╔╝    ██║   "
LOGO6=" ╚══╝╚══╝   ╚═════╝  ╚═╝  ╚═╝ ╚═╝  ╚═╝  ╚═════╝  ╚═╝      ╚═╝ ╚══════╝  ╚═════╝     ╚═╝   "

CX=$(( (COLS - 88) / 2 ))
CY=$(( (ROWS - 16) / 2 ))
[ $CX -lt 1 ] && CX=1
[ $CY -lt 1 ] && CY=1

BAR_WIDTH=50
BAR_Y=$((CY + 8))
BAR_X=$(( (COLS - BAR_WIDTH - 2) / 2 ))
MSG_Y=$((CY + 11))
MSG_X=$(( (COLS - 22) / 2 ))

draw_base() {
    clear
    printf "\e[3;10H$GREEN4✦$R"
    printf "\e[4;$((COLS-10))H$GREEN4✧$R"
    printf "\e[3;$((COLS/2))H$GREEN4◆$R"
    printf "\e[$((ROWS-3));15H$GREEN4✧$R"
    printf "\e[$((ROWS-4));$((COLS-15))H$GREEN4✦$R"
    printf "\e[$((ROWS-3));$((COLS/2-5))H$GREEN4◇$R"
    printf "\e[$((CY-2));$((CX+20))H$GREEN4✦$R"
    printf "\e[$((CY+8));$((CX-3))H$GREEN4◇$R"
    printf "\e[$((CY+8));$((CX+90))H$GREEN4✧$R"
    printf "\e[$CY;${CX}H$GREEN$B$LOGO1$R"
    printf "\e[$((CY+1));${CX}H$GREEN$B$LOGO2$R"
    printf "\e[$((CY+2));${CX}H$GREEN$B$LOGO3$R"
    printf "\e[$((CY+3));${CX}H$GREEN$B$LOGO4$R"
    printf "\e[$((CY+4));${CX}H$GREEN$B$LOGO5$R"
    printf "\e[$((CY+5));${CX}H$GREEN$B$LOGO6$R"
    printf "\e[$BAR_Y;${BAR_X}H$DIM[$R"
    printf "\e[$BAR_Y;$((BAR_X + BAR_WIDTH + 1))H$DIM]$R"
    printf "\e[$((ROWS-2));$((COLS/2-20))H$DIM⚡ Preparando seu ambiente de código ⚡$R"
}

draw_progress() {
    local filled=$1
    printf "\e[$BAR_Y;$((BAR_X + 1))H"
    for j in $(seq 1 $BAR_WIDTH); do
        if [ $j -le $filled ]; then
            printf "$GREEN█$R"
        else
            printf "$DIM░$R"
        fi
    done
    printf "\e[$MSG_Y;${MSG_X}H$WHITE Iniciando OpenCode...$R"
}

draw_success() {
    printf "\e[$BAR_Y;$((BAR_X + 1))H"
    for j in $(seq 1 $BAR_WIDTH); do
        printf "$GREEN█$R"
    done
    printf "\e[$MSG_Y;${MSG_X}H$GREEN$B✓$R $WHITE$BOpenCode Pronto!$R   "
}

draw_base

NODE_READY=0
PROGRESS=0

for i in $(seq 1 90); do
    PANE_CMD=$(tmux display-message -p -t "workopilot:MyProject-abc123" '#{pane_current_command}' 2>/dev/null)
    if [ "$PANE_CMD" = "node" ]; then
        NODE_READY=1
        while [ $PROGRESS -lt $BAR_WIDTH ]; do
            PROGRESS=$((PROGRESS + 2))
            [ $PROGRESS -gt $BAR_WIDTH ] && PROGRESS=$BAR_WIDTH
            draw_progress $PROGRESS
            sleep 0.03
        done
        break
    fi
    PROGRESS=$((i * BAR_WIDTH / 100))
    [ $PROGRESS -gt $((BAR_WIDTH - 8)) ] && PROGRESS=$((BAR_WIDTH - 8))
    draw_progress $PROGRESS
    sleep 0.35
done

if [ $NODE_READY -eq 1 ]; then
    draw_success
    sleep 2.5
    tmux send-keys -t "workopilot:MyProject-abc123" "say \"hi\"" Enter
fi

printf '\e[?25h'
stty echo 2>/dev/null


tmux select-window -t "$SESSION:$TAB_NAME"
echo "[WorkoPilot Script] Attaching to session..."
tmux attach-session -t "$SESSION"
"#;

#[test]
fn escaping_and_naming_agree_with_the_standard_library() {
    for prompt in ["", "plain", "a\\b", "say \"hi\"", "\\\"\\", "é\"ü\\", "\\\\\"\""] {
        let expected = prompt.replace('\\', "\\\\").replace('"', "\\\"");
        assert_eq!(escape_prompt(prompt), expected, "{:?}", prompt);
    }
    for name in ["My Project", "a-b_c.d/e!", "ação №5", "", "---", "日本語 プロジェクト", "x²"] {
        let expected: String =
            name.chars().filter(|c| c.is_alphanumeric() || *c == '-' || *c == '_').collect();
        assert_eq!(safe_name(name), expected, "{:?}", name);
    }
}
