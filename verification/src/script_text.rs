//! The fixed text of the shell scripts that open and drive terminal
//! sessions. The scripts are put together in `terminal`.

use vstd::prelude::*;

verus! {

/// The animation script up to the first pane it names.
pub const LOADING_HEAD: &'static str = r#"
clear
printf '\e[?25l'
stty -echo 2>/dev/null

GREEN="\e[38;5;143m"
GREEN4="\e[38;5;65m"
DIM="\e[38;5;238m"
WHITE="\e[38;5;255m"
R="\e[0m"
B="\e[1m"

COLS=$(tput cols)
ROWS=$(tput lines)

LOGO1="██╗    ██╗  ██████╗  ██████╗  ██╗  ██╗  ██████╗  ██████╗  ██╗ ██╗       ██████╗  ████████╗"
LOGO2="██║    ██║ ██╔═══██╗ ██╔══██╗ ██║ ██╔╝ ██╔═══██╗ ██╔══██╗ ██║ ██║      ██╔═══██╗ ╚══██╔══╝"
LOGO3="██║ █╗ ██║ ██║   ██║ ██████╔╝ █████╔╝  ██║   ██║ ██████╔╝ ██║ ██║      ██║   ██║    ██║   "
LOGO4="██║███╗██║ ██║   ██║ ██╔══██╗ ██╔═██╗  ██║   ██║ ██╔═══╝  ██║ ██║      ██║   ██║    ██║   "
LOGO5="╚███╔███╔╝ ╚██████╔╝ ██║  ██║ ██║  ██╗ ╚██████╔╝ ██║      ██║ ███████╗ ╚██████╔╝    ██║   "
LOGO6=" ╚══╝╚══╝   ╚═════╝  ╚═╝  ╚═╝ ╚═╝  ╚═╝  ╚═════╝  ╚═╝      ╚═╝ ╚══════╝  ╚═════╝     ╚═╝   "

CX=$(( (COLS - 88) / 2 ))
CY=$(( (ROWS - 16) / 2 ))
[ $CX -lt 1 ] && CX=1
[ $CY -lt 1 ] && CY=1

BAR_WIDTH=50
BAR_Y=$((CY + 8))
BAR_X=$(( (COLS - BAR_WIDTH - 2) / 2 ))
MSG_Y=$((CY + 11))
MSG_X=$(( (COLS - 22) / 2 ))

draw_base() {
    clear
    printf "\e[3;10H$GREEN4✦$R"
    printf "\e[4;$((COLS-10))H$GREEN4✧$R"
    printf "\e[3;$((COLS/2))H$GREEN4◆$R"
    printf "\e[$((ROWS-3));15H$GREEN4✧$R"
    printf "\e[$((ROWS-4));$((COLS-15))H$GREEN4✦$R"
    printf "\e[$((ROWS-3));$((COLS/2-5))H$GREEN4◇$R"
    printf "\e[$((CY-2));$((CX+20))H$GREEN4✦$R"
    printf "\e[$((CY+8));$((CX-3))H$GREEN4◇$R"
    printf "\e[$((CY+8));$((CX+90))H$GREEN4✧$R"
    printf "\e[$CY;${CX}H$GREEN$B$LOGO1$R"
    printf "\e[$((CY+1));${CX}H$GREEN$B$LOGO2$R"
    printf "\e[$((CY+2));${CX}H$GREEN$B$LOGO3$R"
    printf "\e[$((CY+3));${CX}H$GREEN$B$LOGO4$R"
    printf "\e[$((CY+4));${CX}H$GREEN$B$LOGO5$R"
    printf "\e[$((CY+5));${CX}H$GREEN$B$LOGO6$R"
    printf "\e[$BAR_Y;${BAR_X}H$DIM[$R"
    printf "\e[$BAR_Y;$((BAR_X + BAR_WIDTH + 1))H$DIM]$R"
    printf "\e[$((ROWS-2));$((COLS/2-20))H$DIM⚡ Preparando seu ambiente de código ⚡$R"
}

draw_progress() {
    local filled=$1
    printf "\e[$BAR_Y;$((BAR_X + 1))H"
    for j in $(seq 1 $BAR_WIDTH); do
        if [ $j -le $filled ]; then
            printf "$GREEN█$R"
        else
            printf "$DIM░$R"
        fi
    done
    printf "\e[$MSG_Y;${MSG_X}H$WHITE Iniciando OpenCode...$R"
}

draw_success() {
    printf "\e[$BAR_Y;$((BAR_X + 1))H"
    for j in $(seq 1 $BAR_WIDTH); do
        printf "$GREEN█$R"
    done
    printf "\e[$MSG_Y;${MSG_X}H$GREEN$B✓$R $WHITE$BOpenCode Pronto!$R   "
}

draw_base

NODE_READY=0
PROGRESS=0

for i in $(seq 1 90); do
    PANE_CMD=$(tmux display-message -p -t ""#;

/// The animation script between the pane it polls and the pane it sends keys to.
pub const LOADING_WAIT: &'static str = r#"" '#{pane_current_command}' 2>/dev/null)
    if [ "$PANE_CMD" = "node" ]; then
        NODE_READY=1
        while [ $PROGRESS -lt $BAR_WIDTH ]; do
            PROGRESS=$((PROGRESS + 2))
            [ $PROGRESS -gt $BAR_WIDTH ] && PROGRESS=$BAR_WIDTH
            draw_progress $PROGRESS
            sleep 0.03
        done
        break
    fi
    PROGRESS=$((i * BAR_WIDTH / 100))
    [ $PROGRESS -gt $((BAR_WIDTH - 8)) ] && PROGRESS=$((BAR_WIDTH - 8))
    draw_progress $PROGRESS
    sleep 0.35
done

if [ $NODE_READY -eq 1 ]; then
    draw_success
    sleep 2.5
    tmux send-keys -t ""#;

/// What stands between the pane and the prompt in the command that sends it.
pub const LOADING_SEND: &'static str = r#"" ""#;

/// The end of the animation script.
pub const LOADING_TAIL: &'static str = r#"" Enter
fi

printf '\e[?25h'
stty echo 2>/dev/null
"#;

/// The launch script up to the session name.
pub const LAUNCH_HEAD: &'static str = r#"#!/usr/bin/env bash
SESSION=""#;

/// The launch script between session name and tab name.
pub const LAUNCH_TAB: &'static str = r#""
TAB_NAME=""#;

/// The launch script between tab name and project path.
pub const LAUNCH_PATH: &'static str = r#""
PROJECT_PATH=""#;

/// The launch script between project path and animation.
pub const LAUNCH_BODY: &'static str = r#""

if tmux has-session -t "$SESSION" 2>/dev/null; then
    tmux kill-window -t "$SESSION:$TAB_NAME" 2>/dev/null
    tmux new-window -t "$SESSION" -n "$TAB_NAME" -c "$PROJECT_PATH"
else
    tmux new-session -d -s "$SESSION" -n "$TAB_NAME" -c "$PROJECT_PATH"
fi

sleep 0.3
tmux send-keys -t "$SESSION:$TAB_NAME" "opencode" Enter

"#;

/// The end of the launch script.
pub const LAUNCH_TAIL: &'static str = r#"

tmux select-window -t "$SESSION:$TAB_NAME"
tmux attach-session -t "$SESSION"
"#;

/// The talkative launch script between project path and animation.
pub const WORKFLOW_BODY: &'static str = r#""

echo "[WorkoPilot Script] Starting..."
echo "[WorkoPilot Script] Session: $SESSION, Tab: $TAB_NAME"
echo "[WorkoPilot Script] Project path: $PROJECT_PATH"

if tmux has-session -t "$SESSION" 2>/dev/null; then
    echo "[WorkoPilot Script] Session exists, killing old window if any..."
    tmux kill-window -t "$SESSION:$TAB_NAME" 2>/dev/null
    tmux new-window -t "$SESSION" -n "$TAB_NAME" -c "$PROJECT_PATH"
else
    echo "[WorkoPilot Script] Creating new session..."
    tmux new-session -d -s "$SESSION" -n "$TAB_NAME" -c "$PROJECT_PATH"
fi

sleep 0.3
echo "[WorkoPilot Script] Sending opencode command..."
tmux send-keys -t "$SESSION:$TAB_NAME" "opencode" Enter

"#;

/// The end of the talkative launch script.
pub const WORKFLOW_TAIL: &'static str = r#"

tmux select-window -t "$SESSION:$TAB_NAME"
echo "[WorkoPilot Script] Attaching to session..."
tmux attach-session -t "$SESSION"
"#;

/// A script that attaches to a session, up to the session name.
pub const ATTACH_HEAD: &'static str = r#"#!/usr/bin/env bash
SESSION=""#;

/// The end of the script that attaches to a session or reports that there is none.
pub const ATTACH_OR_REPORT: &'static str = r#""

if tmux has-session -t "$SESSION" 2>/dev/null; then
    tmux attach-session -t "$SESSION"
else
    echo "Session $SESSION not found"
    sleep 2
fi
"#;

/// What follows the session name in the script that builds a session unless it is there.
pub const ATTACH_OR_GO_ON: &'static str = r#""

if tmux has-session -t "$SESSION" 2>/dev/null; then
    tmux attach-session -t "$SESSION"
    exit 0
fi

"#;

/// Opens the session with its first tab, up to the tab name.
pub const NEW_SESSION: &'static str = r#"tmux new-session -d -s "$SESSION" -n ""#;

/// Opens a further tab, up to the tab name.
pub const NEW_WINDOW: &'static str = r#"tmux new-window -t "$SESSION" -n ""#;

/// What stands between a tab name and its directory.
pub const IN_DIRECTORY: &'static str = r#"" -c ""#;

/// Closes a quoted argument and the line.
pub const END_OF_COMMAND: &'static str = r#""
"#;

/// Types into a tab, up to the tab name.
pub const SEND_KEYS: &'static str = r#"tmux send-keys -t "$SESSION:"#;

/// What stands between a tab name and the keys typed into it.
pub const KEYS_BEGIN: &'static str = r#"" ""#;

/// Closes the keys and presses Enter.
pub const KEYS_END: &'static str = r#"" Enter
"#;

/// Selects a tab, up to the tab name.
pub const SELECT_WINDOW: &'static str = r#"
tmux select-window -t "$SESSION:"#;

/// Closes the tab name and attaches to the session.
pub const ATTACH_TAIL: &'static str = r#""
tmux attach-session -t "$SESSION"
"#;

} // verus!
