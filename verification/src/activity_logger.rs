//! The activity log: which event a change of status is, and how many tokens
//! an assistant session is booked with.

use vstd::prelude::*;
use crate::text::{copy_text, option_text, str_eq};
use crate::token_tracker::{or_zero, TokenUsage};

verus! {

/// Remembers the user's current sitting.
pub struct ActivityLogger {
    current_session_id: Option<String>,
}

impl View for ActivityLogger {
    type V = Option<Seq<char>>;

    closed spec fn view(&self) -> Option<Seq<char>> {
        option_text(self.current_session_id)
    }
}

impl ActivityLogger {
    /// A logger outside any sitting.
    pub fn new() -> (logger: ActivityLogger)
        ensures
            logger@ is None,
    {
        ActivityLogger { current_session_id: None }
    }

    /// Records that the sitting `session_id` began.
    pub fn session_started(&mut self, session_id: &str)
        ensures
            final(self)@ == Some(session_id@),
    {
        self.current_session_id = Some(session_id.to_owned());
    }

    /// The sitting that is under way.
    pub fn current_session(&self) -> (id: Option<&str>)
        ensures
            id is Some == self@ is Some,
            id matches Some(s) ==> s@ == self@->0,
    {
        match &self.current_session_id {
            Some(id) => Some(id.as_str()),
            None => None,
        }
    }
}

impl Default for ActivityLogger {
    fn default() -> (logger: ActivityLogger)
        ensures
            logger@ is None,
    {
        ActivityLogger::new()
    }
}

/// The event that a task's change to `new_status` is logged as.
pub open spec fn task_event_of(new_status: Seq<char>) -> Seq<char> {
    if new_status == "structuring"@ || new_status == "working"@ {
        "task_started"@
    } else if new_status == "completed"@ {
        "task_completed"@
    } else {
        "task_status_changed"@
    }
}

/// The event that a step's change to `new_status` is logged as.
pub open spec fn subtask_event_of(new_status: Seq<char>) -> Seq<char> {
    if new_status == "in_progress"@ {
        "subtask_started"@
    } else if new_status == "done"@ || new_status == "completed"@ {
        "subtask_completed"@
    } else {
        "subtask_status_changed"@
    }
}

/// Computes [`task_event_of`].
pub fn task_event_type(new_status: &str) -> (event: &'static str)
    ensures
        event@ == task_event_of(new_status@),
{
    if str_eq(new_status, "structuring") || str_eq(new_status, "working") {
        "task_started"
    } else if str_eq(new_status, "completed") {
        "task_completed"
    } else {
        "task_status_changed"
    }
}

/// Computes [`subtask_event_of`].
pub fn subtask_event_type(new_status: &str) -> (event: &'static str)
    ensures
        event@ == subtask_event_of(new_status@),
{
    if str_eq(new_status, "in_progress") {
        "subtask_started"
    } else if str_eq(new_status, "done") || str_eq(new_status, "completed") {
        "subtask_completed"
    } else {
        "subtask_status_changed"
    }
}

/// The tokens that a session is booked with.
#[derive(Debug)]
pub struct TokenTotals {
    pub input: i64,
    pub output: i64,
    pub total: i64,
    pub model: Option<String>,
}

/// Whether the tokens that the caller reports can be added up.
pub open spec fn reported_fit(tokens_input: Option<i64>, tokens_output: Option<i64>) -> bool {
    i64::MIN <= or_zero(tokens_input) + or_zero(
        tokens_output,
    ) <= i64::MAX
}

/// Whether the input of a counted session, with what it read from the
/// cache, can be added up.
pub open spec fn counted_fit(usage: TokenUsage) -> bool {
    i64::MIN <= usage.input_tokens + usage.cache_read_tokens <= i64::MAX
}

/// Decides what a session is booked with. Numbers that the caller reports
/// go first: a missing one counts as zero and no model is known. Without
/// any, the session's own count is taken, what it read from the cache
/// counting as input. Without that too, the session is booked with nothing.
pub fn resolve_tokens(
    tokens_input: Option<i64>,
    tokens_output: Option<i64>,
    counted: Option<&TokenUsage>,
) -> (totals: TokenTotals)
    requires
        tokens_input is Some || tokens_output is Some ==> reported_fit(tokens_input, tokens_output),
        tokens_input is None && tokens_output is None && counted is Some ==> counted_fit(
            *counted->0,
        ),
    ensures
        tokens_input is Some || tokens_output is Some ==> {
            &&& totals.input == or_zero(tokens_input)
            &&& totals.output == or_zero(tokens_output)
            &&& totals.total == totals.input + totals.output
            &&& totals.model is None
        },
        tokens_input is None && tokens_output is None ==> match counted {
            Some(usage) => {
                &&& totals.input == usage.input_tokens + usage.cache_read_tokens
                &&& totals.output == usage.output_tokens
                &&& totals.total == usage.total_tokens
                &&& option_text(totals.model) == option_text(usage.model)
            },
            None => {
                &&& totals.input == 0
                &&& totals.output == 0
                &&& totals.total == 0
                &&& totals.model is None
            },
        },
{
    if tokens_input.is_some() || tokens_output.is_some() {
        let input = match tokens_input {
            Some(n) => n,
            None => 0,
        };
        let output = match tokens_output {
            Some(n) => n,
            None => 0,
        };
        TokenTotals { input, output, total: input + output, model: None }
    } else {
        match counted {
            Some(usage) => TokenTotals {
                input: usage.input_tokens + usage.cache_read_tokens,
                output: usage.output_tokens,
                total: usage.total_tokens,
                model: copy_text(&usage.model),
            },
            None => TokenTotals { input: 0, output: 0, total: 0, model: None },
        }
    }
}

/// Whether a session's tokens are added to the day's and the task's sums.
pub fn books_tokens(totals: &TokenTotals) -> (yes: bool)
    ensures
        yes == (totals.total > 0),
{
    totals.total > 0
}

} // verus!
