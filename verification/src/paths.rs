//! Where a project keeps its task files: `<project>/.workopilot/tasks/<id>.json`.
//! Paths are text with `/` between components.

use vstd::prelude::*;
use crate::text::{concat, ends_with, starts_with};

verus! {

/// `part` adjoined to `base`: a `part` that starts at the root stands alone,
/// otherwise one `/` separates the two unless `base` is empty or already
/// ends in one.
pub open spec fn joined(base: Seq<char>, part: Seq<char>) -> Seq<char> {
    if "/"@.is_prefix_of(part) {
        part
    } else if base.len() == 0 || "/"@.is_suffix_of(base) {
        base + part
    } else {
        base + "/"@ + part
    }
}

/// Computes [`joined`].
pub fn join(base: &str, part: &str) -> (path: String)
    ensures
        path@ == joined(base@, part@),
{
    if starts_with(part, "/") {
        part.to_owned()
    } else if base.unicode_len() == 0 || ends_with(base, "/") {
        concat(base, part)
    } else {
        let with_sep = concat(base, "/");
        concat(with_sep.as_str(), part)
    }
}

/// The directory that holds the task files of the project at `project_path`.
pub open spec fn tasks_dir_of(project_path: Seq<char>) -> Seq<char> {
    joined(joined(project_path, ".workopilot"@), "tasks"@)
}

/// The file that holds task `task_id` of the project at `project_path`.
pub open spec fn task_file_of(project_path: Seq<char>, task_id: Seq<char>) -> Seq<char> {
    joined(tasks_dir_of(project_path), task_id + ".json"@)
}

} // verus!
