//! The file watcher's bookkeeping: which project directories are watched,
//! which task files the application is about to write itself, and what a
//! filesystem event leads to.
//!
//! A caller that persists a task calls [`FileWatcherManager::mark_internal_write`]
//! first. The event that the write causes finds the marker, consumes it and
//! stays silent; any other event for a task file is reported.

use vstd::prelude::*;
use crate::clock::{elapsed, elapsed_since, Nanos};
use crate::errors::ErrorKind;
use crate::text::concat;
use crate::paths::{join, tasks_dir_of};
use crate::text::{ends_with, slice_of, str_eq};

verus! {

/// How long a write marker can suppress an event.
pub const WRITE_TTL: Nanos = 2_000_000_000;

/// For how long changes to a file are gathered into one event, in
/// milliseconds.
pub const WATCH_DEBOUNCE_MS: u64 = 500;

/// For how long a watcher waits for events before it looks at its stop
/// flag again, in milliseconds.
pub const WATCH_POLL_MS: u64 = 100;

/// Name of the UI event that reports a changed task file.
pub fn task_updated_event_name() -> (name: &'static str)
    ensures
        name@ == "task-updated"@,
{
    "task-updated"
}

/// Why a directory could not be watched; each holds what the system
/// reported.
#[derive(Debug)]
pub enum WatchError {
    /// The tasks directory could not be created.
    CreateDir(String),
    /// The watcher could not be created.
    Debouncer(String),
    /// The directory could not be registered with the watcher.
    Watch(String),
}

/// The text of `error`.
pub open spec fn watch_message_of(error: WatchError) -> Seq<char> {
    match error {
        WatchError::CreateDir(e) => "Failed to create tasks directory: "@ + e@,
        WatchError::Debouncer(e) => "Failed to create debouncer: "@ + e@,
        WatchError::Watch(e) => "Failed to watch directory: "@ + e@,
    }
}

impl WatchError {
    /// Computes [`watch_message_of`].
    pub fn message(&self) -> (text: String)
        ensures
            text@ == watch_message_of(*self),
    {
        match self {
            WatchError::CreateDir(e) => concat("Failed to create tasks directory: ", e.as_str()),
            WatchError::Debouncer(e) => concat("Failed to create debouncer: ", e.as_str()),
            WatchError::Watch(e) => concat("Failed to watch directory: ", e.as_str()),
        }
    }

    /// The kind of the failure.
    pub fn kind(&self) -> (kind: ErrorKind)
        ensures
            kind == ErrorKind::Resource,
    {
        ErrorKind::Resource
    }
}

/// What the UI is told when a task file changed on disk.
#[derive(Clone, Debug)]
pub struct TaskUpdatedPayload {
    pub task_id: String,
    pub project_path: String,
    pub source: String,
}

/// Records that the application itself is about to write a task file.
pub struct PendingWriteMarker {
    pub task_id: String,
    pub timestamp: Nanos,
}

/// The kind of a debounced filesystem event.
#[derive(Clone, Copy, PartialEq, Eq, Structural, Debug)]
pub enum FileEventKind {
    /// Changes stopped for the debounce time.
    Any,
    /// Changes are still coming in.
    AnyContinuous,
}

/// One debounced filesystem event, reduced to what the watcher reads.
#[derive(Debug)]
pub struct FileEvent {
    pub kind: FileEventKind,
    /// Last component of the event's path, if it has one.
    pub file_name: Option<String>,
}

/// What a request to watch a project asks of the caller.
#[derive(Debug)]
pub enum WatchStep {
    /// The project is watched already: nothing to do.
    AlreadyWatching,
    /// Make sure `tasks_dir` exists, watch it, then call
    /// [`FileWatcherManager::watch_started`].
    Prepare { tasks_dir: String },
}

/// The manager's state as contracts see it.
pub struct WatcherState {
    /// Paths of the projects that are watched.
    pub watched: Set<Seq<char>>,
    /// Time of the pending write marker of each task that has one.
    pub markers: Map<Seq<char>, Nanos>,
}

/// Whether `task_id` has a marker in `markers` that is younger than
/// [`WRITE_TTL`] at `now`.
pub open spec fn is_fresh(markers: Map<Seq<char>, Nanos>, task_id: Seq<char>, now: Nanos) -> bool {
    markers.contains_key(task_id) && elapsed_since(now, markers[task_id]) < WRITE_TTL
}

/// The markers after a write to `task_id` was announced at `now`.
pub open spec fn after_mark(markers: Map<Seq<char>, Nanos>, task_id: Seq<char>, now: Nanos) -> Map<
    Seq<char>,
    Nanos,
> {
    markers.insert(task_id, now)
}

/// Whether an event for `task_id` at `now` is reported to the UI.
pub open spec fn event_fires(markers: Map<Seq<char>, Nanos>, task_id: Seq<char>, now: Nanos) -> bool {
    !is_fresh(markers, task_id, now)
}

/// The markers after an event for `task_id` was handled: its marker, fresh
/// or stale, is gone.
pub open spec fn after_event(markers: Map<Seq<char>, Nanos>, task_id: Seq<char>) -> Map<
    Seq<char>,
    Nanos,
> {
    markers.remove(task_id)
}

/// The task that a file name stands for: the name without its `.json`
/// extension, or nothing where it has another extension.
pub open spec fn task_id_of_name(file_name: Seq<char>) -> Option<Seq<char>> {
    if ".json"@.is_suffix_of(file_name) {
        Some(file_name.subrange(0, file_name.len() - ".json"@.len()))
    } else {
        None
    }
}

/// The task whose file `event` reports as changed, if it reports one.
pub open spec fn watched_task(event: FileEvent) -> Option<Seq<char>> {
    match (event.kind, event.file_name) {
        (FileEventKind::Any, Some(name)) => task_id_of_name(name@),
        _ => None,
    }
}

/// Computes [`task_id_of_name`].
pub fn task_id_from_file_name(file_name: &str) -> (id: Option<String>)
    ensures
        id is Some == task_id_of_name(file_name@) is Some,
        id is Some ==> id->0@ == task_id_of_name(file_name@)->0,
{
    if ends_with(file_name, ".json") {
        let total = file_name.unicode_len();
        let ext = ".json".unicode_len();
        Some(slice_of(file_name, 0, total - ext))
    } else {
        None
    }
}

spec fn ids_distinct(v: Seq<PendingWriteMarker>) -> bool {
    forall|i: int, j: int| 0 <= i < j < v.len() ==> v[i].task_id@ != v[j].task_id@
}

spec fn markers_of(v: Seq<PendingWriteMarker>) -> Map<Seq<char>, Nanos>
    decreases v.len(),
{
    if v.len() == 0 {
        Map::empty()
    } else {
        markers_of(v.drop_last()).insert(v.last().task_id@, v.last().timestamp)
    }
}

proof fn lemma_marker_absent(v: Seq<PendingWriteMarker>, task_id: Seq<char>)
    requires
        forall|i: int| 0 <= i < v.len() ==> v[i].task_id@ != task_id,
    ensures
        !markers_of(v).contains_key(task_id),
    decreases v.len(),
{
    if v.len() > 0 {
        lemma_marker_absent(v.drop_last(), task_id);
    }
}

proof fn lemma_marker_present(v: Seq<PendingWriteMarker>, i: int)
    requires
        ids_distinct(v),
        0 <= i < v.len(),
    ensures
        markers_of(v).contains_key(v[i].task_id@),
        markers_of(v)[v[i].task_id@] == v[i].timestamp,
    decreases v.len(),
{
    if i < v.len() - 1 {
        lemma_marker_present(v.drop_last(), i);
        assert(v.last().task_id@ != v[i].task_id@);
    }
}

proof fn lemma_marker_removed(v: Seq<PendingWriteMarker>, i: int)
    requires
        ids_distinct(v),
        0 <= i < v.len(),
    ensures
        markers_of(v.remove(i)) =~= markers_of(v).remove(v[i].task_id@),
        ids_distinct(v.remove(i)),
        forall|j: int| 0 <= j < v.remove(i).len() ==> v.remove(i)[j].task_id@ != v[i].task_id@,
    decreases v.len(),
{
    let k = v[i].task_id@;
    if i == v.len() - 1 {
        assert(v.remove(i) =~= v.drop_last());
        lemma_marker_absent(v.drop_last(), k);
    } else {
        assert(v.remove(i).drop_last() =~= v.drop_last().remove(i));
        assert(v.remove(i).last() == v.last());
        lemma_marker_removed(v.drop_last(), i);
    }
}

/// Keeps track of watched project directories and of pending write markers.
pub struct FileWatcherManager {
    watchers: Vec<String>,
    internal_writes: Vec<PendingWriteMarker>,
}

impl View for FileWatcherManager {
    type V = WatcherState;

    closed spec fn view(&self) -> WatcherState {
        WatcherState {
            watched: self.watchers.deep_view().to_set(),
            markers: markers_of(self.internal_writes@),
        }
    }
}

impl FileWatcherManager {
    #[verifier::type_invariant]
    spec fn well_formed(&self) -> bool {
        &&& self.watchers.deep_view().no_duplicates()
        &&& ids_distinct(self.internal_writes@)
    }

    /// A manager that watches nothing and expects no write.
    pub fn new() -> (manager: FileWatcherManager)
        ensures
            manager@.watched == Set::<Seq<char>>::empty(),
            manager@.markers == Map::<Seq<char>, Nanos>::empty(),
    {
        let manager = FileWatcherManager { watchers: Vec::new(), internal_writes: Vec::new() };
        assert(manager.watchers.deep_view().to_set() =~= Set::<Seq<char>>::empty());
        manager
    }

    fn find_marker(&self, task_id: &str) -> (at: Option<usize>)
        ensures
            match at {
                Some(i) => i < self.internal_writes@.len() && self.internal_writes@[i as int].task_id@
                    == task_id@,
                None => forall|i: int|
                    0 <= i < self.internal_writes@.len() ==> self.internal_writes@[i].task_id@
                        != task_id@,
            },
    {
        let mut i: usize = 0;
        while i < self.internal_writes.len()
            invariant
                i <= self.internal_writes@.len(),
                forall|j: int| 0 <= j < i ==> self.internal_writes@[j].task_id@ != task_id@,
            decreases self.internal_writes@.len() - i,
        {
            if str_eq(self.internal_writes[i].task_id.as_str(), task_id) {
                return Some(i);
            }
            i += 1;
        }
        None
    }

    fn find_watcher(&self, project_path: &str) -> (at: Option<usize>)
        ensures
            match at {
                Some(i) => i < self.watchers@.len() && self.watchers@[i as int]@ == project_path@,
                None => forall|i: int|
                    0 <= i < self.watchers@.len() ==> self.watchers@[i]@ != project_path@,
            },
    {
        let mut i: usize = 0;
        while i < self.watchers.len()
            invariant
                i <= self.watchers@.len(),
                forall|j: int| 0 <= j < i ==> self.watchers@[j]@ != project_path@,
            decreases self.watchers@.len() - i,
        {
            if str_eq(self.watchers[i].as_str(), project_path) {
                return Some(i);
            }
            i += 1;
        }
        None
    }

    /// Announces that the application is about to write the file of
    /// `task_id`: the task's marker is set to `now`, replacing an older one.
    pub fn mark_internal_write(&mut self, task_id: &str, now: Nanos)
        ensures
            final(self)@.markers == after_mark(old(self)@.markers, task_id@, now),
            final(self)@.watched == old(self)@.watched,
    {
        proof {
            use_type_invariant(&*self);
        }
        let ghost before = self.internal_writes@;
        let found = self.find_marker(task_id);
        let mut writes: Vec<PendingWriteMarker> = Vec::new();
        std::mem::swap(&mut self.internal_writes, &mut writes);
        match found {
            Some(i) => {
                proof {
                    lemma_marker_removed(before, i as int);
                }
                writes.remove(i);
            },
            None => {},
        }
        let ghost without = writes@;
        assert(markers_of(without) =~= markers_of(before).remove(task_id@)) by {
            lemma_marker_absent(without, task_id@);
        }
        writes.push(PendingWriteMarker { task_id: task_id.to_owned(), timestamp: now });
        assert(writes@.drop_last() =~= without);
        self.internal_writes = writes;
        assert(final(self)@.markers =~= after_mark(old(self)@.markers, task_id@, now));
    }

    /// Whether a write to `task_id` was announced less than [`WRITE_TTL`]
    /// before `now`. Asking consumes the marker, whatever its age.
    pub fn is_internal_write(&mut self, task_id: &str, now: Nanos) -> (suppressed: bool)
        ensures
            suppressed == is_fresh(old(self)@.markers, task_id@, now),
            final(self)@.markers == after_event(old(self)@.markers, task_id@),
            final(self)@.watched == old(self)@.watched,
    {
        proof {
            use_type_invariant(&*self);
        }
        let ghost before = self.internal_writes@;
        match self.find_marker(task_id) {
            Some(i) => {
                proof {
                    lemma_marker_present(before, i as int);
                    lemma_marker_removed(before, i as int);
                }
                let mut writes: Vec<PendingWriteMarker> = Vec::new();
                std::mem::swap(&mut self.internal_writes, &mut writes);
                let marker = writes.remove(i);
                self.internal_writes = writes;
                elapsed(now, marker.timestamp) < WRITE_TTL
            },
            None => {
                proof {
                    lemma_marker_absent(before, task_id@);
                }
                assert(markers_of(before) =~= markers_of(before).remove(task_id@));
                false
            },
        }
    }

    /// Decides what a request to watch `project_path` takes. Asking twice
    /// for a watched project changes nothing.
    pub fn start_watching(&self, project_path: &str) -> (step: WatchStep)
        ensures
            match step {
                WatchStep::AlreadyWatching => self@.watched.contains(project_path@),
                WatchStep::Prepare { tasks_dir } => !self@.watched.contains(project_path@)
                    && tasks_dir@ == tasks_dir_of(project_path@),
            },
    {
        match self.find_watcher(project_path) {
            Some(i) => {
                assert(self.watchers.deep_view()[i as int] == project_path@);
                WatchStep::AlreadyWatching
            },
            None => {
                let base = join(project_path, ".workopilot");
                WatchStep::Prepare { tasks_dir: join(base.as_str(), "tasks") }
            },
        }
    }

    /// Records that the directory of `project_path` is now watched.
    pub fn watch_started(&mut self, project_path: String)
        ensures
            final(self)@.watched == old(self)@.watched.insert(project_path@),
            final(self)@.markers == old(self)@.markers,
    {
        proof {
            use_type_invariant(&*self);
        }
        let ghost before = self.watchers.deep_view();
        match self.find_watcher(project_path.as_str()) {
            Some(i) => {
                assert(before[i as int] == project_path@);
                assert(before.to_set() =~= before.to_set().insert(project_path@));
            },
            None => {
                let mut paths: Vec<String> = Vec::new();
                std::mem::swap(&mut self.watchers, &mut paths);
                paths.push(project_path);
                assert(paths.deep_view() =~= before.push(project_path@));
                self.watchers = paths;
                assert(self.watchers.deep_view().to_set() =~= before.to_set().insert(
                    project_path@,
                )) by {
                    let after = self.watchers.deep_view();
                    assert forall|p: Seq<char>| after.to_set().contains(p) implies before.to_set().insert(
                        project_path@,
                    ).contains(p) by {
                        let i = choose|i: int| 0 <= i < after.len() && after[i] == p;
                        if i < before.len() {
                            assert(before[i] == p);
                        }
                    }
                    assert forall|p: Seq<char>|
                        before.to_set().insert(project_path@).contains(p) implies after.to_set().contains(
                        p,
                    ) by {
                        if p == project_path@ {
                            assert(after[after.len() - 1] == p);
                        } else {
                            let i = choose|i: int| 0 <= i < before.len() && before[i] == p;
                            assert(after[i] == p);
                        }
                    }
                }
            },
        }
    }

    /// Takes `project_path` off the list. `true` where it was watched: the
    /// caller then stops that directory's watcher and waits for it.
    pub fn stop_watching(&mut self, project_path: &str) -> (was_watched: bool)
        ensures
            was_watched == old(self)@.watched.contains(project_path@),
            final(self)@.watched == old(self)@.watched.remove(project_path@),
            final(self)@.markers == old(self)@.markers,
    {
        proof {
            use_type_invariant(&*self);
        }
        let ghost before = self.watchers.deep_view();
        match self.find_watcher(project_path) {
            Some(i) => {
                assert(before[i as int] == project_path@);
                let mut paths: Vec<String> = Vec::new();
                std::mem::swap(&mut self.watchers, &mut paths);
                paths.remove(i);
                let ghost after = paths.deep_view();
                assert(after =~= before.remove(i as int));
                self.watchers = paths;
                assert(after.to_set() =~= before.to_set().remove(project_path@)) by {
                    assert forall|p: Seq<char>| after.to_set().contains(p) implies before.to_set().remove(
                        project_path@,
                    ).contains(p) by {
                        let j = choose|j: int| 0 <= j < after.len() && after[j] == p;
                        if j < i {
                            assert(before[j] == p);
                        } else {
                            assert(before[j + 1] == p);
                        }
                    }
                    assert forall|p: Seq<char>|
                        before.to_set().remove(project_path@).contains(p) implies after.to_set().contains(
                        p,
                    ) by {
                        let j = choose|j: int| 0 <= j < before.len() && before[j] == p;
                        if j < i {
                            assert(after[j] == p);
                        } else {
                            assert(after[j - 1] == p);
                        }
                    }
                }
                true
            },
            None => {
                assert(!before.to_set().contains(project_path@)) by {
                    if before.contains(project_path@) {
                        let j = choose|j: int| 0 <= j < before.len() && before[j] == project_path@;
                        assert(self.watchers@[j]@ == project_path@);
                    }
                }
                assert(before.to_set() =~= before.to_set().remove(project_path@));
                false
            },
        }
    }

    /// Takes every project off the list and returns them: the caller stops
    /// each one's watcher.
    pub fn stop_all(&mut self) -> (stopped: Vec<String>)
        ensures
            final(self)@.watched == Set::<Seq<char>>::empty(),
            final(self)@.markers == old(self)@.markers,
            stopped.deep_view().to_set() == old(self)@.watched,
            stopped.deep_view().no_duplicates(),
    {
        proof {
            use_type_invariant(&*self);
        }
        let mut stopped: Vec<String> = Vec::new();
        std::mem::swap(&mut self.watchers, &mut stopped);
        assert(self.watchers.deep_view().to_set() =~= Set::<Seq<char>>::empty());
        stopped
    }

    /// Handles one filesystem event seen in the tasks directory of
    /// `project_path`. An event that names a task file consumes the task's
    /// marker; it is reported unless that marker was fresh.
    pub fn on_file_event(&mut self, event: &FileEvent, project_path: &str, now: Nanos) -> (emitted:
        Option<TaskUpdatedPayload>)
        ensures
            final(self)@.watched == old(self)@.watched,
            match watched_task(*event) {
                None => emitted is None && final(self)@.markers == old(self)@.markers,
                Some(task_id) => {
                    &&& final(self)@.markers == after_event(old(self)@.markers, task_id)
                    &&& emitted is Some == event_fires(old(self)@.markers, task_id, now)
                    &&& emitted is Some ==> {
                        &&& emitted->0.task_id@ == task_id
                        &&& emitted->0.project_path@ == project_path@
                        &&& emitted->0.source@ == "ai"@
                    }
                },
            },
    {
        match event.kind {
            FileEventKind::Any => {},
            FileEventKind::AnyContinuous => {
                return None;
            },
        }
        let task_id = match &event.file_name {
            Some(name) => match task_id_from_file_name(name.as_str()) {
                Some(id) => id,
                None => {
                    return None;
                },
            },
            None => {
                return None;
            },
        };
        if self.is_internal_write(task_id.as_str(), now) {
            None
        } else {
            Some(
                TaskUpdatedPayload {
                    task_id,
                    project_path: project_path.to_owned(),
                    source: "ai".to_owned(),
                },
            )
        }
    }
}

/// A marker suppresses exactly one event: the first event for the task that
/// arrives within the time to live is not reported, and the next event for
/// that task, whenever it arrives, is.
pub proof fn law_suppression_is_one_shot(
    markers: Map<Seq<char>, Nanos>,
    task_id: Seq<char>,
    marked_at: Nanos,
    first: Nanos,
    second: Nanos,
)
    requires
        elapsed_since(first, marked_at) < WRITE_TTL,
    ensures
        !event_fires(after_mark(markers, task_id, marked_at), task_id, first),
        event_fires(after_event(after_mark(markers, task_id, marked_at), task_id), task_id, second),
{
}

/// A marker that has reached its time to live suppresses nothing: the event
/// is reported.
pub proof fn law_suppression_expires(
    markers: Map<Seq<char>, Nanos>,
    task_id: Seq<char>,
    marked_at: Nanos,
    at: Nanos,
)
    requires
        elapsed_since(at, marked_at) >= WRITE_TTL,
    ensures
        event_fires(after_mark(markers, task_id, marked_at), task_id, at),
{
}

} // verus!
