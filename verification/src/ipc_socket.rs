//! The notification bus: change notifications from other processes are held
//! back for a debounce window and coalesced per key, so that a burst of
//! notifications about one entity reaches the UI as a single event.
//!
//! The socket and its threads belong to the caller. This module decides:
//! what a received line leads to, which notification survives under a key,
//! what a flush emits, and when the loops stop.

use vstd::prelude::*;
use crate::clock::{elapsed, elapsed_since, Nanos};
use crate::errors::ErrorKind;
use crate::text::{
    concat, copy_text, is_blank_text, lemma_blank_iff_trims_to_nothing, option_text, str_eq,
    trimmed,
};

verus! {

/// How long a notification is held back before it is emitted.
pub const DEBOUNCE_WINDOW: Nanos = 300_000_000;

/// How long the flush loop sleeps between two scans, in milliseconds.
pub const FLUSH_INTERVAL_MS: u64 = 50;

/// How long the accept loop sleeps when no connection is pending, in
/// milliseconds.
pub const ACCEPT_RETRY_MS: u64 = 100;

/// Where the bus listens.
pub fn socket_path() -> (path: &'static str)
    ensures
        path@ == "/tmp/workopilot.sock"@,
{
    "/tmp/workopilot.sock"
}

/// Name of the UI event that carries a coalesced notification.
pub fn changed_event_name() -> (name: &'static str)
    ensures
        name@ == "db-changed"@,
{
    "db-changed"
}

/// Why the bus could not be set up or cleared away; each holds what the
/// system reported.
#[derive(Debug)]
pub enum BusError {
    /// A socket file left over from an earlier run could not be removed.
    RemoveStale(String),
    /// The socket could not be bound.
    Bind(String),
    /// The socket could not be made non-blocking.
    NonBlocking(String),
    /// The socket file could not be removed at shutdown.
    RemoveSocket(String),
}

/// The text of `error`.
pub open spec fn bus_message_of(error: BusError) -> Seq<char> {
    match error {
        BusError::RemoveStale(e) => "Failed to remove existing socket: "@ + e@,
        BusError::Bind(e) => "Failed to bind socket at /tmp/workopilot.sock: "@ + e@,
        BusError::NonBlocking(e) => "Failed to set non-blocking: "@ + e@,
        BusError::RemoveSocket(e) => "Failed to remove socket file: "@ + e@,
    }
}

impl BusError {
    /// Computes [`bus_message_of`].
    pub fn message(&self) -> (text: String)
        ensures
            text@ == bus_message_of(*self),
    {
        match self {
            BusError::RemoveStale(e) => concat("Failed to remove existing socket: ", e.as_str()),
            BusError::Bind(e) => concat(
                "Failed to bind socket at /tmp/workopilot.sock: ",
                e.as_str(),
            ),
            BusError::NonBlocking(e) => concat("Failed to set non-blocking: ", e.as_str()),
            BusError::RemoveSocket(e) => concat("Failed to remove socket file: ", e.as_str()),
        }
    }

    /// The kind of the failure.
    pub fn kind(&self) -> (kind: ErrorKind)
        ensures
            kind == ErrorKind::Resource,
    {
        ErrorKind::Resource
    }
}

/// A change notification as contracts see it.
pub struct NotificationView {
    pub entity_type: Seq<char>,
    pub entity_id: Seq<char>,
    pub operation: Seq<char>,
    pub project_id: Option<Seq<char>>,
}

/// A change that another process reports.
#[derive(Debug, Clone)]
pub struct DbChangeNotification {
    pub entity_type: String,
    pub entity_id: String,
    pub operation: String,
    pub project_id: Option<String>,
}

/// What the UI is told about a change.
#[derive(Debug, Clone)]
pub struct DbChangedPayload {
    pub entity_type: String,
    pub entity_id: String,
    pub operation: String,
    pub project_id: Option<String>,
}

impl View for DbChangeNotification {
    type V = NotificationView;

    open spec fn view(&self) -> NotificationView {
        NotificationView {
            entity_type: self.entity_type@,
            entity_id: self.entity_id@,
            operation: self.operation@,
            project_id: option_text(self.project_id),
        }
    }
}

impl View for DbChangedPayload {
    type V = NotificationView;

    open spec fn view(&self) -> NotificationView {
        NotificationView {
            entity_type: self.entity_type@,
            entity_id: self.entity_id@,
            operation: self.operation@,
            project_id: option_text(self.project_id),
        }
    }
}

impl DeepView for DbChangedPayload {
    type V = NotificationView;

    open spec fn deep_view(&self) -> NotificationView {
        self@
    }
}

/// The key under which notifications coalesce: entity type, a colon, entity
/// id.
pub open spec fn debounce_key_of(n: NotificationView) -> Seq<char> {
    n.entity_type + ":"@ + n.entity_id
}

/// Computes [`debounce_key_of`].
pub fn debounce_key(notification: &DbChangeNotification) -> (key: String)
    ensures
        key@ == debounce_key_of(notification@),
{
    let head = concat(notification.entity_type.as_str(), ":");
    concat(head.as_str(), notification.entity_id.as_str())
}

impl DbChangeNotification {
    /// The event that reports this notification to the UI.
    pub fn to_payload(&self) -> (payload: DbChangedPayload)
        ensures
            payload@ == self@,
    {
        DbChangedPayload {
            entity_type: self.entity_type.clone(),
            entity_id: self.entity_id.clone(),
            operation: self.operation.clone(),
            project_id: copy_text(&self.project_id),
        }
    }

    fn duplicate(&self) -> (copy: DbChangeNotification)
        ensures
            copy@ == self@,
    {
        DbChangeNotification {
            entity_type: self.entity_type.clone(),
            entity_id: self.entity_id.clone(),
            operation: self.operation.clone(),
            project_id: copy_text(&self.project_id),
        }
    }
}

/// A notification that waits for its debounce window to pass.
pub struct Pending {
    pub received_at: Nanos,
    pub notification: NotificationView,
}

/// The key of the `i`-th waiting notification.
pub open spec fn key_at(pending: Seq<Pending>, i: int) -> Seq<char> {
    debounce_key_of(pending[i].notification)
}

/// No two waiting notifications share a key.
pub open spec fn keys_distinct(pending: Seq<Pending>) -> bool {
    forall|i: int, j: int|
        0 <= i < j < pending.len() ==> #[trigger] key_at(pending, i) != #[trigger] key_at(pending, j)
}

/// Whether a notification waits under `key`.
pub open spec fn has_key(pending: Seq<Pending>, key: Seq<char>) -> bool {
    exists|i: int| 0 <= i < pending.len() && #[trigger] key_at(pending, i) == key
}

/// Where the notification under `key` waits.
pub open spec fn position_of(pending: Seq<Pending>, key: Seq<char>) -> int {
    choose|i: int| 0 <= i < pending.len() && #[trigger] key_at(pending, i) == key
}

/// The waiting notifications after `n` arrived at `now`: it takes the place
/// of the one waiting under its key, or joins at the end where none does.
pub open spec fn submitted(pending: Seq<Pending>, n: NotificationView, now: Nanos) -> Seq<Pending> {
    let entry = Pending { received_at: now, notification: n };
    if has_key(pending, debounce_key_of(n)) {
        pending.update(position_of(pending, debounce_key_of(n)), entry)
    } else {
        pending.push(entry)
    }
}

/// Whether `p` has waited for the whole debounce window at `now`.
pub open spec fn is_due(p: Pending, now: Nanos) -> bool {
    elapsed_since(now, p.received_at) >= DEBOUNCE_WINDOW
}

/// What a flush at `now` emits: the notifications that are due, in the
/// order in which their keys first arrived.
pub open spec fn emitted(pending: Seq<Pending>, now: Nanos) -> Seq<NotificationView>
    decreases pending.len(),
{
    if pending.len() == 0 {
        Seq::empty()
    } else if is_due(pending.last(), now) {
        emitted(pending.drop_last(), now).push(pending.last().notification)
    } else {
        emitted(pending.drop_last(), now)
    }
}

/// What a flush at `now` leaves waiting: the notifications that are not due.
pub open spec fn kept(pending: Seq<Pending>, now: Nanos) -> Seq<Pending>
    decreases pending.len(),
{
    if pending.len() == 0 {
        Seq::empty()
    } else if is_due(pending.last(), now) {
        kept(pending.drop_last(), now)
    } else {
        kept(pending.drop_last(), now).push(pending.last())
    }
}

/// The events among `events` that are about `key`.
pub open spec fn events_for(events: Seq<NotificationView>, key: Seq<char>) -> Seq<NotificationView>
    decreases events.len(),
{
    if events.len() == 0 {
        Seq::empty()
    } else if debounce_key_of(events.last()) == key {
        events_for(events.drop_last(), key).push(events.last())
    } else {
        events_for(events.drop_last(), key)
    }
}

/// What one try to accept a connection gave.
#[derive(Clone, Copy, PartialEq, Eq, Structural, Debug)]
pub enum AcceptOutcome {
    /// A peer connected.
    Connection,
    /// No peer is waiting.
    WouldBlock,
    /// The try failed for another reason.
    Failed,
}

/// What the accept loop does next.
#[derive(Clone, Copy, PartialEq, Eq, Structural, Debug)]
pub enum AcceptAction {
    /// Hand the connection to a handler of its own.
    Serve,
    /// Sleep for [`ACCEPT_RETRY_MS`], then try again.
    Retry,
    /// Report the failure, sleep for [`ACCEPT_RETRY_MS`], then try again.
    ReportAndRetry,
}

/// What the accept loop does with the outcome of one try.
pub open spec fn accept_action_of(outcome: AcceptOutcome) -> AcceptAction {
    match outcome {
        AcceptOutcome::Connection => AcceptAction::Serve,
        AcceptOutcome::WouldBlock => AcceptAction::Retry,
        AcceptOutcome::Failed => AcceptAction::ReportAndRetry,
    }
}

/// Computes [`accept_action_of`].
pub fn on_accept(outcome: AcceptOutcome) -> (action: AcceptAction)
    ensures
        action == accept_action_of(outcome),
{
    match outcome {
        AcceptOutcome::Connection => AcceptAction::Serve,
        AcceptOutcome::WouldBlock => AcceptAction::Retry,
        AcceptOutcome::Failed => AcceptAction::ReportAndRetry,
    }
}

/// Whether a received line is passed over without being parsed: trimming
/// leaves nothing of it.
pub fn skips_line(line: &str) -> (skip: bool)
    ensures
        skip == (trimmed(line@).len() == 0),
{
    proof {
        lemma_blank_iff_trims_to_nothing(line@);
    }
    is_blank_text(line)
}

/// What shutting down asks of the caller.
#[derive(Debug)]
pub struct ShutdownPlan {
    /// Wait for the accept loop and the flush loop to end.
    pub join_loops: bool,
    /// Remove the socket file, if it is there.
    pub remove_socket: bool,
}

/// The bus as contracts see it.
pub struct BusState {
    /// The notifications that wait, in the order in which their keys first
    /// arrived.
    pub pending: Seq<Pending>,
    /// Whether shutdown was asked for.
    pub shut_down: bool,
    /// Whether a shutdown still has loops to wait for.
    pub loops_alive: bool,
}

/// What the bus can be asked to do.
pub enum BusStep {
    /// Take in a notification received at the given time.
    Submit(NotificationView, Nanos),
    /// Emit what is due at the given time.
    Flush(Nanos),
    /// Stop the loops.
    Shutdown,
}

/// The bus after one step.
pub open spec fn bus_step(s: BusState, step: BusStep) -> BusState {
    match step {
        BusStep::Submit(n, now) => BusState {
            pending: submitted(s.pending, n, now),
            shut_down: s.shut_down,
            loops_alive: s.loops_alive,
        },
        BusStep::Flush(now) => BusState {
            pending: kept(s.pending, now),
            shut_down: s.shut_down,
            loops_alive: s.loops_alive,
        },
        BusStep::Shutdown => BusState { pending: s.pending, shut_down: true, loops_alive: false },
    }
}

/// The bus after `steps`, one after the other.
pub open spec fn bus_run(s: BusState, steps: Seq<BusStep>) -> BusState
    decreases steps.len(),
{
    if steps.len() == 0 {
        s
    } else {
        bus_step(bus_run(s, steps.drop_last()), steps.last())
    }
}

struct PendingEntry {
    key: String,
    received_at: Nanos,
    notification: DbChangeNotification,
}

spec fn pending_of(entries: Seq<PendingEntry>) -> Seq<Pending> {
    Seq::new(
        entries.len(),
        |i: int| Pending { received_at: entries[i].received_at, notification: entries[i].notification@ },
    )
}

spec fn keys_cached(entries: Seq<PendingEntry>) -> bool {
    forall|i: int|
        0 <= i < entries.len() ==> (#[trigger] entries[i]).key@ == debounce_key_of(
            entries[i].notification@,
        )
}

proof fn lemma_kept_comes_from(pending: Seq<Pending>, now: Nanos, j: int) -> (i: int)
    requires
        0 <= j < kept(pending, now).len(),
    ensures
        0 <= i < pending.len(),
        pending[i] == kept(pending, now)[j],
    decreases pending.len(),
{
    let rest = pending.drop_last();
    if is_due(pending.last(), now) {
        lemma_kept_comes_from(rest, now, j)
    } else if j == kept(rest, now).len() {
        pending.len() - 1
    } else {
        lemma_kept_comes_from(rest, now, j)
    }
}

proof fn lemma_kept_keys_distinct(pending: Seq<Pending>, now: Nanos)
    requires
        keys_distinct(pending),
    ensures
        keys_distinct(kept(pending, now)),
    decreases pending.len(),
{
    if pending.len() > 0 {
        let rest = pending.drop_last();
        assert forall|i: int, j: int| 0 <= i < j < rest.len() implies #[trigger] key_at(rest, i)
            != #[trigger] key_at(rest, j) by {
            assert(key_at(pending, i) != key_at(pending, j));
        }
        lemma_kept_keys_distinct(rest, now);
        if !is_due(pending.last(), now) {
            let k = kept(pending, now);
            assert forall|i: int, j: int| 0 <= i < j < k.len() implies #[trigger] key_at(k, i)
                != #[trigger] key_at(k, j) by {
                if j == k.len() - 1 {
                    let src = lemma_kept_comes_from(rest, now, i);
                    assert(key_at(pending, src) != key_at(pending, pending.len() - 1));
                } else {
                    assert(key_at(kept(rest, now), i) != key_at(kept(rest, now), j));
                }
            }
        }
    }
}

proof fn lemma_submitted_at(pending: Seq<Pending>, n: NotificationView, now: Nanos, at: int)
    requires
        keys_distinct(pending),
        0 <= at < pending.len(),
        key_at(pending, at) == debounce_key_of(n),
    ensures
        submitted(pending, n, now) == pending.update(
            at,
            Pending { received_at: now, notification: n },
        ),
        keys_distinct(submitted(pending, n, now)),
{
    let p = position_of(pending, debounce_key_of(n));
    assert(p == at) by {
        if p < at {
            assert(key_at(pending, p) != key_at(pending, at));
        } else if at < p {
            assert(key_at(pending, at) != key_at(pending, p));
        }
    }
    let after = submitted(pending, n, now);
    assert forall|i: int, j: int| 0 <= i < j < after.len() implies #[trigger] key_at(after, i)
        != #[trigger] key_at(after, j) by {
        assert(key_at(after, i) == key_at(pending, i));
        assert(key_at(after, j) == key_at(pending, j));
    }
}

proof fn lemma_submitted_new(pending: Seq<Pending>, n: NotificationView, now: Nanos)
    requires
        keys_distinct(pending),
        !has_key(pending, debounce_key_of(n)),
    ensures
        submitted(pending, n, now) == pending.push(Pending { received_at: now, notification: n }),
        keys_distinct(submitted(pending, n, now)),
{
    let after = submitted(pending, n, now);
    assert forall|i: int, j: int| 0 <= i < j < after.len() implies #[trigger] key_at(after, i)
        != #[trigger] key_at(after, j) by {
        assert(key_at(after, i) == key_at(pending, i));
        if j < pending.len() {
            assert(key_at(after, j) == key_at(pending, j));
        }
    }
}

/// The state of the notification bus.
pub struct IpcSocketServer {
    pending: Vec<PendingEntry>,
    shutdown_flag: bool,
    listener_running: bool,
}

impl View for IpcSocketServer {
    type V = BusState;

    closed spec fn view(&self) -> BusState {
        BusState {
            pending: pending_of(self.pending@),
            shut_down: self.shutdown_flag,
            loops_alive: self.listener_running,
        }
    }
}

fn find_entry(entries: &Vec<PendingEntry>, key: &str) -> (at: Option<usize>)
    requires
        keys_cached(entries@),
    ensures
        match at {
            Some(i) => i < entries@.len() && key_at(pending_of(entries@), i as int) == key@,
            None => !has_key(pending_of(entries@), key@),
        },
{
    let mut i: usize = 0;
    while i < entries.len()
        invariant
            i <= entries@.len(),
            keys_cached(entries@),
            forall|j: int| 0 <= j < i ==> key_at(pending_of(entries@), j) != key@,
        decreases entries@.len() - i,
    {
        if str_eq(entries[i].key.as_str(), key) {
            return Some(i);
        }
        i += 1;
    }
    None
}

impl IpcSocketServer {
    #[verifier::type_invariant]
    spec fn well_formed(&self) -> bool {
        &&& keys_cached(self.pending@)
        &&& keys_distinct(pending_of(self.pending@))
    }

    /// A bus that runs, with nothing waiting.
    pub fn new() -> (server: IpcSocketServer)
        ensures
            server@.pending == Seq::<Pending>::empty(),
            !server@.shut_down,
            server@.loops_alive,
    {
        let server = IpcSocketServer {
            pending: Vec::new(),
            shutdown_flag: false,
            listener_running: true,
        };
        assert(pending_of(server.pending@) =~= Seq::<Pending>::empty());
        server
    }

    /// Whether the accept loop and the flush loop go on. Once shutdown was
    /// asked for they do not.
    pub fn keeps_running(&self) -> (running: bool)
        ensures
            running == !self@.shut_down,
    {
        !self.shutdown_flag
    }

    /// How many notifications wait.
    pub fn pending_len(&self) -> (n: usize)
        ensures
            n == self@.pending.len(),
    {
        self.pending.len()
    }

    /// Takes in a notification received at `now`. It replaces the one that
    /// waits under the same key, and its wait starts anew.
    pub fn submit(&mut self, notification: DbChangeNotification, now: Nanos)
        ensures
            final(self)@ == bus_step(old(self)@, BusStep::Submit(notification@, now)),
            keys_distinct(final(self)@.pending),
    {
        proof {
            use_type_invariant(&*self);
        }
        let ghost before = pending_of(self.pending@);
        let key = debounce_key(&notification);
        let found = find_entry(&self.pending, key.as_str());
        let mut entries: Vec<PendingEntry> = Vec::new();
        std::mem::swap(&mut self.pending, &mut entries);
        let entry = PendingEntry { key, received_at: now, notification };
        match found {
            Some(i) => {
                proof {
                    lemma_submitted_at(before, notification@, now, i as int);
                }
                entries.set(i, entry);
            },
            None => {
                proof {
                    lemma_submitted_new(before, notification@, now);
                }
                entries.push(entry);
            },
        }
        assert(pending_of(entries@) =~= submitted(before, notification@, now));
        self.pending = entries;
    }

    /// Emits what is due at `now` and keeps the rest waiting.
    pub fn flush(&mut self, now: Nanos) -> (events: Vec<DbChangedPayload>)
        ensures
            events.deep_view() == emitted(old(self)@.pending, now),
            final(self)@ == bus_step(old(self)@, BusStep::Flush(now)),
            keys_distinct(final(self)@.pending),
    {
        proof {
            use_type_invariant(&*self);
        }
        let ghost before = pending_of(self.pending@);
        let mut entries: Vec<PendingEntry> = Vec::new();
        std::mem::swap(&mut self.pending, &mut entries);
        let mut events: Vec<DbChangedPayload> = Vec::new();
        let mut waiting: Vec<PendingEntry> = Vec::new();
        let mut i: usize = 0;
        assert(before.take(0) =~= Seq::<Pending>::empty());
        while i < entries.len()
            invariant
                i <= entries@.len(),
                before == pending_of(entries@),
                keys_cached(entries@),
                keys_cached(waiting@),
                events.deep_view() =~= emitted(before.take(i as int), now),
                pending_of(waiting@) =~= kept(before.take(i as int), now),
            decreases entries@.len() - i,
        {
            proof {
                assert(before.take(i + 1).drop_last() =~= before.take(i as int));
                assert(before.take(i + 1).last() == before[i as int]);
            }
            let entry = &entries[i];
            if elapsed(now, entry.received_at) >= DEBOUNCE_WINDOW {
                let ghost so_far = events.deep_view();
                events.push(entry.notification.to_payload());
                assert(events.deep_view() =~= so_far.push(entry.notification@));
            } else {
                let ghost so_far = pending_of(waiting@);
                waiting.push(
                    PendingEntry {
                        key: entry.key.clone(),
                        received_at: entry.received_at,
                        notification: entry.notification.duplicate(),
                    },
                );
                assert(pending_of(waiting@) =~= so_far.push(before[i as int]));
            }
            i += 1;
        }
        proof {
            assert(before.take(i as int) =~= before);
            lemma_kept_keys_distinct(before, now);
        }
        self.pending = waiting;
        events
    }

    /// Asks the loops to stop. The first call tells the caller to wait for
    /// them; every call tells it to remove the socket file.
    pub fn shutdown(&mut self) -> (plan: ShutdownPlan)
        ensures
            final(self)@ == bus_step(old(self)@, BusStep::Shutdown),
            plan.join_loops == old(self)@.loops_alive,
            plan.remove_socket,
            keys_distinct(final(self)@.pending),
    {
        proof {
            use_type_invariant(&*self);
        }
        let join_loops = self.listener_running;
        self.shutdown_flag = true;
        self.listener_running = false;
        ShutdownPlan { join_loops, remove_socket: true }
    }
}

proof fn lemma_events_for_none(pending: Seq<Pending>, now: Nanos, key: Seq<char>)
    requires
        !has_key(pending, key),
    ensures
        events_for(emitted(pending, now), key) == Seq::<NotificationView>::empty(),
    decreases pending.len(),
{
    if pending.len() > 0 {
        let rest = pending.drop_last();
        assert(!has_key(rest, key)) by {
            if has_key(rest, key) {
                let i = choose|i: int| 0 <= i < rest.len() && #[trigger] key_at(rest, i) == key;
                assert(key_at(pending, i) == key);
            }
        }
        lemma_events_for_none(rest, now, key);
        assert(key_at(pending, pending.len() - 1) != key);
        if is_due(pending.last(), now) {
            let e = emitted(rest, now).push(pending.last().notification);
            assert(e.drop_last() =~= emitted(rest, now));
        }
    }
}

proof fn lemma_events_for_one(pending: Seq<Pending>, now: Nanos, at: int)
    requires
        keys_distinct(pending),
        0 <= at < pending.len(),
    ensures
        events_for(emitted(pending, now), key_at(pending, at)) == if is_due(pending[at], now) {
            seq![pending[at].notification]
        } else {
            Seq::<NotificationView>::empty()
        },
    decreases pending.len(),
{
    let key = key_at(pending, at);
    let rest = pending.drop_last();
    let last = pending.last();
    if at == pending.len() - 1 {
        assert(!has_key(rest, key)) by {
            if has_key(rest, key) {
                let i = choose|i: int| 0 <= i < rest.len() && #[trigger] key_at(rest, i) == key;
                assert(key_at(pending, i) != key_at(pending, at));
            }
        }
        lemma_events_for_none(rest, now, key);
        if is_due(last, now) {
            let e = emitted(rest, now).push(last.notification);
            assert(e.drop_last() =~= emitted(rest, now));
            assert(events_for(e, key) =~= seq![last.notification]);
        }
    } else {
        assert forall|i: int, j: int| 0 <= i < j < rest.len() implies #[trigger] key_at(rest, i)
            != #[trigger] key_at(rest, j) by {
            assert(key_at(pending, i) != key_at(pending, j));
        }
        assert(key_at(rest, at) == key);
        lemma_events_for_one(rest, now, at);
        assert(key_at(pending, at) != key_at(pending, pending.len() - 1));
        if is_due(last, now) {
            let e = emitted(rest, now).push(last.notification);
            assert(e.drop_last() =~= emitted(rest, now));
        }
    }
}

spec fn agree_at(a: Seq<Pending>, b: Seq<Pending>, key: Seq<char>, i: int) -> bool {
    a[i] == b[i] || (key_at(a, i) != key && key_at(b, i) != key)
}

proof fn lemma_events_for_agree(a: Seq<Pending>, b: Seq<Pending>, now: Nanos, key: Seq<char>)
    requires
        a.len() == b.len(),
        forall|i: int| 0 <= i < a.len() ==> #[trigger] agree_at(a, b, key, i),
    ensures
        events_for(emitted(a, now), key) == events_for(emitted(b, now), key),
    decreases a.len(),
{
    if a.len() > 0 {
        let ra = a.drop_last();
        let rb = b.drop_last();
        assert forall|i: int| 0 <= i < ra.len() implies #[trigger] agree_at(ra, rb, key, i) by {
            assert(agree_at(a, b, key, i));
        }
        lemma_events_for_agree(ra, rb, now, key);
        let n = a.len() - 1;
        assert(agree_at(a, b, key, n));
        if is_due(a.last(), now) {
            let e = emitted(ra, now).push(a.last().notification);
            assert(e.drop_last() =~= emitted(ra, now));
        }
        if is_due(b.last(), now) {
            let e = emitted(rb, now).push(b.last().notification);
            assert(e.drop_last() =~= emitted(rb, now));
        }
    }
}

/// Of two notifications with one key, the later one alone counts: the bus
/// is left as if the earlier one had never arrived.
pub proof fn law_latest_notification_wins(
    pending: Seq<Pending>,
    earlier: NotificationView,
    earlier_at: Nanos,
    later: NotificationView,
    later_at: Nanos,
)
    requires
        keys_distinct(pending),
        debounce_key_of(earlier) == debounce_key_of(later),
    ensures
        submitted(submitted(pending, earlier, earlier_at), later, later_at) == submitted(
            pending,
            later,
            later_at,
        ),
{
    let key = debounce_key_of(later);
    let first = submitted(pending, earlier, earlier_at);
    if has_key(pending, key) {
        let at = position_of(pending, key);
        lemma_submitted_at(pending, earlier, earlier_at, at);
        assert(key_at(first, at) == key);
        lemma_submitted_at(first, later, later_at, at);
        lemma_submitted_at(pending, later, later_at, at);
        assert(submitted(first, later, later_at) =~= submitted(pending, later, later_at));
    } else {
        lemma_submitted_new(pending, earlier, earlier_at);
        lemma_submitted_new(pending, later, later_at);
        assert(key_at(first, pending.len() as int) == key);
        lemma_submitted_at(first, later, later_at, pending.len() as int);
        assert(submitted(first, later, later_at) =~= submitted(pending, later, later_at));
    }
}

/// A flush emits at most one event per key, and it carries the notification
/// that arrived last: once a notification has waited for the debounce window
/// the flush emits exactly it for its key, and before that nothing.
pub proof fn law_one_event_per_key(
    pending: Seq<Pending>,
    n: NotificationView,
    received_at: Nanos,
    now: Nanos,
)
    requires
        keys_distinct(pending),
    ensures
        events_for(emitted(submitted(pending, n, received_at), now), debounce_key_of(n)) == if elapsed_since(
            now,
            received_at,
        ) >= DEBOUNCE_WINDOW {
            seq![n]
        } else {
            Seq::<NotificationView>::empty()
        },
{
    let key = debounce_key_of(n);
    let after = submitted(pending, n, received_at);
    if has_key(pending, key) {
        let at = position_of(pending, key);
        lemma_submitted_at(pending, n, received_at, at);
        assert(key_at(after, at) == key);
        lemma_events_for_one(after, now, at);
    } else {
        lemma_submitted_new(pending, n, received_at);
        assert(key_at(after, pending.len() as int) == key);
        lemma_events_for_one(after, now, pending.len() as int);
    }
}

/// Keys do not touch each other: a notification under one key changes
/// nothing about what a flush emits for any other key.
pub proof fn law_keys_are_independent(
    pending: Seq<Pending>,
    n: NotificationView,
    received_at: Nanos,
    now: Nanos,
    other_key: Seq<char>,
)
    requires
        keys_distinct(pending),
        other_key != debounce_key_of(n),
    ensures
        events_for(emitted(submitted(pending, n, received_at), now), other_key) == events_for(
            emitted(pending, now),
            other_key,
        ),
{
    let key = debounce_key_of(n);
    let after = submitted(pending, n, received_at);
    if has_key(pending, key) {
        let at = position_of(pending, key);
        lemma_submitted_at(pending, n, received_at, at);
        assert forall|i: int| 0 <= i < after.len() implies #[trigger] agree_at(
            after,
            pending,
            other_key,
            i,
        ) by {
            if i == at {
                assert(key_at(after, at) == key);
                assert(key_at(pending, at) == key);
            }
        }
        lemma_events_for_agree(after, pending, now, other_key);
    } else {
        lemma_submitted_new(pending, n, received_at);
        assert(after.drop_last() =~= pending);
        if is_due(after.last(), now) {
            let e = emitted(pending, now).push(n);
            assert(e.drop_last() =~= emitted(pending, now));
        }
    }
}

/// Shutdown is final: once it was asked for, the loops are told to stop
/// whatever the bus is asked to do afterwards, and no later shutdown has
/// loops left to wait for.
pub proof fn law_shutdown_is_final(s: BusState, steps: Seq<BusStep>)
    ensures
        bus_run(bus_step(s, BusStep::Shutdown), steps).shut_down,
        !bus_run(bus_step(s, BusStep::Shutdown), steps).loops_alive,
    decreases steps.len(),
{
    if steps.len() > 0 {
        law_shutdown_is_final(s, steps.drop_last());
    }
}

/// After a flush nothing that was due is left waiting, and what is left is
/// what was not due.
pub proof fn law_flush_leaves_nothing_due(pending: Seq<Pending>, now: Nanos)
    ensures
        emitted(kept(pending, now), now) == Seq::<NotificationView>::empty(),
    decreases pending.len(),
{
    if pending.len() > 0 {
        law_flush_leaves_nothing_due(pending.drop_last(), now);
        if !is_due(pending.last(), now) {
            let k = kept(pending.drop_last(), now).push(pending.last());
            assert(k.drop_last() =~= kept(pending.drop_last(), now));
        }
    }
}

} // verus!
