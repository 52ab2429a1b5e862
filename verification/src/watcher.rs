//! Live-reload watch logic: event classification, debouncing, and the
//! lifecycle of the single active watch session.
//!
//! The watch is registered on the parent directory of the target file, not on
//! the file itself, because editors that save through an atomic replace
//! (write to a temporary file, then rename it onto the target) invalidate a
//! watch placed directly on the file.  The classifier therefore filters
//! directory-level events down to the ones that plausibly changed the target.

use vstd::prelude::*;
use vstd::string::StrSliceExecFns;

use crate::string_views;

verus! {

/// Classification of a raw filesystem event, as far as this library cares.
#[derive(Clone, Copy, Debug, PartialEq, Eq, Structural)]
pub enum FsEventKind {
    /// The contents of a file were written directly.
    DataModify,
    /// A file was renamed; covers atomic-replace saves, where the event
    /// carries the destination path.
    NameChange,
    /// A file was created; covers delete-then-recreate saves.
    Create,
    /// Anything else (metadata touches, removals, access events, ...).
    Other,
}

/// A raw filesystem event: a kind plus the set of affected paths.
pub struct FsEvent {
    pub kind: FsEventKind,
    pub paths: Vec<String>,
}

/// The kinds of event that can signal a change of the watched file.
pub open spec fn is_relevant_kind(kind: FsEventKind) -> bool {
    kind is DataModify || kind is NameChange || kind is Create
}

/// An event is relevant exactly when its kind can signal a change and one of
/// its paths equals the watched target path, by value.
pub open spec fn event_is_relevant(
    kind: FsEventKind,
    paths: Seq<Seq<char>>,
    target: Seq<char>,
) -> bool {
    is_relevant_kind(kind) && paths.contains(target)
}

/// An event of any other kind is never relevant, whatever paths it carries.
pub proof fn lemma_irrelevant_kind(kind: FsEventKind, paths: Seq<Seq<char>>, target: Seq<char>)
    requires
        !is_relevant_kind(kind),
    ensures
        !event_is_relevant(kind, paths, target),
{
}

/// An event whose path set misses the target is never relevant, whatever its
/// kind.
pub proof fn lemma_paths_miss_target(kind: FsEventKind, paths: Seq<Seq<char>>, target: Seq<char>)
    requires
        !paths.contains(target),
    ensures
        !event_is_relevant(kind, paths, target),
{
}

/// Whether one of `paths` equals `target`, by path value.
fn contains_path(paths: &Vec<String>, target: &String) -> (found: bool)
    ensures
        found == string_views(paths@).contains(target@),
{
    let ghost views = string_views(paths@);
    let mut i: usize = 0;
    while i < paths.len()
        invariant
            i <= paths.len(),
            views == string_views(paths@),
            forall|j: int| 0 <= j < i ==> views[j] != target@,
        decreases paths.len() - i,
    {
        if paths[i] == *target {
            assert(views[i as int] == target@);
            assert(views.contains(target@));
            return true;
        }
        i += 1;
    }
    assert(forall|j: int| 0 <= j < views.len() ==> views[j] != target@);
    false
}

/// Decide whether a raw event pertains to the watched target file.
pub fn is_relevant(event: &FsEvent, target: &String) -> (relevant: bool)
    ensures
        relevant == event_is_relevant(event.kind, string_views(event.paths@), target@),
{
    let kind_matters = match event.kind {
        FsEventKind::DataModify => true,
        FsEventKind::NameChange => true,
        FsEventKind::Create => true,
        FsEventKind::Other => false,
    };
    if !kind_matters {
        return false;
    }
    contains_path(&event.paths, target)
}

/// Minimum interval, in milliseconds, between two emitted notifications.
pub const DEBOUNCE_WINDOW_MS: u64 = 100;

/// Whether a notification requested at `now_ms` passes the debounce gate
/// whose last emission is `last_emit_ms`.
pub open spec fn gate_passes(last_emit_ms: Option<u64>, now_ms: u64) -> bool {
    match last_emit_ms {
        Option::None => true,
        Option::Some(t) => now_ms >= t + DEBOUNCE_WINDOW_MS,
    }
}

/// The debouncer's record of the last emission after a request at `now_ms`.
pub open spec fn gate_after(last_emit_ms: Option<u64>, now_ms: u64) -> Option<u64> {
    if gate_passes(last_emit_ms, now_ms) {
        Option::Some(now_ms)
    } else {
        last_emit_ms
    }
}

/// Suppresses re-notification within [`DEBOUNCE_WINDOW_MS`] of the previous
/// successful notification.  Some editors emit several raw events for one
/// logical save; without this gate each would reach the consumer.
pub struct DebounceGate {
    /// Time of the last emitted notification, in milliseconds, if any.
    pub last_emit_ms: Option<u64>,
}

impl DebounceGate {
    /// A fresh gate: no notification has been emitted yet, so the first
    /// request always passes.
    pub fn new() -> (gate: DebounceGate)
        ensures
            gate.last_emit_ms is None,
    {
        DebounceGate { last_emit_ms: None }
    }

    /// Atomically consult the debouncer and, on pass, record `now_ms` as the time of
    /// the last emission.  Passes exactly when no notification was emitted
    /// before, or the previous one is at least a full window old.
    pub fn check_and_update(&mut self, now_ms: u64) -> (pass: bool)
        ensures
            pass == gate_passes(old(self).last_emit_ms, now_ms),
            final(self).last_emit_ms == gate_after(old(self).last_emit_ms, now_ms),
    {
        let pass = match self.last_emit_ms {
            None => true,
            Some(t) => now_ms >= t && now_ms - t >= DEBOUNCE_WINDOW_MS,
        };
        if pass {
            self.last_emit_ms = Some(now_ms);
        }
        pass
    }
}

/// Of two notifications requested in order after a successful one, the
/// debouncer passes the second exactly when it comes at least a full debounce window
/// after the first: two requests less than `DEBOUNCE_WINDOW_MS` apart yield
/// one emission (the first), two requests at least a window apart yield both.
pub proof fn lemma_debounce_window(last0: Option<u64>, t1: u64, t2: u64)
    requires
        gate_passes(last0, t1),
        t1 <= t2,
    ensures
        t2 < t1 + DEBOUNCE_WINDOW_MS ==> !gate_passes(gate_after(last0, t1), t2),
        t2 >= t1 + DEBOUNCE_WINDOW_MS ==> gate_passes(gate_after(last0, t1), t2),
{
}

/// Index of the last `/` in `path`, or `-1` if there is none.
pub open spec fn last_slash(path: Seq<char>) -> int
    decreases path.len(),
{
    if path.len() == 0 {
        -1
    } else if path.last() == '/' {
        path.len() - 1
    } else {
        last_slash(path.drop_last())
    }
}

/// The parent directory of a path, read off its text alone: everything before
/// the last `/`, or `/` itself when that slash is the leading one.  A path
/// without any `/`, and the bare root `/`, have no parent to watch.
pub open spec fn parent_of(path: Seq<char>) -> Option<Seq<char>> {
    let i = last_slash(path);
    if i == 0 && path.len() > 1 {
        Option::Some(path.take(1))
    } else if i > 0 {
        Option::Some(path.take(i))
    } else {
        Option::None
    }
}

/// When every character from position `i` on is not a `/`, the last slash of
/// the whole path is the last slash of its first `i` characters.
proof fn lemma_last_slash_in_prefix(path: Seq<char>, i: int)
    requires
        0 <= i <= path.len(),
        forall|j: int| i <= j < path.len() ==> path[j] != '/',
    ensures
        last_slash(path) == last_slash(path.take(i)),
    decreases path.len(),
{
    if i == path.len() {
        assert(path.take(i) =~= path);
    } else {
        assert(path.last() != '/');
        assert(path.drop_last() =~= path.take(path.len() - 1));
        lemma_last_slash_in_prefix(path.take(path.len() - 1), i);
        assert(path.take(path.len() - 1).take(i) =~= path.take(i));
    }
}

/// Compute the parent directory of `path` under the rule of [`parent_of`].
pub fn parent_dir(path: &str) -> (parent: Option<String>)
    ensures
        match parent {
            Option::Some(dir) => parent_of(path@) == Option::Some(dir@),
            Option::None => parent_of(path@) is None,
        },
{
    let n = path.unicode_len();
    let mut i: usize = n;
    while i > 0
        invariant
            i <= n,
            n as int == path@.len(),
            forall|j: int| i <= j < n ==> path@[j] != '/',
        decreases i,
    {
        if path.get_char(i - 1) == '/' {
            proof {
                lemma_last_slash_in_prefix(path@, i as int);
                assert(path@.take(i as int).last() == path@[i as int - 1]);
                assert(last_slash(path@) == i - 1);
            }
            if i == 1 {
                if n == 1 {
                    return None;
                }
                return Some(path.substring_char(0, 1).to_owned());
            }
            return Some(path.substring_char(0, i - 1).to_owned());
        }
        i -= 1;
    }
    proof {
        lemma_last_slash_in_prefix(path@, 0);
        assert(path@.take(0) =~= Seq::<char>::empty());
    }
    None
}

/// Why a watch could not be started.
#[derive(Clone, Copy, Debug, PartialEq, Eq, Structural)]
pub enum WatchError {
    /// The target path has no parent directory to register the watch on.
    InvalidPathError,
    /// The OS could not establish or register the directory watch.
    WatchSetupError,
}

/// The live binding between a watch target and the OS notification handle,
/// identified here by an opaque handle number owned by the host.
pub struct WatchSession {
    /// The absolute path of the file being watched.
    pub target: String,
    /// Identifies the OS watch resource held for this session.
    pub handle: u64,
}

/// What a session slot holds, as a mathematical value.
pub open spec fn session_view(s: Option<WatchSession>) -> Option<(Seq<char>, u64)> {
    match s {
        Option::Some(w) => Option::Some((w.target@, w.handle)),
        Option::None => Option::None,
    }
}

/// The session slot after a successful start for `target` with `handle`.
pub open spec fn start_next(target: Seq<char>, handle: u64) -> Option<(Seq<char>, u64)> {
    Option::Some((target, handle))
}

/// The OS handle a transition out of state `s` must release, if any.
pub open spec fn released_handle(s: Option<(Seq<char>, u64)>) -> Option<u64> {
    match s {
        Option::Some(w) => Option::Some(w.1),
        Option::None => Option::None,
    }
}

/// Owns the single active watch session: `Idle` when the slot is empty,
/// `Watching` when it holds one session.  Starting a watch replaces any prior
/// session; stopping clears the slot.  At most one session is ever held.
pub struct WatchController {
    /// The one active session, if any.
    pub active: Option<WatchSession>,
}

impl View for WatchController {
    type V = Option<(Seq<char>, u64)>;

    open spec fn view(&self) -> Option<(Seq<char>, u64)> {
        session_view(self.active)
    }
}

impl WatchController {
    /// A controller that is not watching anything yet.
    pub fn new() -> (c: WatchController)
        ensures
            c@ is None,
    {
        WatchController { active: None }
    }

    /// Decide where the watch for `path` has to be registered: on the parent
    /// directory of the target, so that atomic-replace saves are seen.
    /// Returns `InvalidPathError` exactly when the path has no parent.
    pub fn prepare_watch(path: &str) -> (r: Result<String, WatchError>)
        ensures
            match r {
                Result::Ok(dir) => parent_of(path@) == Option::Some(dir@),
                Result::Err(e) => e == WatchError::InvalidPathError && parent_of(path@) is None,
            },
    {
        match parent_dir(path) {
            Some(dir) => Ok(dir),
            None => Err(WatchError::InvalidPathError),
        }
    }

    /// Finish a start attempt once the host has tried to register the OS
    /// watch.  `setup` carries the new session's handle on success, `None` on
    /// failure.  Only a confirmed setup replaces the current session — a
    /// failed attempt returns `WatchSetupError` and leaves the running watch
    /// untouched.  On success the previous session's handle is returned so
    /// the host can release it.
    pub fn complete_start(&mut self, target: String, setup: Option<u64>) -> (r: Result<
        Option<u64>,
        WatchError,
    >)
        ensures
            match setup {
                Option::Some(handle) => r == Result::<Option<u64>, WatchError>::Ok(
                    released_handle(old(self)@),
                ) && final(self)@ == start_next(target@, handle),
                Option::None => r == Result::<Option<u64>, WatchError>::Err(
                    WatchError::WatchSetupError,
                ) && final(self)@ == old(self)@,
            },
    {
        match setup {
            Some(handle) => {
                let released = match &self.active {
                    Some(session) => Some(session.handle),
                    None => None,
                };
                self.active = Some(WatchSession { target, handle });
                Ok(released)
            },
            None => Err(WatchError::WatchSetupError),
        }
    }

    /// Release the active session if one exists; otherwise do nothing.
    /// Idempotent: from the idle state this returns `None` and the controller
    /// stays idle.  Returns the handle the host must release, if any.
    pub fn stop_watch(&mut self) -> (released: Option<u64>)
        ensures
            final(self)@ is None,
            released == released_handle(old(self)@),
    {
        let released = match &self.active {
            Some(session) => Some(session.handle),
            None => None,
        };
        self.active = None;
        released
    }
}

/// Starting a watch twice in a row leaves exactly one active session, bound
/// to the second target; the handle released by the second start is the first
/// session's, whatever was watched before.
pub proof fn lemma_start_replaces(p1: Seq<char>, h1: u64, p2: Seq<char>, h2: u64)
    ensures
        start_next(p2, h2) == Option::<(Seq<char>, u64)>::Some((p2, h2)),
        released_handle(start_next(p1, h1)) == Option::<u64>::Some(h1),
{
}

/// The complete handling of one raw event inside the delivery callback:
/// classify it against the target, then consult the debouncer, which is
/// only touched when the event is relevant, so irrelevant events can never
/// push the next notification further away.
pub fn on_event(gate: &mut DebounceGate, target: &String, event: &FsEvent, now_ms: u64) -> (emit:
    bool)
    ensures
        emit == (event_is_relevant(event.kind, string_views(event.paths@), target@)
            && gate_passes(old(gate).last_emit_ms, now_ms)),
        final(gate).last_emit_ms == if event_is_relevant(
            event.kind,
            string_views(event.paths@),
            target@,
        ) {
            gate_after(old(gate).last_emit_ms, now_ms)
        } else {
            old(gate).last_emit_ms
        },
{
    if !is_relevant(event, target) {
        return false;
    }
    gate.check_and_update(now_ms)
}

} // verus!
