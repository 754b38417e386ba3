//! The guarantees of the approval workflow, stated and proved over the
//! state-transition specifications: a change is enqueued at most once per
//! debounce window, unchanged content never queues, decisions follow
//! arrival order, and the one-shot ignore entry armed by a rejection is
//! consumed by exactly one notification.

use vstd::prelude::*;
use crate::coordinator::AppState;
use crate::coordinator::spec_accept;
use crate::coordinator::spec_add_change;
use crate::coordinator::spec_reject;
use crate::debounce::DEBOUNCE_WINDOW_MS;
use crate::debounce::spec_debounced;
use crate::paths::spec_base_name;
use crate::paths::spec_is_hidden_name;
use crate::paths::spec_is_noise_path;
use crate::types::ChangeKind;
use crate::types::RevertAction;

verus! {

/// Either decision on the queue head.
pub open spec fn spec_decision(pre: AppState, post: AppState) -> bool {
    spec_accept(pre, post) || exists|r: Option<RevertAction>| spec_reject(pre, post, r)
}

/// One step of the coordinator's serialized loop, as a value: a raw
/// filesystem notification handed in with its clock reading and disk
/// content, or a decision on the queue head.
pub ghost enum Step {
    Notify { raw: Seq<char>, canon: Seq<char>, kind: ChangeKind, now: u64, disk: Option<Seq<char>> },
    Accept,
    Reject { action: Option<RevertAction> },
}

/// The transition one step makes.
pub open spec fn spec_step(pre: AppState, post: AppState, s: Step) -> bool {
    match s {
        Step::Notify { raw, canon, kind, now, disk } => spec_add_change(
            pre,
            post,
            raw,
            canon,
            kind,
            now,
            disk,
        ),
        Step::Accept => spec_accept(pre, post),
        Step::Reject { action } => spec_reject(pre, post, action),
    }
}

/// `states` is a run of the coordinator under `steps`: each step relates
/// one state to the next.
pub open spec fn spec_run(states: Seq<AppState>, steps: Seq<Step>) -> bool {
    &&& states.len() == steps.len() + 1
    &&& forall|i: int|
        0 <= i < steps.len() ==> #[trigger] spec_step(states[i], states[i + 1], steps[i])
}

/// The display name and kind a notification is debounced under.
pub open spec fn step_pair(s: Step) -> (Seq<char>, ChangeKind)
    recommends
        s is Notify,
{
    match s {
        Step::Notify { raw, kind, .. } => (spec_base_name(raw), kind),
        _ => (Seq::empty(), ChangeKind::Create),
    }
}

/// The clock reading a notification arrived with.
pub open spec fn step_now(s: Step) -> u64
    recommends
        s is Notify,
{
    match s {
        Step::Notify { now, .. } => now,
        _ => 0,
    }
}

/// Notification instants never go backward along the run: they are read
/// from the coordinator's one monotonic clock.
pub open spec fn spec_notify_times_monotone(steps: Seq<Step>) -> bool {
    forall|a: int, b: int|
        #![trigger steps[a], steps[b]]
        0 <= a <= b < steps.len() && steps[a] is Notify && steps[b] is Notify ==> step_now(
            steps[a],
        ) <= step_now(steps[b])
}

/// As long as every same-pair notification falls inside the window of the
/// stamp at `t1`, no step of the run touches that debounce stamp: dropped
/// notifications leave the table alone, other pairs stamp other keys, and
/// decisions never write the table.
proof fn lemma_stamp_persists(
    states: Seq<AppState>,
    steps: Seq<Step>,
    i: int,
    k: int,
    name: Seq<char>,
    kind: ChangeKind,
    t1: u64,
)
    requires
        spec_run(states, steps),
        0 <= i,
        i + 1 <= k < states.len(),
        states[i + 1].debounce_map@.contains_key((name, kind)),
        states[i + 1].debounce_map@[(name, kind)] == t1,
        forall|a: int|
            i < a < k && #[trigger] steps[a] is Notify && step_pair(steps[a]) == (name, kind)
                ==> t1 <= step_now(steps[a]) < t1 + DEBOUNCE_WINDOW_MS,
    ensures
        states[k].debounce_map@.contains_key((name, kind)),
        states[k].debounce_map@[(name, kind)] == t1,
    decreases k,
{
    if k > i + 1 {
        lemma_stamp_persists(states, steps, i, k - 1, name, kind, t1);
        let a = k - 1;
        assert(spec_step(states[a], states[a + 1], steps[a]));
        match steps[k - 1] {
            Step::Notify { raw, canon, kind: k2, now, disk } => {
                let nm = spec_base_name(raw);
                if !states[k - 1].ignore_next_write@.contains(canon) && !(spec_is_noise_path(raw)
                    || spec_is_hidden_name(nm)) && !spec_debounced(
                    states[k - 1].debounce_map@,
                    nm,
                    k2,
                    now,
                ) {
                    if nm == name && k2 == kind {
                        assert(steps[k - 1] is Notify && step_pair(steps[k - 1]) == (name, kind));
                        assert(spec_debounced(states[k - 1].debounce_map@, nm, k2, now));
                        assert(false);
                    } else {
                        assert(states[k].debounce_map@ == states[k - 1].debounce_map@.insert(
                            (nm, k2),
                            now,
                        ));
                        assert(((nm, k2)) != ((name, kind)));
                    }
                }
            },
            Step::Accept => {},
            Step::Reject { .. } => {},
        }
    }
}

/// The first guarantee of the workflow in full generality: over any run of
/// notifications and decisions, once a notification was enqueued at `i`,
/// every later notification for the same display name and kind whose
/// instant falls inside the debounce window leaves the approval queue
/// exactly as it found it, whatever other notifications and decisions come
/// between.  One logical change yields at most one pending entry per
/// window without an intervening decision on it.
pub proof fn lemma_one_pending_per_window(states: Seq<AppState>, steps: Seq<Step>, i: int, j: int)
    requires
        spec_run(states, steps),
        spec_notify_times_monotone(steps),
        0 <= i < j < steps.len(),
        steps[i] is Notify,
        steps[j] is Notify,
        step_pair(steps[j]) == step_pair(steps[i]),
        states[i + 1].approval_queue@.len() > states[i].approval_queue@.len(),
        step_now(steps[j]) < step_now(steps[i]) + DEBOUNCE_WINDOW_MS,
    ensures
        states[j + 1].approval_queue@ == states[j].approval_queue@,
{
    let p = step_pair(steps[i]);
    let name = p.0;
    let kind = p.1;
    let t1 = step_now(steps[i]);
    let t2 = step_now(steps[j]);
    assert(spec_step(states[i], states[i + 1], steps[i]));
    match steps[i] {
        Step::Notify { raw, canon, kind: ki, now, disk } => {
            assert(spec_base_name(raw) == name && ki == kind && now == t1);
            assert(states[i + 1].debounce_map@ == states[i].debounce_map@.insert(
                (name, kind),
                t1,
            ));
        },
        _ => {},
    }
    assert forall|a: int|
        i < a < j && #[trigger] steps[a] is Notify && step_pair(steps[a]) == (name, kind)
            implies t1 <= step_now(steps[a]) < t1 + DEBOUNCE_WINDOW_MS by {
        assert(step_now(steps[i]) <= step_now(steps[a]));
        assert(step_now(steps[a]) <= step_now(steps[j]));
    }
    lemma_stamp_persists(states, steps, i, j, name, kind, t1);
    assert(t1 <= t2);
    assert(spec_step(states[j], states[j + 1], steps[j]));
    match steps[j] {
        Step::Notify { raw, canon, kind: kj, now, disk } => {
            let nm = spec_base_name(raw);
            assert(nm == name && kj == kind && now == t2);
            if !states[j].ignore_next_write@.contains(canon) && !(spec_is_noise_path(raw)
                || spec_is_hidden_name(nm)) {
                assert(spec_debounced(states[j].debounce_map@, name, kind, t2));
            }
        },
        _ => {},
    }
}

/// A notification that was enqueued leaves its instant in the debounce
/// table, so a second notification for the same name and kind inside the
/// debounce window changes nothing at all: no path gains a second pending
/// change for one logical change without an intervening decision.
pub proof fn lemma_no_duplicate_within_window(
    s0: AppState,
    s1: AppState,
    s2: AppState,
    raw: Seq<char>,
    canon1: Seq<char>,
    canon2: Seq<char>,
    kind: ChangeKind,
    t1: u64,
    t2: u64,
    d1: Option<Seq<char>>,
    d2: Option<Seq<char>>,
)
    requires
        spec_add_change(s0, s1, raw, canon1, kind, t1, d1),
        spec_add_change(s1, s2, raw, canon2, kind, t2, d2),
        s1.approval_queue@.len() > s0.approval_queue@.len(),
        t1 <= t2 < t1 + DEBOUNCE_WINDOW_MS,
    ensures
        s2.approval_queue@ == s1.approval_queue@,
        !s1.ignore_next_write@.contains(canon2) ==> s2 == s1,
{
    let name = spec_base_name(raw);
    assert(s1.debounce_map@ == s0.debounce_map@.insert((name, kind), t1));
    assert(s1.debounce_map@[(name, kind)] == t1);
    assert(spec_debounced(s1.debounce_map@, name, kind, t2));
    assert(!(spec_is_noise_path(raw) || spec_is_hidden_name(name)));
}

/// Writing the approved bytes again is a no-op: when the content on disk
/// equals the cached content, no pending change is queued, whatever else
/// the filter stages decide.
pub proof fn lemma_same_content_never_queues(
    pre: AppState,
    post: AppState,
    raw: Seq<char>,
    canon: Seq<char>,
    kind: ChangeKind,
    now: u64,
    c: Seq<char>,
)
    requires
        spec_add_change(pre, post, raw, canon, kind, now, Some(c)),
        kind != ChangeKind::Remove,
        c == pre.spec_cached(canon),
    ensures
        post.approval_queue@ == pre.approval_queue@,
{
}

/// Accepting a change whose new content is non-empty makes that content
/// the approved content of its path, and of no other.
pub proof fn lemma_accept_round_trip(pre: AppState, post: AppState)
    requires
        spec_accept(pre, post),
        pre.approval_queue@.len() > 0,
        pre.approval_queue@[0].new_content@.len() > 0,
    ensures
        post.file_cache@.contains_key(pre.approval_queue@[0].path@),
        post.file_cache@[pre.approval_queue@[0].path@] == pre.approval_queue@[0].new_content@,
        forall|p: Seq<char>|
            p != pre.approval_queue@[0].path@ ==> (post.file_cache@.contains_key(p)
                == pre.file_cache@.contains_key(p) && (pre.file_cache@.contains_key(p)
                ==> post.file_cache@[p] == #[trigger] pre.file_cache@[p])),
{
}

/// Rejecting a change that created the file asks for its deletion, leaves
/// the approved contents alone, and arms the path's one-shot ignore entry.
pub proof fn lemma_reject_created_file(pre: AppState, post: AppState, r: Option<RevertAction>)
    requires
        spec_reject(pre, post, r),
        pre.approval_queue@.len() > 0,
        pre.approval_queue@[0].old_content@.len() == 0,
    ensures
        r matches Some(RevertAction::Delete { path }) && path@ == pre.approval_queue@[0].path@,
        post.file_cache@ == pre.file_cache@,
        post.ignore_next_write@.contains(pre.approval_queue@[0].path@),
{
}

/// The loop breaker: after a rejection, the very next notification for the
/// rejected path is swallowed whole — no pending change, no log entry —
/// and the ignore entry is consumed by it, so it cannot swallow a second,
/// legitimate notification for the path.
pub proof fn lemma_ignore_consumed_exactly_once(
    s0: AppState,
    s1: AppState,
    s2: AppState,
    r: Option<RevertAction>,
    raw: Seq<char>,
    kind: ChangeKind,
    t: u64,
    d: Option<Seq<char>>,
)
    requires
        spec_reject(s0, s1, r),
        s0.approval_queue@.len() > 0,
        spec_add_change(s1, s2, raw, s0.approval_queue@[0].path@, kind, t, d),
    ensures
        s2.approval_queue@ == s1.approval_queue@,
        s2.file_changes == s1.file_changes,
        s2.file_cache == s1.file_cache,
        !s2.ignore_next_write@.contains(s0.approval_queue@[0].path@),
{
    let p = s0.approval_queue@[0].path@;
    assert(s1.ignore_next_write@.contains(p));
    assert(s2.ignore_next_write@ == s1.ignore_next_write@.remove(p));
}

/// Two notifications enqueued one after the other sit in the queue in
/// arrival order, behind everything already there.
pub proof fn lemma_enqueued_in_arrival_order(
    s0: AppState,
    s1: AppState,
    s2: AppState,
    raw1: Seq<char>,
    canon1: Seq<char>,
    kind1: ChangeKind,
    t1: u64,
    d1: Option<Seq<char>>,
    raw2: Seq<char>,
    canon2: Seq<char>,
    kind2: ChangeKind,
    t2: u64,
    d2: Option<Seq<char>>,
)
    requires
        spec_add_change(s0, s1, raw1, canon1, kind1, t1, d1),
        s1.approval_queue@.len() > s0.approval_queue@.len(),
        spec_add_change(s1, s2, raw2, canon2, kind2, t2, d2),
        s2.approval_queue@.len() > s1.approval_queue@.len(),
    ensures
        s2.approval_queue@.len() == s0.approval_queue@.len() + 2,
        forall|i: int|
            0 <= i < s0.approval_queue@.len() ==> s2.approval_queue@[i]
                == #[trigger] s0.approval_queue@[i],
        s2.approval_queue@[s0.approval_queue@.len() as int].path@ == canon1,
        s2.approval_queue@[s0.approval_queue@.len() as int + 1].path@ == canon2,
{
}

/// Decisions resolve the queue in order: the first decision removes the
/// head, exposing the next arrival as the new head, whatever either
/// decision was.
pub proof fn lemma_decided_in_queue_order(s0: AppState, s1: AppState, s2: AppState)
    requires
        s0.approval_queue@.len() >= 2,
        spec_decision(s0, s1),
        spec_decision(s1, s2),
    ensures
        s1.approval_queue@ == s0.approval_queue@.drop_first(),
        s1.approval_queue@[0] == s0.approval_queue@[1],
        s2.approval_queue@ == s1.approval_queue@.drop_first(),
        s0.approval_queue@.len() >= 3 ==> s2.approval_queue@[0] == s0.approval_queue@[2],
{
}

/// The approved contents are the accept operation's alone: no notification
/// ever touches the snapshot cache, however it is filtered or resolved, and
/// neither does a rejection.  Until a decision falls, the cache still shows
/// the state before the pending change.
pub proof fn lemma_only_accept_updates_cache(
    pre: AppState,
    post: AppState,
    postr: AppState,
    r: Option<RevertAction>,
    raw: Seq<char>,
    canon: Seq<char>,
    kind: ChangeKind,
    now: u64,
    disk: Option<Seq<char>>,
)
    requires
        spec_add_change(pre, post, raw, canon, kind, now, disk),
        spec_reject(pre, postr, r),
    ensures
        post.file_cache@ == pre.file_cache@,
        postr.file_cache@ == pre.file_cache@,
{
}

/// The debounce window, both ways: a notification that passed every filter
/// stamps the table with its instant; a second notification for the same
/// name and kind is dropped exactly when it falls inside the window.
pub proof fn lemma_debounce_window(
    s0: AppState,
    s1: AppState,
    raw: Seq<char>,
    canon: Seq<char>,
    kind: ChangeKind,
    t1: u64,
    t2: u64,
    d1: Option<Seq<char>>,
)
    requires
        spec_add_change(s0, s1, raw, canon, kind, t1, d1),
        !s0.ignore_next_write@.contains(canon),
        !spec_is_noise_path(raw),
        !spec_is_hidden_name(spec_base_name(raw)),
        !spec_debounced(s0.debounce_map@, spec_base_name(raw), kind, t1),
    ensures
        s1.debounce_map@[(spec_base_name(raw), kind)] == t1,
        t1 <= t2 < t1 + DEBOUNCE_WINDOW_MS ==> spec_debounced(
            s1.debounce_map@,
            spec_base_name(raw),
            kind,
            t2,
        ),
        t2 >= t1 + DEBOUNCE_WINDOW_MS ==> !spec_debounced(
            s1.debounce_map@,
            spec_base_name(raw),
            kind,
            t2,
        ),
{
}

} // verus!
