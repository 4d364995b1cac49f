//! Record-keeping actions that the decision functions hand to the store.

use crate::fsops::SwitchError;
use crate::models::{copy_details, details_view, Details};
use crate::text::owned;
use crate::models::Val;
use vstd::prelude::*;

verus! {

/// The duration recorded with a log entry.
#[derive(Clone, Copy, PartialEq, Eq, Structural, Debug)]
pub enum Timing {
    /// No duration (a step that starts).
    Untimed,
    /// Zero milliseconds (an entry that marks a point in time).
    Zero,
    /// The time since the step's start entry (a step that ends).
    Elapsed,
}

/// An operation log entry to write (identifier, trace and time are added by
/// the writer).
#[derive(Debug)]
pub struct LogPlan {
    pub stage: String,
    pub step: String,
    pub status: String,
    pub error_code: Option<String>,
    pub message: String,
    pub details: Details,
    pub timing: Timing,
}

/// What a state change does to the relocation's completion time.
#[derive(Clone, Copy, PartialEq, Eq, Structural, Debug)]
pub enum Completion {
    /// Leave it as it is.
    Keep,
    /// Clear it (the relocation is in progress).
    Clear,
    /// Set it to the time of the change (the relocation is finished).
    Now,
}

/// A change of a relocation's state to write; its update time is the time of
/// the change.
#[derive(Debug)]
pub struct StateUpdate {
    pub state: String,
    pub health_state: String,
    pub last_error_code: Option<String>,
    pub completion: Completion,
}

/// A health snapshot to write.
#[derive(Debug)]
pub struct SnapshotPlan {
    pub state: String,
    pub check_code: String,
    pub details: Details,
}

pub fn log_plan(stage: &str, step: &str, status: &str, error_code: Option<String>, message: &str, details: Details) -> (l:
    LogPlan)
    ensures
        l.stage@ == stage@,
        l.step@ == step@,
        l.status@ == status@,
        l.error_code == error_code,
        l.message@ == message@,
        l.details == details,
        l.timing == Timing::Zero,
{
    LogPlan {
        stage: owned(stage),
        step: owned(step),
        status: owned(status),
        error_code,
        message: owned(message),
        details,
        timing: Timing::Zero,
    }
}

pub fn state_update(state: &str, health_state: &str, last_error_code: Option<String>, completion: Completion) -> (u:
    StateUpdate)
    ensures
        u.state@ == state@,
        u.health_state@ == health_state@,
        u.last_error_code == last_error_code,
        u.completion == completion,
{
    StateUpdate { state: owned(state), health_state: owned(health_state), last_error_code, completion }
}

pub fn snapshot_plan(state: &str, check_code: &str, details: Details) -> (s: SnapshotPlan)
    ensures
        s.state@ == state@,
        s.check_code@ == check_code@,
        s.details == details,
{
    SnapshotPlan { state: owned(state), check_code: owned(check_code), details }
}

/// One record-keeping action, in the order the store must see it.
#[derive(Debug)]
pub enum Action {
    Log(LogPlan),
    Update(StateUpdate),
    /// Record the measured sizes of source and target.
    Sizes { source_size_bytes: u64, target_size_bytes: u64 },
    Snapshot(SnapshotPlan),
}

pub type Dv = Seq<(Seq<char>, Val)>;

/// An action as plain values (details by their text fields).
pub enum ActionView {
    Log {
        stage: Seq<char>,
        step: Seq<char>,
        status: Seq<char>,
        error_code: Option<Seq<char>>,
        message: Seq<char>,
        details: Dv,
        timing: Timing,
    },
    Update { state: Seq<char>, health_state: Seq<char>, last_error_code: Option<Seq<char>>, completion: Completion },
    Sizes { source_size_bytes: u64, target_size_bytes: u64 },
    Snapshot { state: Seq<char>, check_code: Seq<char>, details: Dv },
}

pub open spec fn code_view(c: Option<String>) -> Option<Seq<char>> {
    match c {
        Some(s) => Some(s@),
        None => None,
    }
}

impl View for Action {
    type V = ActionView;

    open spec fn view(&self) -> ActionView {
        match *self {
            Action::Log(l) => ActionView::Log {
                stage: l.stage@,
                step: l.step@,
                status: l.status@,
                error_code: code_view(l.error_code),
                message: l.message@,
                details: details_view(l.details),
                timing: l.timing,
            },
            Action::Update(u) => ActionView::Update {
                state: u.state@,
                health_state: u.health_state@,
                last_error_code: code_view(u.last_error_code),
                completion: u.completion,
            },
            Action::Sizes { source_size_bytes, target_size_bytes } => ActionView::Sizes {
                source_size_bytes,
                target_size_bytes,
            },
            Action::Snapshot(s) => ActionView::Snapshot {
                state: s.state@,
                check_code: s.check_code@,
                details: details_view(s.details),
            },
        }
    }
}

pub open spec fn actions_view(v: Seq<Action>) -> Seq<ActionView> {
    v.map_values(|a: Action| a@)
}

/// The start entry of a step.
pub open spec fn started(stage: Seq<char>, step: Seq<char>, message: Seq<char>, details: Dv) -> ActionView {
    ActionView::Log { stage, step, status: "started"@, error_code: None, message, details, timing: Timing::Untimed }
}

/// The successful end entry of a step.
pub open spec fn succeeded(stage: Seq<char>, step: Seq<char>, message: Seq<char>, details: Dv) -> ActionView {
    ActionView::Log { stage, step, status: "succeeded"@, error_code: None, message, details, timing: Timing::Elapsed }
}

/// The failed end entry of a step, from its error.
pub open spec fn failed(stage: Seq<char>, step: Seq<char>, e: SwitchError) -> ActionView {
    ActionView::Log {
        stage,
        step,
        status: "failed"@,
        error_code: Some(e.code@),
        message: e.message@,
        details: details_view(e.details),
        timing: Timing::Elapsed,
    }
}

pub open spec fn update_view(
    state: Seq<char>,
    health_state: Seq<char>,
    last_error_code: Option<Seq<char>>,
    completion: Completion,
) -> ActionView {
    ActionView::Update { state, health_state, last_error_code, completion }
}

/// The trace after one more entry `a`.  A trace is `Some(open)` while every
/// step that started has been finished by an entry of the same stage and
/// step, except `open`, the step started last and not yet finished; it is
/// `None` once an entry breaks that: a step that starts while another is
/// open, or an end entry of another step than the open one.  An end entry
/// while no step is open stands alone (a point in time).
pub open spec fn after_entry(
    t: Option<Option<(Seq<char>, Seq<char>)>>,
    a: ActionView,
) -> Option<Option<(Seq<char>, Seq<char>)>> {
    match t {
        None => None,
        Some(open) => match a {
            ActionView::Log { stage, step, status, .. } => if status == "started"@ {
                if open is None {
                    Some(Some((stage, step)))
                } else {
                    None
                }
            } else {
                match open {
                    None => Some(None),
                    Some(k) => if k == (stage, step) {
                        Some(None)
                    } else {
                        None
                    },
                }
            },
            _ => t,
        },
    }
}

/// The trace after the entries `acts`, in order, from `t`.
pub open spec fn trace_after(
    t: Option<Option<(Seq<char>, Seq<char>)>>,
    acts: Seq<ActionView>,
) -> Option<Option<(Seq<char>, Seq<char>)>>
    decreases acts.len(),
{
    if acts.len() == 0 {
        t
    } else {
        after_entry(trace_after(t, acts.drop_last()), acts.last())
    }
}

/// Entries written one batch after another give the trace of the second
/// batch from that of the first.
pub proof fn lemma_trace_concat(t: Option<Option<(Seq<char>, Seq<char>)>>, a: Seq<ActionView>, b: Seq<ActionView>)
    ensures
        trace_after(t, a + b) == trace_after(trace_after(t, a), b),
    decreases b.len(),
{
    if b.len() == 0 {
        assert(a + b =~= a);
    } else {
        assert((a + b).drop_last() =~= a + b.drop_last());
        assert((a + b).last() == b.last());
        lemma_trace_concat(t, a, b.drop_last());
    }
}

/// Batches of entries written one after another, each taking the trace from
/// `opens[i - 1]` (or from `prev`, for the first) to `opens[i]`, take it from
/// `prev` to the last of `opens`.
pub proof fn lemma_batches_trace(
    prev: Option<(Seq<char>, Seq<char>)>,
    opens: Seq<Option<(Seq<char>, Seq<char>)>>,
    batches: Seq<Seq<ActionView>>,
)
    requires
        batches.len() == opens.len(),
        batches.len() > 0,
        trace_after(Some(prev), batches[0]) == Some(opens[0]),
        forall|i: int| 0 <= i < batches.len() - 1 ==> trace_after(Some(#[trigger] opens[i]), batches[i + 1]) == Some(
            opens[i + 1],
        ),
    ensures
        trace_after(Some(prev), batches.flatten()) == Some(opens.last()),
    decreases batches.len(),
{
    let rest = batches.drop_first();
    assert(batches.flatten() == batches[0] + rest.flatten());
    lemma_trace_concat(Some(prev), batches[0], rest.flatten());
    if batches.len() == 1 {
        assert(rest.flatten() =~= Seq::<ActionView>::empty());
    } else {
        let later = opens.drop_first();
        assert(trace_after(Some(opens[0]), batches[1]) == Some(opens[1]));
        assert forall|i: int| 0 <= i < rest.len() - 1 implies trace_after(Some(#[trigger] later[i]), rest[i + 1]) == Some(
            later[i + 1],
        ) by {
            assert(trace_after(Some(opens[i + 1]), batches[i + 2]) == Some(opens[i + 2]));
        }
        lemma_batches_trace(opens[0], later, rest);
    }
}

/// The status words of the log are distinct.
pub proof fn lemma_status_words()
    ensures
        "succeeded"@ != "started"@,
        "failed"@ != "started"@,
{
    reveal_strlit("succeeded");
    reveal_strlit("started");
    reveal_strlit("failed");
    assert("succeeded"@.len() != "started"@.len());
    assert("failed"@[0] != "started"@[0]);
}

pub fn start_log(stage: &str, step: &str, message: &str, details: Details) -> (a: Action)
    ensures
        a@ == started(stage@, step@, message@, details_view(details)),
{
    Action::Log(
        LogPlan {
            stage: owned(stage),
            step: owned(step),
            status: owned("started"),
            error_code: None,
            message: owned(message),
            details,
            timing: Timing::Untimed,
        },
    )
}

pub fn success_log(stage: &str, step: &str, message: &str, details: Details) -> (a: Action)
    ensures
        a@ == succeeded(stage@, step@, message@, details_view(details)),
{
    Action::Log(
        LogPlan {
            stage: owned(stage),
            step: owned(step),
            status: owned("succeeded"),
            error_code: None,
            message: owned(message),
            details,
            timing: Timing::Elapsed,
        },
    )
}

pub fn failure_log(stage: &str, step: &str, e: &SwitchError) -> (a: Action)
    ensures
        a@ == failed(stage@, step@, *e),
{
    Action::Log(
        LogPlan {
            stage: owned(stage),
            step: owned(step),
            status: owned("failed"),
            error_code: Some(e.code.clone()),
            message: e.message.clone(),
            details: copy_details(&e.details),
            timing: Timing::Elapsed,
        },
    )
}

pub fn update_action(state: &str, health_state: &str, last_error_code: Option<&str>, completion: Completion) -> (a:
    Action)
    ensures
        a@ == update_view(
            state@,
            health_state@,
            match last_error_code {
                Some(c) => Some(c@),
                None => None,
            },
            completion,
        ),
{
    let code = match last_error_code {
        Some(c) => Some(owned(c)),
        None => None,
    };
    Action::Update(state_update(state, health_state, code, completion))
}

} // verus!
