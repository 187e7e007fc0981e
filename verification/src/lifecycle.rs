//! The submit/confirm lifecycle of a transaction as a state machine, and
//! the reading of a query's output. The caller runs what a step asks for
//! and hands back how the run ended; every decision is taken here.

use crate::error::{PipelineError, PipelineErrorView};
use crate::invocation::{Invocation, InvocationView, ProcessEvent, ProcessEventView, ProcessOutput};
use crate::json::{json_document, seq_view, Json, JsonView};
use crate::profile::CustomPipelineProfile;
use crate::response::{
    decode_json,
    decode_key_info,
    decode_tx_result,
    key_info_in,
    tx_result_in,
    KeyInfo,
    KeyInfoView,
    TxResult,
    TxResultView,
};
use vstd::prelude::*;
use vstd::string::*;
use vstd::utf8::{decode_utf8, valid_utf8};

verus! {

/// How often the confirmation query is repeated after an answer on
/// standard error.
pub const CONFIRMATION_RETRIES: u32 = 10;

/// The pause before each repeated confirmation query, in milliseconds.
pub const CONFIRMATION_DELAY_MS: u64 = 1958;

/// Where a transaction stands between two runs of the executable.
#[derive(Debug, Clone, PartialEq, Eq)]
pub enum TxState {
    /// The submit call is running.
    Submitted,
    /// The chain accepted the transaction; a confirmation query is
    /// running.
    Polling { tx_hash: String, retries_left: u32 },
}

pub enum TxStateView {
    Submitted,
    Polling { tx_hash: Seq<char>, retries_left: u32 },
}

impl View for TxState {
    type V = TxStateView;

    open spec fn view(&self) -> TxStateView {
        match self {
            TxState::Submitted => TxStateView::Submitted,
            TxState::Polling { tx_hash, retries_left } => TxStateView::Polling {
                tx_hash: tx_hash@,
                retries_left: *retries_left,
            },
        }
    }
}

/// What the caller does next.
#[derive(Debug, PartialEq, Eq)]
pub enum TxStep {
    /// Sleep for `delay_ms` milliseconds, run `invocation`, and come back
    /// with `state` and with how the run ended.
    Run { state: TxState, invocation: Invocation, delay_ms: u64 },
    /// The operation is over. `Ok` holds a confirmed result.
    Done(Result<TxResult, PipelineError>),
}

pub enum TxStepView {
    Run { state: TxStateView, invocation: InvocationView, delay_ms: u64 },
    Done(Result<TxResultView, PipelineErrorView>),
}

/// The view of a decoded or final result.
pub open spec fn outcome_view(r: Result<TxResult, PipelineError>) -> Result<
    TxResultView,
    PipelineErrorView,
> {
    match r {
        Ok(t) => Ok(t@),
        Err(e) => Err(e@),
    }
}

impl View for TxStep {
    type V = TxStepView;

    open spec fn view(&self) -> TxStepView {
        match self {
            TxStep::Run { state, invocation, delay_ms } => TxStepView::Run {
                state: state@,
                invocation: invocation@,
                delay_ms: *delay_ms,
            },
            TxStep::Done(r) => TxStepView::Done(outcome_view(*r)),
        }
    }
}

/// What decoding a captured standard output as a transaction result
/// gives.
pub open spec fn decoded_tx(stdout: Seq<u8>) -> Result<TxResultView, PipelineErrorView> {
    match tx_result_in(stdout) {
        Some(t) => Ok(t),
        None => Err(PipelineErrorView::ResponseDecodeFailure),
    }
}

/// The verdict on a decoded response: a decode failure stays what it is,
/// a non-zero code is a failed transaction with its hash and raw log, and
/// code zero is the result itself.
pub open spec fn verdict(decoded: Result<TxResultView, PipelineErrorView>) -> Result<
    TxResultView,
    PipelineErrorView,
> {
    match decoded {
        Ok(t) => if t.code != 0 {
            Err(PipelineErrorView::TransactionFailed(t.tx_hash, t.raw_log))
        } else {
            Ok(t)
        },
        Err(e) => Err(e),
    }
}

/// Judges a decoded response by its code.
pub fn judge(decoded: Result<TxResult, PipelineError>) -> (out: Result<TxResult, PipelineError>)
    ensures
        outcome_view(out) == verdict(outcome_view(decoded)),
{
    match decoded {
        Ok(t) => {
            if t.code != 0 {
                Err(PipelineError::TransactionFailed(t.tx_hash, t.raw_log))
            } else {
                Ok(t)
            }
        },
        Err(e) => Err(e),
    }
}

impl CustomPipelineProfile {
    /// The step after a submit call whose output decoded to `decoded`.
    pub open spec fn after_submit_spec(
        &self,
        decoded: Result<TxResultView, PipelineErrorView>,
    ) -> TxStepView {
        match verdict(decoded) {
            Ok(t) => TxStepView::Run {
                state: TxStateView::Polling { tx_hash: t.tx_hash, retries_left: CONFIRMATION_RETRIES },
                invocation: self.query_tx_call(t.tx_hash),
                delay_ms: 0,
            },
            Err(e) => TxStepView::Done(Err(e)),
        }
    }

    /// The step after a confirmation query. An answer on standard error
    /// while retries remain costs one retry and one pause; anything else
    /// is decoded and judged. The retry budget gates waiting, not
    /// decoding: once it is spent, the output of the next query is decoded
    /// whatever its standard error holds.
    pub open spec fn after_poll_spec(
        &self,
        tx_hash: Seq<char>,
        retries_left: u32,
        stderr: Seq<u8>,
        decoded: Result<TxResultView, PipelineErrorView>,
    ) -> TxStepView {
        if stderr.len() > 0 && retries_left > 0 {
            TxStepView::Run {
                state: TxStateView::Polling { tx_hash, retries_left: (retries_left - 1) as u32 },
                invocation: self.query_tx_call(tx_hash),
                delay_ms: CONFIRMATION_DELAY_MS,
            }
        } else {
            TxStepView::Done(verdict(decoded))
        }
    }

    /// The step that follows `state` when the run ended as `event`.
    pub open spec fn step_spec(&self, state: TxStateView, event: ProcessEventView) -> TxStepView {
        match event {
            ProcessEventView::SpawnFailed(m) => TxStepView::Done(
                Err(PipelineErrorView::ProcessSpawnFailure(m)),
            ),
            ProcessEventView::Exited { stdout, stderr } => match state {
                TxStateView::Submitted => self.after_submit_spec(decoded_tx(stdout)),
                TxStateView::Polling { tx_hash, retries_left } => self.after_poll_spec(
                    tx_hash,
                    retries_left,
                    stderr,
                    decoded_tx(stdout),
                ),
            },
        }
    }

    /// The step after a submit call, given what its output decoded to: a
    /// response with code zero starts the confirmation of its hash with
    /// the full retry budget; any other ends the operation at once.
    pub fn after_submit(&self, decoded: Result<TxResult, PipelineError>) -> (step: TxStep)
        ensures
            step@ == self.after_submit_spec(outcome_view(decoded)),
    {
        match judge(decoded) {
            Ok(t) => {
                let invocation = self.query_tx(t.tx_hash.as_str());
                TxStep::Run {
                    state: TxState::Polling { tx_hash: t.tx_hash, retries_left: CONFIRMATION_RETRIES },
                    invocation,
                    delay_ms: 0,
                }
            },
            Err(e) => TxStep::Done(Err(e)),
        }
    }

    /// The step after a confirmation query that left `output`.
    pub fn after_poll(&self, tx_hash: String, retries_left: u32, output: &ProcessOutput) -> (step:
        TxStep)
        ensures
            step@ == self.after_poll_spec(
                tx_hash@,
                retries_left,
                output.stderr@,
                decoded_tx(output.stdout@),
            ),
    {
        if output.stderr.len() > 0 && retries_left > 0 {
            let invocation = self.query_tx(tx_hash.as_str());
            TxStep::Run {
                state: TxState::Polling { tx_hash, retries_left: retries_left - 1 },
                invocation,
                delay_ms: CONFIRMATION_DELAY_MS,
            }
        } else {
            TxStep::Done(judge(decode_tx_result(output.stdout.as_slice())))
        }
    }

    /// The step that follows `state` when the run ended as `event`.
    pub fn advance(&self, state: TxState, event: ProcessEvent) -> (step: TxStep)
        ensures
            step@ == self.step_spec(state@, event@),
    {
        match event {
            ProcessEvent::SpawnFailed(m) => TxStep::Done(Err(PipelineError::ProcessSpawnFailure(m))),
            ProcessEvent::Exited(output) => match state {
                TxState::Submitted => self.after_submit(decode_tx_result(output.stdout.as_slice())),
                TxState::Polling { tx_hash, retries_left } => self.after_poll(
                    tx_hash,
                    retries_left,
                    &output,
                ),
            },
        }
    }
}

/// Calls `String::from_utf8`: the text that the bytes spell, `None`
/// exactly when they are not UTF-8.
#[verifier::external_body]
fn text_from_utf8(bytes: Vec<u8>) -> (text: Option<String>)
    ensures
        text is Some == valid_utf8(bytes@),
        text matches Some(s) ==> s@ == decode_utf8(bytes@),
{
    String::from_utf8(bytes).ok()
}

/// The failure that a query's standard error stands for: its text, or a
/// decode failure where it is not UTF-8.
pub open spec fn tool_error_of(stderr: Seq<u8>) -> PipelineErrorView {
    if valid_utf8(stderr) {
        PipelineErrorView::UnderlyingToolError(decode_utf8(stderr))
    } else {
        PipelineErrorView::ResponseDecodeFailure
    }
}

/// What a key lookup that ended as `event` returns.
pub open spec fn key_info_outcome(event: ProcessEventView) -> Result<KeyInfoView, PipelineErrorView> {
    match event {
        ProcessEventView::SpawnFailed(m) => Err(PipelineErrorView::ProcessSpawnFailure(m)),
        ProcessEventView::Exited { stdout, stderr } => if stderr.len() > 0 {
            Err(tool_error_of(stderr))
        } else {
            match key_info_in(stdout) {
                Some(k) => Ok(k),
                None => Err(PipelineErrorView::ResponseDecodeFailure),
            }
        },
    }
}

/// What a contract query that ended as `event` returns.
pub open spec fn smart_query_outcome(event: ProcessEventView) -> Result<JsonView, PipelineErrorView> {
    match event {
        ProcessEventView::SpawnFailed(m) => Err(PipelineErrorView::ProcessSpawnFailure(m)),
        ProcessEventView::Exited { stdout, stderr } => if stderr.len() > 0 {
            Err(tool_error_of(stderr))
        } else {
            match json_document(stdout) {
                Some(doc) => Ok(doc),
                None => Err(PipelineErrorView::ResponseDecodeFailure),
            }
        },
    }
}

/// Turns a query's standard error into the failure it stands for.
pub fn tool_error(stderr: Vec<u8>) -> (e: PipelineError)
    ensures
        e@ == tool_error_of(stderr@),
{
    match text_from_utf8(stderr) {
        Some(text) => PipelineError::UnderlyingToolError(text),
        None => PipelineError::ResponseDecodeFailure,
    }
}

/// Reads the outcome of a key lookup. Anything on standard error is a
/// failure, whatever standard output holds; there is no retry.
pub fn read_key_info(event: ProcessEvent) -> (out: Result<KeyInfo, PipelineError>)
    ensures
        out is Ok == key_info_outcome(event@) is Ok,
        out matches Ok(k) ==> key_info_outcome(event@) == Ok::<KeyInfoView, PipelineErrorView>(k@),
        out matches Err(e) ==> key_info_outcome(event@) == Err::<KeyInfoView, PipelineErrorView>(
            e@,
        ),
{
    match event {
        ProcessEvent::SpawnFailed(m) => Err(PipelineError::ProcessSpawnFailure(m)),
        ProcessEvent::Exited(output) => {
            if output.stderr.len() > 0 {
                Err(tool_error(output.stderr))
            } else {
                decode_key_info(output.stdout.as_slice())
            }
        },
    }
}

/// Reads the outcome of a contract query: any JSON document. Anything
/// on standard error is a failure, whatever standard output holds; there
/// is no retry.
pub fn read_smart_query(event: ProcessEvent) -> (out: Result<Json, PipelineError>)
    ensures
        out is Ok == smart_query_outcome(event@) is Ok,
        out matches Ok(doc) ==> smart_query_outcome(event@) == Ok::<JsonView, PipelineErrorView>(
            doc@,
        ),
        out matches Err(e) ==> smart_query_outcome(event@) == Err::<JsonView, PipelineErrorView>(
            e@,
        ),
{
    match event {
        ProcessEvent::SpawnFailed(m) => Err(PipelineError::ProcessSpawnFailure(m)),
        ProcessEvent::Exited(output) => {
            if output.stderr.len() > 0 {
                Err(tool_error(output.stderr))
            } else {
                decode_json(output.stdout.as_slice())
            }
        },
    }
}

/// What a confirmation came to over a recorded list of runs.
#[derive(Debug, PartialEq, Eq)]
pub struct PollReport {
    /// How many confirmation queries were answered from the record.
    pub queries: usize,
    /// How many pauses preceded them.
    pub sleeps: usize,
    /// What is left of the retry budget.
    pub retries_left: u32,
    /// The final result; `None` when the record ended before the
    /// confirmation did.
    pub outcome: Option<Result<TxResult, PipelineError>>,
}

pub struct PollReportView {
    pub queries: nat,
    pub sleeps: nat,
    pub retries_left: u32,
    pub outcome: Option<Result<TxResultView, PipelineErrorView>>,
}

impl View for PollReport {
    type V = PollReportView;

    open spec fn view(&self) -> PollReportView {
        PollReportView {
            queries: self.queries as nat,
            sleeps: self.sleeps as nat,
            retries_left: self.retries_left,
            outcome: match self.outcome {
                Some(r) => Some(outcome_view(r)),
                None => None,
            },
        }
    }
}

impl CustomPipelineProfile {
    /// The confirmation of `tx_hash` over the runs `events[from..]`,
    /// after `queries` queries and `sleeps` pauses, with `retries_left`
    /// retries to spend.
    pub open spec fn poll_run(
        &self,
        tx_hash: Seq<char>,
        retries_left: u32,
        events: Seq<ProcessEventView>,
        from: int,
        queries: nat,
        sleeps: nat,
    ) -> PollReportView
        decreases events.len() - from,
    {
        if from < 0 || from >= events.len() {
            PollReportView { queries, sleeps, retries_left, outcome: None }
        } else {
            match self.step_spec(TxStateView::Polling { tx_hash, retries_left }, events[from]) {
                TxStepView::Done(r) => PollReportView {
                    queries: queries + 1,
                    sleeps,
                    retries_left,
                    outcome: Some(r),
                },
                TxStepView::Run { state: TxStateView::Polling { tx_hash: h, retries_left: r }, .. } => {
                    self.poll_run(h, r, events, from + 1, queries + 1, sleeps + 1)
                },
                TxStepView::Run { .. } => PollReportView {
                    queries: queries + 1,
                    sleeps,
                    retries_left,
                    outcome: None,
                },
            }
        }
    }

    /// Runs the confirmation of `tx_hash` against a recorded list of
    /// runs, one per query, and reports what it came to. Nothing is run
    /// and nothing sleeps.
    pub fn replay_confirmation(&self, tx_hash: &str, events: &Vec<ProcessEvent>) -> (report:
        PollReport)
        ensures
            report@ == self.poll_run(tx_hash@, CONFIRMATION_RETRIES, seq_view(events@), 0, 0, 0),
    {
        let mut retries_left: u32 = CONFIRMATION_RETRIES;
        let mut i: usize = 0;
        let mut sleeps: usize = 0;
        while i < events.len()
            invariant
                i <= events@.len(),
                sleeps <= i,
                self.poll_run(
                    tx_hash@,
                    retries_left,
                    seq_view(events@),
                    i as int,
                    i as nat,
                    sleeps as nat,
                ) == self.poll_run(tx_hash@, CONFIRMATION_RETRIES, seq_view(events@), 0, 0, 0),
            decreases events@.len() - i,
        {
            let step = match &events[i] {
                ProcessEvent::SpawnFailed(m) => TxStep::Done(
                    Err(PipelineError::ProcessSpawnFailure(m.clone())),
                ),
                ProcessEvent::Exited(output) => self.after_poll(
                    String::from_str(tx_hash),
                    retries_left,
                    output,
                ),
            };
            assert(step@ == self.step_spec(
                TxStateView::Polling { tx_hash: tx_hash@, retries_left },
                seq_view(events@)[i as int],
            ));
            match step {
                TxStep::Done(r) => {
                    return PollReport { queries: i + 1, sleeps, retries_left, outcome: Some(r) };
                },
                TxStep::Run { state: TxState::Polling { tx_hash: _, retries_left: r }, .. } => {
                    retries_left = r;
                    sleeps = sleeps + 1;
                },
                TxStep::Run { .. } => {
                    return PollReport { queries: i + 1, sleeps, retries_left, outcome: None };
                },
            }
            i = i + 1;
        }
        PollReport { queries: i, sleeps, retries_left, outcome: None }
    }

    /// A submit response with code zero goes on to the confirmation of
    /// its hash, with the full retry budget and no pause; one with any
    /// other code ends the operation with a failed transaction that
    /// holds its hash and raw log, and no query is asked for.
    pub proof fn lemma_submit_by_code(&self, t: TxResultView)
        ensures
            t.code == 0 ==> self.after_submit_spec(Ok(t)) == (TxStepView::Run {
                state: TxStateView::Polling { tx_hash: t.tx_hash, retries_left: CONFIRMATION_RETRIES },
                invocation: self.query_tx_call(t.tx_hash),
                delay_ms: 0,
            }),
            t.code != 0 ==> self.after_submit_spec(Ok(t)) == TxStepView::Done(
                Err(PipelineErrorView::TransactionFailed(t.tx_hash, t.raw_log)),
            ),
    {
    }

    /// An operation ends well only out of a confirmation query, and only
    /// with what that query's output decodes to, code zero: a result that
    /// was merely submitted is never returned.
    pub proof fn lemma_success_is_confirmed(
        &self,
        state: TxStateView,
        event: ProcessEventView,
        t: TxResultView,
    )
        requires
            self.step_spec(state, event) == TxStepView::Done(Ok(t)),
        ensures
            state is Polling,
            event is Exited,
            tx_result_in(event->stdout) == Some(t),
            t.code == 0,
    {
    }

    /// A retry always spends one of the retries that are left, so a
    /// confirmation asks for at most one query more than its budget.
    pub proof fn lemma_retry_spends_budget(
        &self,
        tx_hash: Seq<char>,
        retries_left: u32,
        event: ProcessEventView,
    )
        ensures
            match self.step_spec(TxStateView::Polling { tx_hash, retries_left }, event) {
                TxStepView::Run { state, invocation, delay_ms } => {
                    &&& retries_left > 0
                    &&& state == (TxStateView::Polling {
                        tx_hash,
                        retries_left: (retries_left - 1) as u32,
                    })
                    &&& invocation == self.query_tx_call(tx_hash)
                    &&& delay_ms == CONFIRMATION_DELAY_MS
                },
                TxStepView::Done(_) => true,
            },
    {
    }

    /// If the first `k` recorded queries answer on standard error, `k` is
    /// within the budget, and the next one either keeps standard error
    /// empty or finds the budget spent, then the confirmation asks `k + 1`
    /// queries, pauses `k` times, spends `k` retries, and ends with the
    /// verdict on the output of that last query.
    pub proof fn lemma_poll_after_failures(
        &self,
        tx_hash: Seq<char>,
        retries_left: u32,
        events: Seq<ProcessEventView>,
        from: int,
        queries: nat,
        sleeps: nat,
        k: nat,
    )
        requires
            0 <= from,
            from + k < events.len(),
            k <= retries_left,
            forall|i: int|
                from <= i < from + k ==> (#[trigger] events[i]) is Exited && events[i]->stderr.len()
                    > 0,
            events[from + k] is Exited,
            events[from + k]->stderr.len() == 0 || k == retries_left,
        ensures
            self.poll_run(tx_hash, retries_left, events, from, queries, sleeps) == (PollReportView {
                queries: queries + k + 1,
                sleeps: sleeps + k,
                retries_left: (retries_left - k) as u32,
                outcome: Some(verdict(decoded_tx(events[from + k]->stdout))),
            }),
        decreases k,
    {
        if k > 0 {
            assert(events[from] is Exited && events[from]->stderr.len() > 0);
            self.lemma_poll_after_failures(
                tx_hash,
                (retries_left - 1) as u32,
                events,
                from + 1,
                queries + 1,
                sleeps + 1,
                (k - 1) as nat,
            );
        }
    }
}

} // verus!
