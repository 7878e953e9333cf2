//! The decisions of a refresh: submit a query, poll its status until it is
//! terminal, then fetch the results.
//!
//! Nothing here performs a request or sleeps. The caller does what a
//! [`NextStep`] says and reports back what came of it; the functions below
//! answer with the step after that.

use crate::error::{DuneRequestError, ErrorView};
use crate::response::{ExecutionResponse, ExecutionStatus, GetStatusResponse};
use vstd::prelude::*;

verus! {

/// Seconds between two status checks where the caller sets none.
pub const DEFAULT_POLL_INTERVAL_SECS: u64 = 5;

/// How a refresh polls.
#[derive(Debug, Clone, Copy, PartialEq, Eq, Structural)]
pub struct PollPolicy {
    /// Seconds to wait before each status check.
    pub interval_secs: u64,
    /// Whether a status check that failed in transport is tried again after
    /// the usual wait. A rejection by the service always ends the refresh.
    pub retry_transport_errors: bool,
}

impl PollPolicy {
    /// The policy with the given interval, or the default one where none is
    /// given. A failed status check ends the refresh.
    pub fn new(interval_secs: Option<u64>) -> (policy: PollPolicy)
        ensures
            policy.interval_secs == match interval_secs {
                Some(seconds) => seconds,
                None => DEFAULT_POLL_INTERVAL_SECS,
            },
            !policy.retry_transport_errors,
    {
        let seconds = match interval_secs {
            Some(seconds) => seconds,
            None => DEFAULT_POLL_INTERVAL_SECS,
        };
        PollPolicy { interval_secs: seconds, retry_transport_errors: false }
    }

    /// The same policy, but with failures in transport tried again or not.
    pub fn with_retry(self, retry_transport_errors: bool) -> (policy: PollPolicy)
        ensures
            policy.interval_secs == self.interval_secs,
            policy.retry_transport_errors == retry_transport_errors,
    {
        PollPolicy { interval_secs: self.interval_secs, retry_transport_errors }
    }
}

impl Default for PollPolicy {
    fn default() -> (policy: PollPolicy)
        ensures
            policy.interval_secs == DEFAULT_POLL_INTERVAL_SECS,
            !policy.retry_transport_errors,
    {
        PollPolicy::new(None)
    }
}

/// What the caller of a refresh has to do next.
#[derive(Debug)]
pub enum NextStep {
    /// Wait, then check the status of the execution.
    Poll {
        /// Execution to check.
        execution_id: String,
        /// Seconds to wait before the check.
        delay_secs: u64,
    },
    /// Fetch the results of the execution and hand them to the caller,
    /// whatever the fetch returns.
    Fetch {
        /// Execution to fetch.
        execution_id: String,
    },
    /// Give up and hand this failure to the caller.
    Abort(DuneRequestError),
}

/// Mathematical content of a [`NextStep`].
pub enum StepView {
    /// Wait `delay_secs`, then check the status of `execution_id`.
    Poll { execution_id: Seq<char>, delay_secs: u64 },
    /// Fetch the results of `execution_id`.
    Fetch { execution_id: Seq<char> },
    /// Give up with this failure.
    Abort(ErrorView),
}

impl View for NextStep {
    type V = StepView;

    open spec fn view(&self) -> StepView {
        match self {
            NextStep::Poll { execution_id, delay_secs } => StepView::Poll {
                execution_id: execution_id@,
                delay_secs: *delay_secs,
            },
            NextStep::Fetch { execution_id } => StepView::Fetch { execution_id: execution_id@ },
            NextStep::Abort(failure) => StepView::Abort(failure@),
        }
    }
}

/// What a submission came to: the identifier of the new execution, or a failure.
pub open spec fn submission(submitted: Result<ExecutionResponse, DuneRequestError>) -> Result<
    Seq<char>,
    ErrorView,
> {
    match submitted {
        Ok(response) => Ok(response.execution_id@),
        Err(failure) => Err(failure@),
    }
}

/// What a status check came to: the state it saw, or a failure.
pub open spec fn observation(observed: Result<GetStatusResponse, DuneRequestError>) -> Result<
    ExecutionStatus,
    ErrorView,
> {
    match observed {
        Ok(response) => Ok(response.state),
        Err(failure) => Err(failure@),
    }
}

/// Whether polling goes on after a status check with this outcome: the
/// execution is not terminal yet, or the check failed in transport and the
/// policy tries such a check again.
pub open spec fn keeps_polling(seen: Result<ExecutionStatus, ErrorView>, policy: PollPolicy) -> bool {
    match seen {
        Ok(state) => !state.terminal(),
        Err(failure) => policy.retry_transport_errors && failure is Transport,
    }
}

/// The step after a submission: poll the new execution, or give up with
/// the failure of the submission.
pub open spec fn step_after_submission(
    submitted: Result<Seq<char>, ErrorView>,
    policy: PollPolicy,
) -> StepView {
    match submitted {
        Ok(execution_id) => StepView::Poll { execution_id, delay_secs: policy.interval_secs },
        Err(failure) => StepView::Abort(failure),
    }
}

/// The step after one status check of `execution_id`.
pub open spec fn step_after_status(
    execution_id: Seq<char>,
    seen: Result<ExecutionStatus, ErrorView>,
    policy: PollPolicy,
) -> StepView {
    if keeps_polling(seen, policy) {
        StepView::Poll { execution_id, delay_secs: policy.interval_secs }
    } else {
        match seen {
            Ok(_) => StepView::Fetch { execution_id },
            Err(failure) => StepView::Abort(failure),
        }
    }
}

/// The step after a run of status checks of `execution_id`, oldest first.
/// Checks that come after polling has ended change nothing.
pub open spec fn step_after_polls(
    execution_id: Seq<char>,
    seen: Seq<Result<ExecutionStatus, ErrorView>>,
    policy: PollPolicy,
) -> StepView
    decreases seen.len(),
{
    if seen.len() == 0 {
        StepView::Poll { execution_id, delay_secs: policy.interval_secs }
    } else {
        let before = step_after_polls(execution_id, seen.drop_last(), policy);
        if before is Poll {
            step_after_status(execution_id, seen.last(), policy)
        } else {
            before
        }
    }
}

/// Decides what follows a submission. The submitted execution is polled
/// under the identifier that the service gave it; a failed submission ends
/// the refresh with that failure, unchanged.
pub fn after_submission(
    submitted: Result<ExecutionResponse, DuneRequestError>,
    policy: &PollPolicy,
) -> (step: NextStep)
    ensures
        step@ == step_after_submission(submission(submitted), *policy),
{
    match submitted {
        Ok(response) => NextStep::Poll {
            execution_id: response.execution_id,
            delay_secs: policy.interval_secs,
        },
        Err(failure) => NextStep::Abort(failure),
    }
}

/// Decides what follows a status check of `execution_id`. Polling goes on
/// while the execution is not terminal. A terminal state, successful or
/// not, leads to the fetch. A failed check ends the refresh with that
/// failure, unchanged, unless the policy has it tried again.
pub fn after_status(
    execution_id: String,
    observed: Result<GetStatusResponse, DuneRequestError>,
    policy: &PollPolicy,
) -> (step: NextStep)
    ensures
        step@ == step_after_status(execution_id@, observation(observed), *policy),
{
    match observed {
        Ok(response) => {
            if response.state.is_terminal() {
                NextStep::Fetch { execution_id }
            } else {
                NextStep::Poll { execution_id, delay_secs: policy.interval_secs }
            }
        },
        Err(failure) => {
            let again = policy.retry_transport_errors && match &failure {
                DuneRequestError::Request(_) => true,
                DuneRequestError::Dune(_) => false,
            };
            if again {
                NextStep::Poll { execution_id, delay_secs: policy.interval_secs }
            } else {
                NextStep::Abort(failure)
            }
        },
    }
}

/// What a run of status checks came to, check by check.
pub open spec fn observations(observed: Seq<Result<GetStatusResponse, DuneRequestError>>) -> Seq<
    Result<ExecutionStatus, ErrorView>,
> {
    Seq::new(observed.len(), |index: int| observation(observed[index]))
}

/// Decides where a refresh of `execution_id` stands after a recorded run of
/// status checks, oldest first: the step that [`after_status`] gave for the
/// first check that ended polling, or another poll where none did.
pub fn replay(
    execution_id: String,
    observed: Vec<Result<GetStatusResponse, DuneRequestError>>,
    policy: &PollPolicy,
) -> (step: NextStep)
    ensures
        step@ == step_after_polls(execution_id@, observations(observed@), *policy),
    decreases observed.len(),
{
    let mut earlier = observed;
    match earlier.pop() {
        None => NextStep::Poll { execution_id, delay_secs: policy.interval_secs },
        Some(last) => {
            proof {
                assert(observations(earlier@) =~= observations(observed@).drop_last());
                assert(observation(last) == observations(observed@).last());
            }
            match replay(execution_id, earlier, policy) {
                NextStep::Poll { execution_id, delay_secs: _ } => after_status(
                    execution_id,
                    last,
                    policy,
                ),
                settled => settled,
            }
        },
    }
}

/// Whether the check at `index` is the first after which polling ends.
pub open spec fn ends_polling_at(
    seen: Seq<Result<ExecutionStatus, ErrorView>>,
    policy: PollPolicy,
    index: int,
) -> bool {
    &&& 0 <= index < seen.len()
    &&& !keeps_polling(seen[index], policy)
    &&& forall|earlier: int| 0 <= earlier < index ==> keeps_polling(#[trigger] seen[earlier], policy)
}

/// While every status check says to go on, the refresh keeps polling the
/// execution it submitted, at the interval of the policy.
pub proof fn lemma_polls_while_running(
    execution_id: Seq<char>,
    seen: Seq<Result<ExecutionStatus, ErrorView>>,
    policy: PollPolicy,
)
    requires
        forall|index: int| 0 <= index < seen.len() ==> keeps_polling(#[trigger] seen[index], policy),
    ensures
        step_after_polls(execution_id, seen, policy) == (StepView::Poll {
            execution_id,
            delay_secs: policy.interval_secs,
        }),
    decreases seen.len(),
{
    if seen.len() > 0 {
        let earlier = seen.drop_last();
        assert forall|index: int| 0 <= index < earlier.len() implies keeps_polling(
            #[trigger] earlier[index],
            policy,
        ) by {
            assert(earlier[index] == seen[index]);
        }
        lemma_polls_while_running(execution_id, earlier, policy);
        assert(keeps_polling(seen[seen.len() - 1], policy));
    }
}

/// The first status check that ends polling decides the refresh: a
/// terminal state leads to the fetch of the same execution, a failure to
/// giving up with that failure. Later checks change nothing.
pub proof fn lemma_first_ending_check_decides(
    execution_id: Seq<char>,
    seen: Seq<Result<ExecutionStatus, ErrorView>>,
    policy: PollPolicy,
    index: int,
)
    requires
        ends_polling_at(seen, policy, index),
    ensures
        step_after_polls(execution_id, seen, policy) == step_after_status(
            execution_id,
            seen[index],
            policy,
        ),
        step_after_polls(execution_id, seen, policy) == match seen[index] {
            Ok(_) => StepView::Fetch { execution_id },
            Err(failure) => StepView::Abort(failure),
        },
    decreases seen.len(),
{
    let earlier = seen.drop_last();
    if index == seen.len() - 1 {
        assert forall|k: int| 0 <= k < earlier.len() implies keeps_polling(
            #[trigger] earlier[k],
            policy,
        ) by {
            assert(earlier[k] == seen[k]);
        }
        lemma_polls_while_running(execution_id, earlier, policy);
    } else {
        assert(earlier[index] == seen[index]);
        assert forall|k: int| 0 <= k < index implies keeps_polling(
            #[trigger] earlier[k],
            policy,
        ) by {
            assert(earlier[k] == seen[k]);
        }
        lemma_first_ending_check_decides(execution_id, earlier, policy, index);
    }
}

/// Finds the first status check that ends polling, where there is one.
pub proof fn lemma_first_ending_check(
    seen: Seq<Result<ExecutionStatus, ErrorView>>,
    policy: PollPolicy,
    witness: int,
) -> (index: int)
    requires
        0 <= witness < seen.len(),
        !keeps_polling(seen[witness], policy),
    ensures
        ends_polling_at(seen, policy, index),
        index <= witness,
    decreases witness,
{
    if exists|earlier: int| 0 <= earlier < witness && !keeps_polling(#[trigger] seen[earlier], policy) {
        let earlier = choose|earlier: int|
            0 <= earlier < witness && !keeps_polling(#[trigger] seen[earlier], policy);
        lemma_first_ending_check(seen, policy, earlier)
    } else {
        witness
    }
}

/// Results are fetched only after a status check has seen a terminal
/// state, and only for the execution that was submitted.
pub proof fn lemma_fetch_needs_terminal(
    execution_id: Seq<char>,
    seen: Seq<Result<ExecutionStatus, ErrorView>>,
    policy: PollPolicy,
)
    requires
        step_after_polls(execution_id, seen, policy) is Fetch,
    ensures
        step_after_polls(execution_id, seen, policy) == (StepView::Fetch { execution_id }),
        exists|index: int|
            ends_polling_at(seen, policy, index) && (#[trigger] seen[index] matches Ok(state)
                && state.terminal()),
{
    if forall|index: int| 0 <= index < seen.len() ==> keeps_polling(#[trigger] seen[index], policy) {
        lemma_polls_while_running(execution_id, seen, policy);
    } else {
        let witness = choose|index: int|
            0 <= index < seen.len() && !keeps_polling(#[trigger] seen[index], policy);
        let index = lemma_first_ending_check(seen, policy, witness);
        lemma_first_ending_check_decides(execution_id, seen, policy, index);
        assert(seen[index] is Ok);
    }
}

/// A refresh gives up only with a failure that a status check reported,
/// handed on unchanged, and never with one that the policy has tried again.
pub proof fn lemma_abort_reports_failure(
    execution_id: Seq<char>,
    seen: Seq<Result<ExecutionStatus, ErrorView>>,
    policy: PollPolicy,
)
    requires
        step_after_polls(execution_id, seen, policy) is Abort,
    ensures
        exists|index: int|
            ends_polling_at(seen, policy, index) && #[trigger] seen[index] == Err::<
                ExecutionStatus,
                ErrorView,
            >(step_after_polls(execution_id, seen, policy)->Abort_0),
{
    if forall|index: int| 0 <= index < seen.len() ==> keeps_polling(#[trigger] seen[index], policy) {
        lemma_polls_while_running(execution_id, seen, policy);
    } else {
        let witness = choose|index: int|
            0 <= index < seen.len() && !keeps_polling(#[trigger] seen[index], policy);
        let index = lemma_first_ending_check(seen, policy, witness);
        lemma_first_ending_check_decides(execution_id, seen, policy, index);
        assert(seen[index] is Err);
    }
}

/// Every step of a refresh names the execution that was submitted, and
/// every wait is the interval of the policy.
pub proof fn lemma_steps_keep_execution(
    execution_id: Seq<char>,
    seen: Seq<Result<ExecutionStatus, ErrorView>>,
    policy: PollPolicy,
)
    ensures
        match step_after_polls(execution_id, seen, policy) {
            StepView::Poll { execution_id: polled, delay_secs } => polled == execution_id
                && delay_secs == policy.interval_secs,
            StepView::Fetch { execution_id: fetched } => fetched == execution_id,
            StepView::Abort(_) => true,
        },
    decreases seen.len(),
{
    if seen.len() > 0 {
        lemma_steps_keep_execution(execution_id, seen.drop_last(), policy);
    }
}

/// Where failed checks are not tried again, polling goes on exactly while
/// the checks succeed and see a state that is not terminal.
pub proof fn lemma_strict_policy_polls_on_running_only(
    seen: Result<ExecutionStatus, ErrorView>,
    policy: PollPolicy,
)
    requires
        !policy.retry_transport_errors,
    ensures
        keeps_polling(seen, policy) <==> (seen matches Ok(state) && !state.terminal()),
{
}

} // verus!
