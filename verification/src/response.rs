//! Response shapes of the query service and the execution status lifecycle.

use crate::parse_utils::Timestamp;
use crate::text::{parse_error, parse_error_text, same_text};
use std::str::FromStr;
use vstd::prelude::*;

verus! {

/// Answer to the submission of a query: the execution that was created.
#[derive(Debug)]
pub struct ExecutionResponse {
    /// Identifier under which the execution is polled, fetched and cancelled.
    pub execution_id: String,
    /// State of the execution at submission.
    pub state: ExecutionStatus,
}

/// State of one query execution as reported by the service.
#[derive(Debug, Clone, Copy, PartialEq, Eq, Structural)]
pub enum ExecutionStatus {
    /// The query finished successfully and its results can be fetched.
    Complete,
    /// The query is running.
    Executing,
    /// The query waits in the queue.
    Pending,
    /// The execution was cancelled.
    Cancelled,
    /// The execution failed, for instance by running out of time.
    Failed,
}

impl ExecutionStatus {
    /// The token that stands for this status on the wire.
    pub open spec fn wire_token(self) -> Seq<char> {
        match self {
            ExecutionStatus::Complete => "QUERY_STATE_COMPLETED"@,
            ExecutionStatus::Executing => "QUERY_STATE_EXECUTING"@,
            ExecutionStatus::Pending => "QUERY_STATE_PENDING"@,
            ExecutionStatus::Cancelled => "QUERY_STATE_CANCELLED"@,
            ExecutionStatus::Failed => "QUERY_STATE_FAILED"@,
        }
    }

    /// The status that a token stands for, if it is one of the five wire tokens.
    pub open spec fn of_wire_token(token: Seq<char>) -> Option<ExecutionStatus> {
        if token == ExecutionStatus::Complete.wire_token() {
            Some(ExecutionStatus::Complete)
        } else if token == ExecutionStatus::Executing.wire_token() {
            Some(ExecutionStatus::Executing)
        } else if token == ExecutionStatus::Pending.wire_token() {
            Some(ExecutionStatus::Pending)
        } else if token == ExecutionStatus::Cancelled.wire_token() {
            Some(ExecutionStatus::Cancelled)
        } else if token == ExecutionStatus::Failed.wire_token() {
            Some(ExecutionStatus::Failed)
        } else {
            None
        }
    }

    /// Decodes a wire token. Only the five exact tokens are accepted; any
    /// other text, a case variant included, is reported back in the error.
    pub fn from_str(input: &str) -> (decoded: Result<ExecutionStatus, String>)
        ensures
            match decoded {
                Ok(status) => ExecutionStatus::of_wire_token(input@) == Some(status),
                Err(message) => ExecutionStatus::of_wire_token(input@) is None
                    && message@ == parse_error_text(input@),
            },
    {
        if same_text(input, "QUERY_STATE_COMPLETED") {
            Ok(ExecutionStatus::Complete)
        } else if same_text(input, "QUERY_STATE_EXECUTING") {
            Ok(ExecutionStatus::Executing)
        } else if same_text(input, "QUERY_STATE_PENDING") {
            Ok(ExecutionStatus::Pending)
        } else if same_text(input, "QUERY_STATE_CANCELLED") {
            Ok(ExecutionStatus::Cancelled)
        } else if same_text(input, "QUERY_STATE_FAILED") {
            Ok(ExecutionStatus::Failed)
        } else {
            Err(parse_error(input))
        }
    }

    /// A status is terminal when the service will never change it again.
    pub open spec fn terminal(self) -> bool {
        self is Complete || self is Cancelled || self is Failed
    }

    /// Returns `true` when the execution will not change state again.
    pub fn is_terminal(&self) -> (b: bool)
        ensures
            b == self.terminal(),
            b <==> (self is Complete || self is Cancelled || self is Failed),
            !b <==> (self is Pending || self is Executing),
    {
        match self {
            ExecutionStatus::Complete => true,
            ExecutionStatus::Cancelled => true,
            ExecutionStatus::Failed => true,
            ExecutionStatus::Executing => false,
            ExecutionStatus::Pending => false,
        }
    }
}

/// Answer to a request for cancellation.
#[derive(Debug)]
pub struct CancellationResponse {
    /// Whether the service accepted the request.
    pub success: bool,
}

/// Description of a result set: its columns, sizes and timings.
#[derive(Debug)]
pub struct ResultMetaData {
    /// Names of the columns.
    pub column_names: Vec<String>,
    /// Type names of the columns, where the service sends them.
    pub column_types: Option<Vec<String>>,
    /// Number of rows on this page, where the service sends it.
    pub row_count: Option<u32>,
    /// Size of this page in bytes.
    pub result_set_bytes: u64,
    /// Size of the whole result in bytes, where it is paged.
    pub total_result_set_bytes: Option<u64>,
    /// Number of rows over all pages.
    pub total_row_count: u32,
    /// Number of data points.
    pub datapoint_count: u32,
    /// Milliseconds spent in the queue.
    pub pending_time_millis: Option<u32>,
    /// Milliseconds spent executing.
    pub execution_time_millis: u32,
}

/// Instants of the lifecycle of an execution. All but the first are
/// absent until the event they record has happened.
#[derive(Debug)]
pub struct ExecutionTimes {
    /// When the execution was submitted.
    pub submitted_at: Timestamp,
    /// When the service will discard the results.
    pub expires_at: Option<Timestamp>,
    /// When the execution left the queue.
    pub execution_started_at: Option<Timestamp>,
    /// When the execution ended.
    pub execution_ended_at: Option<Timestamp>,
    /// When the execution was cancelled.
    pub cancelled_at: Option<Timestamp>,
}

/// Answer to a status check.
#[derive(Debug)]
pub struct GetStatusResponse {
    /// Identifier of the execution.
    pub execution_id: String,
    /// Identifier of the query that was executed.
    pub query_id: u32,
    /// Current state of the execution.
    pub state: ExecutionStatus,
    /// Instants of the lifecycle so far.
    pub times: ExecutionTimes,
    /// Place in the queue, sent while the execution is pending.
    pub queue_position: Option<u32>,
    /// Description of the result set, sent once there is one.
    pub result_metadata: Option<ResultMetaData>,
}

/// A result set: its rows, decoded into the caller's row type, and its description.
#[derive(Debug)]
pub struct ExecutionResult<T> {
    /// Rows of the result set, in the order the service sent them.
    pub rows: Vec<T>,
    /// Description of the result set.
    pub metadata: ResultMetaData,
}

/// Answer to a fetch of results.
#[derive(Debug)]
pub struct GetResultResponse<T> {
    /// Identifier of the execution.
    pub execution_id: String,
    /// Identifier of the query that was executed.
    pub query_id: u32,
    /// Whether the execution has finished, where the service says so.
    pub is_execution_finished: Option<bool>,
    /// State of the execution.
    pub state: ExecutionStatus,
    /// Instants of the lifecycle.
    pub times: ExecutionTimes,
    /// The result set.
    pub result: ExecutionResult<T>,
}

impl<T> GetResultResponse<T> {
    /// Hands out the rows of the result set, unchanged and in order.
    pub fn get_rows(self) -> (rows: Vec<T>)
        ensures
            rows == self.result.rows,
    {
        self.result.rows
    }
}

impl FromStr for ExecutionStatus {
    type Err = String;

    /// Decodes a wire token, as the function of the same name on the type does.
    fn from_str(input: &str) -> (decoded: Result<ExecutionStatus, String>)
        ensures
            match decoded {
                Ok(status) => ExecutionStatus::of_wire_token(input@) == Some(status),
                Err(message) => ExecutionStatus::of_wire_token(input@) is None
                    && message@ == parse_error_text(input@),
            },
    {
        ExecutionStatus::from_str(input)
    }
}

/// Each wire token decodes to the status it is named after.
pub proof fn lemma_wire_token_decodes(status: ExecutionStatus)
    ensures
        ExecutionStatus::of_wire_token(status.wire_token()) == Some(status),
{
    reveal_strlit("QUERY_STATE_COMPLETED");
    reveal_strlit("QUERY_STATE_EXECUTING");
    reveal_strlit("QUERY_STATE_PENDING");
    reveal_strlit("QUERY_STATE_CANCELLED");
    reveal_strlit("QUERY_STATE_FAILED");
    let token = status.wire_token();
    match status {
        ExecutionStatus::Complete => {},
        ExecutionStatus::Executing => {
            assert(token[12] != ExecutionStatus::Complete.wire_token()[12]);
        },
        ExecutionStatus::Pending => {
            assert(token[12] != ExecutionStatus::Complete.wire_token()[12]);
            assert(token[12] != ExecutionStatus::Executing.wire_token()[12]);
        },
        ExecutionStatus::Cancelled => {
            assert(token[13] != ExecutionStatus::Complete.wire_token()[13]);
            assert(token[12] != ExecutionStatus::Executing.wire_token()[12]);
            assert(token[12] != ExecutionStatus::Pending.wire_token()[12]);
        },
        ExecutionStatus::Failed => {
            assert(token[12] != ExecutionStatus::Complete.wire_token()[12]);
            assert(token[12] != ExecutionStatus::Executing.wire_token()[12]);
            assert(token[12] != ExecutionStatus::Pending.wire_token()[12]);
            assert(token[12] != ExecutionStatus::Cancelled.wire_token()[12]);
        },
    }
}

/// A text decodes to a status exactly when it is that status's wire token,
/// so a text that is none of the five tokens decodes to nothing.
pub proof fn lemma_decodes_only_wire_tokens(token: Seq<char>, status: ExecutionStatus)
    ensures
        ExecutionStatus::of_wire_token(token) == Some(status) <==> token == status.wire_token(),
{
    lemma_wire_token_decodes(status);
}

/// A text is rejected exactly when it is none of the five wire tokens.
pub proof fn lemma_other_texts_are_rejected(token: Seq<char>)
    ensures
        ExecutionStatus::of_wire_token(token) is None <==> forall|status: ExecutionStatus|
            token != #[trigger] status.wire_token(),
{
    if ExecutionStatus::of_wire_token(token) is None {
        assert forall|status: ExecutionStatus| token != #[trigger] status.wire_token() by {
            lemma_decodes_only_wire_tokens(token, status);
        }
    } else {
        let status = ExecutionStatus::of_wire_token(token)->Some_0;
        lemma_decodes_only_wire_tokens(token, status);
        assert(token == status.wire_token());
    }
}

} // verus!
