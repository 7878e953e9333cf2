use duners::parse_utils::Timestamp;
use duners::response::{
    CancellationResponse, ExecutionResponse, ExecutionResult, ExecutionStatus, ExecutionTimes,
    GetResultResponse, GetStatusResponse, ResultMetaData,
};

fn epoch() -> Timestamp {
    Timestamp::from_unix(0, 0).unwrap()
}

#[test]
fn status_from_str() {
    assert_eq!(
        ExecutionStatus::from_str("invalid"),
        Err(String::from("Parse Error invalid"))
    );
    assert_eq!(
        ExecutionStatus::from_str("QUERY_STATE_COMPLETED"),
        Ok(ExecutionStatus::Complete)
    );
    assert_eq!(
        ExecutionStatus::from_str("QUERY_STATE_EXECUTING"),
        Ok(ExecutionStatus::Executing)
    );
    assert_eq!(
        ExecutionStatus::from_str("QUERY_STATE_PENDING"),
        Ok(ExecutionStatus::Pending)
    );
    assert_eq!(
        ExecutionStatus::from_str("QUERY_STATE_CANCELLED"),
        Ok(ExecutionStatus::Cancelled)
    );
    assert_eq!(
        ExecutionStatus::from_str("QUERY_STATE_FAILED"),
        Ok(ExecutionStatus::Failed)
    );
}

#[test]
fn terminal_statuses() {
    assert!(ExecutionStatus::Complete.is_terminal());
    assert!(ExecutionStatus::Cancelled.is_terminal());
    assert!(ExecutionStatus::Failed.is_terminal());

    assert!(!ExecutionStatus::Pending.is_terminal());
    assert!(!ExecutionStatus::Executing.is_terminal());
}

#[test]
fn response_derive_debug() {
    assert_eq!(
        format!(
            "{:?}",
            ExecutionResponse {
                execution_id: "jerb".to_string(),
                state: ExecutionStatus::Failed
            }
        ),
        "ExecutionResponse { execution_id: \"jerb\", state: Failed }"
    );
    assert_eq!(
        format!("{:?}", CancellationResponse { success: false }),
        "CancellationResponse { success: false }"
    );
    let query_id = 71;
    let execution_id = "jerb ID";

    assert_eq!(
        format!(
            "{:?}",
            GetStatusResponse {
                execution_id: execution_id.to_string(),
                query_id,
                state: ExecutionStatus::Pending,
                times: ExecutionTimes {
                    submitted_at: epoch(),
                    expires_at: Default::default(),
                    execution_started_at: Default::default(),
                    execution_ended_at: Default::default(),
                    cancelled_at: Default::default(),
                },
                queue_position: Some(10),
                result_metadata: Some(ResultMetaData {
                    column_names: vec![],
                    column_types: None,
                    row_count: None,
                    result_set_bytes: 0,
                    total_result_set_bytes: None,
                    total_row_count: 0,
                    datapoint_count: 0,
                    pending_time_millis: None,
                    execution_time_millis: 0,
                }),
            }
        ),
        "GetStatusResponse { \
            execution_id: \"jerb ID\", \
            query_id: 71, \
            state: Pending, \
            times: ExecutionTimes { \
                submitted_at: 1970-01-01T00:00:00Z, \
                expires_at: None, \
                execution_started_at: None, \
                execution_ended_at: None, \
                cancelled_at: None \
            }, \
            queue_position: Some(10), \
            result_metadata: Some(ResultMetaData { \
                    column_names: [], \
                    column_types: None, \
                    row_count: None, \
                    result_set_bytes: 0, \
                    total_result_set_bytes: None, \
                    total_row_count: 0, \
                    datapoint_count: 0, \
                    pending_time_millis: None, \
                    execution_time_millis: 0 \
            }\
         ) }",
    );
    assert_eq!(
        format!(
            "{:?}",
            GetResultResponse {
                execution_id: execution_id.to_string(),
                query_id,
                is_execution_finished: None,
                state: ExecutionStatus::Complete,
                times: ExecutionTimes {
                    submitted_at: epoch(),
                    expires_at: Default::default(),
                    execution_started_at: Default::default(),
                    execution_ended_at: Default::default(),
                    cancelled_at: Default::default(),
                },
                result: ExecutionResult::<u8> {
                    rows: vec![],
                    metadata: ResultMetaData {
                        column_names: vec![],
                        column_types: None,
                        row_count: None,
                        result_set_bytes: 0,
                        total_result_set_bytes: None,
                        total_row_count: 0,
                        datapoint_count: 0,
                        pending_time_millis: None,
                        execution_time_millis: 0,
                    }
                },
            }
        ),
        "GetResultResponse { \
            execution_id: \"jerb ID\", \
            query_id: 71, \
            is_execution_finished: None, \
            state: Complete, \
            times: ExecutionTimes { \
                submitted_at: 1970-01-01T00:00:00Z, \
                expires_at: None, \
                execution_started_at: None, \
                execution_ended_at: None, \
                cancelled_at: None \
            }, \
            result: ExecutionResult { \
                rows: [], \
                metadata: ResultMetaData { \
                    column_names: [], \
                    column_types: None, \
                    row_count: None, \
                    result_set_bytes: 0, \
                    total_result_set_bytes: None, \
                    total_row_count: 0, \
                    datapoint_count: 0, \
                    pending_time_millis: None, \
                    execution_time_millis: 0 \
                } \
            } \
        }",
    );
}

#[test]
fn status_rejects_everything_but_the_five_tokens() {
    for rejected in [
        "",
        "query_state_completed",
        "Query_State_Completed",
        "QUERY_STATE_COMPLETE",
        "QUERY_STATE_COMPLETED ",
        " QUERY_STATE_PENDING",
        "COMPLETED",
        "QUERY_STATE_",
        "QUERY_STATE_EXPIRED",
    ] {
        assert_eq!(
            ExecutionStatus::from_str(rejected),
            Err(format!("Parse Error {rejected}"))
        );
    }
}

#[test]
fn status_parses_through_the_trait() {
    assert_eq!(
        "QUERY_STATE_FAILED".parse::<ExecutionStatus>(),
        Ok(ExecutionStatus::Failed)
    );
    assert_eq!(
        "failed".parse::<ExecutionStatus>(),
        Err("Parse Error failed".to_string())
    );
}

#[test]
fn terminal_table_is_exhaustive() {
    let table = [
        (ExecutionStatus::Complete, true),
        (ExecutionStatus::Cancelled, true),
        (ExecutionStatus::Failed, true),
        (ExecutionStatus::Pending, false),
        (ExecutionStatus::Executing, false),
    ];
    for (status, terminal) in table {
        assert_eq!(status.is_terminal(), terminal);
    }
}

fn metadata(columns: Vec<String>) -> ResultMetaData {
    ResultMetaData {
        column_names: columns,
        column_types: None,
        row_count: Some(2),
        result_set_bytes: 64,
        total_result_set_bytes: Some(64),
        total_row_count: 2,
        datapoint_count: 4,
        pending_time_millis: Some(12),
        execution_time_millis: 340,
    }
}

fn results<T>(rows: Vec<T>) -> GetResultResponse<T> {
    GetResultResponse {
        execution_id: "01GEHEC1W8P1V5ENF66R2WY54V".to_string(),
        query_id: 971694,
        is_execution_finished: Some(true),
        state: ExecutionStatus::Complete,
        times: ExecutionTimes {
            submitted_at: epoch(),
            expires_at: None,
            execution_started_at: Some(epoch()),
            execution_ended_at: Some(epoch()),
            cancelled_at: None,
        },
        result: ExecutionResult {
            rows,
            metadata: metadata(vec!["symbol".to_string(), "max_price".to_string()]),
        },
    }
}

#[test]
fn get_rows_hands_out_the_rows_unchanged() {
    let rows = vec![
        ("ETH".to_string(), 4_878.26_f64),
        ("BTC".to_string(), 68_789.63_f64),
    ];
    assert_eq!(results(rows.clone()).get_rows(), rows);

    let numbers: Vec<u8> = vec![3, 1, 2, 1];
    assert_eq!(results(numbers.clone()).get_rows(), numbers);
}

#[test]
fn get_rows_of_an_empty_result() {
    assert_eq!(results::<String>(vec![]).get_rows(), Vec::<String>::new());
    assert_eq!(
        results::<(u32, bool)>(vec![]).get_rows(),
        Vec::<(u32, bool)>::new()
    );
}
