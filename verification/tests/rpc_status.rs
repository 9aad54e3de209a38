use leto::rpc_status::{rpc_status_for, ERROR, OK, X_RPC_STATUS};
use leto::{error, failure, success, ApiResponse, NoData};

#[test]
fn the_two_outcomes_are_distinct() {
    assert_eq!(X_RPC_STATUS, "x-rpc-status");
    assert_eq!(OK, "ok");
    assert_eq!(ERROR, "error");
    assert_ne!(OK, ERROR);
}

#[test]
fn the_envelope_reports_its_outcome_from_the_errors_field() {
    assert_eq!(success(1_i32).rpc_status(), OK);
    assert_eq!(
        failure::<NoData, ()>(vec![error("boom").into_error_message()]).rpc_status(),
        ERROR
    );
}

#[test]
fn a_null_data_success_is_still_ok() {
    let response: ApiResponse<i32> = ApiResponse { data: None, meta: None, errors: vec![] };
    assert_eq!(response.rpc_status(), OK);
}

#[test]
fn a_converted_api_error_reports_error() {
    let response: ApiResponse = error("boom").with_message("bad".to_string()).into_api_response();
    assert_eq!(response.rpc_status(), ERROR);
}

#[test]
fn test_rpc_status_header_an_error_response_is_marked_error() {
    let response: ApiResponse = error("boom").into_api_response();
    assert_eq!(response.rpc_status(), ERROR);
}

#[test]
fn test_rpc_status_header_a_success_response_is_marked_ok() {
    assert_eq!(success(1_i32).rpc_status(), OK);
}

#[test]
fn test_rpc_status_header_a_failure_envelope_on_a_200_is_still_marked_error() {
    let response = failure::<NoData, ()>(vec![error("boom").into_error_message()]);
    // A plain envelope answers on the default status line, 200.
    assert_eq!(error("boom").response_status(), 200);
    assert_eq!(response.rpc_status(), ERROR);
}

#[test]
fn test_rpc_status_header_the_header_is_independent_of_the_status_line() {
    let err = error("not_found").with_status(404);
    assert_eq!(err.response_status(), 404);
    let response: ApiResponse = err.into_api_response();
    assert_eq!(response.rpc_status(), ERROR);
}

#[test]
fn the_outcome_follows_the_error_count() {
    assert_eq!(rpc_status_for(0), OK);
    assert_eq!(rpc_status_for(1), ERROR);
    assert_eq!(rpc_status_for(7), ERROR);
}

#[test]
fn data_and_errors_never_go_out_together() {
    let ok = success(3_u8).shape();
    assert!(ok.data && !ok.errors && !ok.meta);
    let failed = failure::<u8, u8>(vec![error("boom").into_error_message()]).with_meta(1).shape();
    assert!(!failed.data && failed.errors && failed.meta);
    let both = ApiResponse {
        data: Some(1_u8),
        meta: None::<()>,
        errors: vec![error("boom").into_error_message()],
    };
    assert!(!both.shape().data && both.shape().errors);
}
