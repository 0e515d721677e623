use sql_scaler::protocol::query_of;
use sql_scaler::protocol::GetMetricsRequest;
use sql_scaler::protocol::RpcStatus;
use sql_scaler::protocol::ScaledObjectRef;
use sql_scaler::protocol::ScalerService;
use sql_scaler::reducer::QueryOutcome;
use sql_scaler::resilience::FatalError;

fn target(name: &str, metadata: Vec<(&str, &str)>) -> ScaledObjectRef {
    ScaledObjectRef {
        name: name.to_owned(),
        namespace: "default".to_owned(),
        scaler_metadata: metadata
            .into_iter()
            .map(|(k, v)| (k.to_owned(), v.to_owned()))
            .collect(),
    }
}

fn string_rows(rows: Vec<Vec<&str>>) -> QueryOutcome {
    QueryOutcome::Rows(
        rows.into_iter()
            .map(|row| row.into_iter().map(|col| col.to_owned()).collect())
            .collect(),
    )
}

#[test]
fn query_of_finds_the_query() {
    let t = target(
        "orders",
        vec![("query", "SELECT COUNT(*) FROM orders WHERE status='pending'")],
    );
    assert_eq!(
        query_of(&t).map(String::as_str),
        Some("SELECT COUNT(*) FROM orders WHERE status='pending'")
    );
}

#[test]
fn query_of_misses_other_keys() {
    let t = target("orders", vec![("table", "orders"), ("threshold", "5")]);
    assert_eq!(query_of(&t), None);
}

#[test]
fn query_of_takes_the_first_match() {
    let t = target("orders", vec![("query", "SELECT 1"), ("query", "SELECT 2")]);
    assert_eq!(query_of(&t).map(String::as_str), Some("SELECT 1"));
}

#[test]
fn metric_spec_is_always_one_entry_with_target_one() {
    let service = ScalerService {};
    let resp = service.get_metric_spec(&target("orders", vec![]));
    assert_eq!(resp.metric_specs.len(), 1);
    assert_eq!(resp.metric_specs[0].metric_name, "orders");
    assert_eq!(resp.metric_specs[0].target_size, 1);

    let other = service.get_metric_spec(&target(
        "queue-depth",
        vec![("query", "SELECT 1"), ("unrelated", "x")],
    ));
    assert_eq!(other.metric_specs.len(), 1);
    assert_eq!(other.metric_specs[0].metric_name, "queue-depth");
    assert_eq!(other.metric_specs[0].target_size, 1);
}

#[test]
fn get_metrics_single_numeric_row_reports_its_value() {
    let service = ScalerService {};
    let t = target(
        "orders",
        vec![("query", "SELECT COUNT(*) FROM orders WHERE status='pending'")],
    );
    let request = GetMetricsRequest {
        scaled_object_ref: Some(t),
        metric_name: "pending-orders".to_owned(),
    };
    let outcome = string_rows(vec![vec!["7"]]);
    let resp = service.get_metrics(&request, Some(&outcome)).unwrap();
    assert_eq!(resp.metric_values.len(), 1);
    assert_eq!(resp.metric_values[0].metric_name, "pending-orders");
    assert_eq!(resp.metric_values[0].metric_value, 7);
}

#[test]
fn get_metrics_single_non_numeric_row_reports_one() {
    let service = ScalerService {};
    let request = GetMetricsRequest {
        scaled_object_ref: Some(target("orders", vec![("query", "SELECT name FROM t")])),
        metric_name: "m".to_owned(),
    };
    let outcome = string_rows(vec![vec!["abc"]]);
    let resp = service.get_metrics(&request, Some(&outcome)).unwrap();
    assert_eq!(resp.metric_values[0].metric_value, 1);
}

#[test]
fn get_metrics_three_rows_reports_three() {
    let service = ScalerService {};
    let request = GetMetricsRequest {
        scaled_object_ref: Some(target("orders", vec![("query", "SELECT * FROM t")])),
        metric_name: "m".to_owned(),
    };
    let outcome = string_rows(vec![vec!["x"], vec!["y", "z"], vec![]]);
    let resp = service.get_metrics(&request, Some(&outcome)).unwrap();
    assert_eq!(resp.metric_values[0].metric_value, 3);
}

#[test]
fn get_metrics_empty_result_reports_zero() {
    let service = ScalerService {};
    let request = GetMetricsRequest {
        scaled_object_ref: Some(target("orders", vec![("query", "SELECT * FROM t")])),
        metric_name: "m".to_owned(),
    };
    let outcome = string_rows(vec![]);
    let resp = service.get_metrics(&request, Some(&outcome)).unwrap();
    assert_eq!(resp.metric_values[0].metric_value, 0);
}

#[test]
fn get_metrics_without_query_reports_zero() {
    let service = ScalerService {};
    let request = GetMetricsRequest {
        scaled_object_ref: Some(target("orders", vec![("threshold", "5")])),
        metric_name: "m".to_owned(),
    };
    let resp = service.get_metrics(&request, None).unwrap();
    assert_eq!(resp.metric_values.len(), 1);
    assert_eq!(resp.metric_values[0].metric_name, "m");
    assert_eq!(resp.metric_values[0].metric_value, 0);
}

#[test]
fn get_metrics_soft_failure_reports_zero() {
    let service = ScalerService {};
    let request = GetMetricsRequest {
        scaled_object_ref: Some(target("orders", vec![("query", "SELECT * FROM missing")])),
        metric_name: "m".to_owned(),
    };
    let outcome = QueryOutcome::QueryError("table or view does not exist".to_owned());
    let resp = service.get_metrics(&request, Some(&outcome)).unwrap();
    assert_eq!(resp.metric_values[0].metric_value, 0);
}

#[test]
fn get_metrics_connection_loss_is_fatal() {
    let service = ScalerService {};
    let request = GetMetricsRequest {
        scaled_object_ref: Some(target("orders", vec![("query", "SELECT 1")])),
        metric_name: "m".to_owned(),
    };
    let result = service.get_metrics(&request, Some(&QueryOutcome::ConnectionLost));
    assert_eq!(result, Err(FatalError::ConnectionLost));
}

#[test]
fn is_active_true_for_positive_metric() {
    let service = ScalerService {};
    let t = target("orders", vec![("query", "SELECT COUNT(*) FROM t")]);
    let single = string_rows(vec![vec!["7"]]);
    assert!(service.is_active(&t, Some(&single)).unwrap().result);
    let non_numeric = string_rows(vec![vec!["abc"]]);
    assert!(service.is_active(&t, Some(&non_numeric)).unwrap().result);
    let three = string_rows(vec![vec![], vec![], vec![]]);
    assert!(service.is_active(&t, Some(&three)).unwrap().result);
}

#[test]
fn is_active_false_for_empty_result() {
    let service = ScalerService {};
    let t = target("orders", vec![("query", "SELECT * FROM t")]);
    let outcome = string_rows(vec![]);
    assert!(!service.is_active(&t, Some(&outcome)).unwrap().result);
}

#[test]
fn is_active_false_for_non_positive_metric() {
    let service = ScalerService {};
    let t = target("orders", vec![("query", "SELECT -5 FROM dual")]);
    let negative = string_rows(vec![vec!["-5"]]);
    assert!(!service.is_active(&t, Some(&negative)).unwrap().result);
    let zero = string_rows(vec![vec!["0"]]);
    assert!(!service.is_active(&t, Some(&zero)).unwrap().result);
}

#[test]
fn is_active_false_without_query() {
    let service = ScalerService {};
    let t = target("orders", vec![]);
    assert!(!service.is_active(&t, None).unwrap().result);
}

#[test]
fn is_active_false_on_soft_failure() {
    let service = ScalerService {};
    let t = target("orders", vec![("query", "SELECT * FROM missing")]);
    let outcome = QueryOutcome::QueryError("bad statement".to_owned());
    assert!(!service.is_active(&t, Some(&outcome)).unwrap().result);
}

#[test]
fn is_active_connection_loss_is_fatal() {
    let service = ScalerService {};
    let t = target("orders", vec![("query", "SELECT 1")]);
    let result = service.is_active(&t, Some(&QueryOutcome::ConnectionLost));
    assert_eq!(result, Err(FatalError::ConnectionLost));
}

#[test]
fn get_metrics_carries_extreme_values_unchanged() {
    let service = ScalerService {};
    let request = GetMetricsRequest {
        scaled_object_ref: Some(target("orders", vec![("query", "SELECT v FROM t")])),
        metric_name: "m".to_owned(),
    };
    let most_negative = string_rows(vec![vec!["-9223372036854775808"]]);
    let resp = service.get_metrics(&request, Some(&most_negative)).unwrap();
    assert_eq!(resp.metric_values[0].metric_value, i64::MIN);
    let most_positive = string_rows(vec![vec!["9223372036854775807"]]);
    let resp = service.get_metrics(&request, Some(&most_positive)).unwrap();
    assert_eq!(resp.metric_values[0].metric_value, i64::MAX);
}

#[test]
fn stream_is_active_is_unimplemented() {
    let service = ScalerService {};
    let result = service.stream_is_active(&target("orders", vec![("query", "SELECT 1")]));
    assert_eq!(result, Err(RpcStatus::Unimplemented));
}
