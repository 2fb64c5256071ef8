use txnpool::errors::QueryOp;
use txnpool::rows::decode_rows;
use txnpool::rows::fetch_all_result;
use txnpool::rows::fetch_one_result;
use txnpool::rows::first_row;

#[test]
fn zero_rows_is_no_result_not_an_error() {
    let rows: Vec<i64> = Vec::new();
    assert_eq!(first_row(rows), None);
}

#[test]
fn one_row_is_returned_decoded() {
    assert_eq!(first_row(vec![9i64]), Some(9));
}

#[test]
fn first_row_of_many_is_returned() {
    assert_eq!(first_row(vec![5i64, 6, 7]), Some(5));
}

#[test]
fn all_rows_decode_in_result_order() {
    let raw: Vec<Result<i64, String>> = vec![Ok(1), Ok(1), Ok(3)];
    let rows = decode_rows(raw).unwrap();
    assert_eq!(rows.len(), 3);
    assert_eq!(rows, vec![1, 1, 3]);
}

#[test]
fn no_rows_decode_to_an_empty_result() {
    let raw: Vec<Result<i64, String>> = Vec::new();
    assert_eq!(decode_rows(raw), Ok(Vec::new()));
}

#[test]
fn first_decode_failure_is_positioned() {
    let raw: Vec<Result<i64, String>> = vec![Ok(1), Err("bad column".to_string()), Err("later".to_string())];
    assert_eq!(decode_rows(raw), Err((1, "bad column".to_string())));
}

#[test]
fn fetched_row_passes_through() {
    let r = fetch_one_result::<i64, String>(Ok(Some(8)));
    assert_eq!(r.unwrap(), Some(8));
    let none = fetch_one_result::<i64, String>(Ok(None));
    assert_eq!(none.unwrap(), None);
}

#[test]
fn fetch_one_failure_is_tagged() {
    let r = fetch_one_result::<i64, String>(Err("connection reset".to_string()));
    let q = r.unwrap_err();
    assert_eq!(q.op, QueryOp::FetchOptionalRow);
    assert_eq!(q.cause, "connection reset");
    assert_eq!(q.op.message(), "Failed to fetch optional row");
}

#[test]
fn fetched_rows_pass_through_in_order() {
    let r = fetch_all_result::<i64, String>(Ok(vec![1, 2, 3]));
    assert_eq!(r.unwrap(), vec![1, 2, 3]);
}

#[test]
fn fetch_all_failure_is_tagged() {
    let r = fetch_all_result::<i64, String>(Err("timed out".to_string()));
    let q = r.unwrap_err();
    assert_eq!(q.op, QueryOp::FetchAllRows);
    assert_eq!(q.cause, "timed out");
    assert_eq!(q.op.message(), "Failed to fetch rows");
}
