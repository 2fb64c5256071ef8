//! Read helpers: shaping fetched rows. A query producing zero rows yields
//! an empty result, never an error; a query producing rows yields every
//! decoded row in the result's order, or the first decode failure. A
//! driver failure is wrapped with the operation it interrupted.
//!
//! The application performs the asynchronous fetch; these functions decide
//! what the fetched rows mean.

use vstd::prelude::*;
use crate::errors::QueryError;
use crate::errors::QueryOp;

verus! {

/// The at-most-one-row form: zero rows mean no result, and otherwise the
/// first row in the result's order is the result.
pub fn first_row<T>(rows: Vec<T>) -> (r: Option<T>)
    ensures
        rows@.len() == 0 ==> r is None,
        rows@.len() > 0 ==> r == Some(rows@[0]),
{
    let mut rows = rows;
    if rows.len() == 0 {
        None
    } else {
        Some(rows.remove(0))
    }
}

/// Unwraps per-row decode results in order: every row decoded gives every
/// value in the result's order; otherwise the first decode failure and its
/// zero-based position are reported.
pub fn decode_rows<T, E>(raw: Vec<Result<T, E>>) -> (r: Result<Vec<T>, (usize, E)>)
    ensures
        r matches Ok(v) ==> {
            &&& v@.len() == raw@.len()
            &&& forall|i: int| 0 <= i < raw@.len() ==> raw@[i] is Ok && v@[i] == raw@[i]->Ok_0
        },
        r matches Err(ke) ==> {
            &&& 0 <= ke.0 < raw@.len()
            &&& raw@[ke.0 as int] is Err
            &&& ke.1 == raw@[ke.0 as int]->Err_0
            &&& forall|j: int| 0 <= j < ke.0 ==> raw@[j] is Ok
        },
{
    let ghost orig = raw@;
    let mut rest = raw;
    let mut out: Vec<T> = Vec::new();
    while rest.len() > 0
        invariant
            orig == raw@,
            out@.len() + rest@.len() == orig.len(),
            rest@ =~= orig.subrange(out@.len() as int, orig.len() as int),
            forall|i: int| 0 <= i < out@.len() ==> #[trigger] orig[i] is Ok,
            forall|i: int| 0 <= i < out@.len() ==> #[trigger] out@[i] == orig[i]->Ok_0,
        decreases rest@.len(),
    {
        let ghost k = out@.len() as int;
        let item = rest.remove(0);
        proof {
            assert(orig[k] == item);
        }
        match item {
            Ok(v) => {
                out.push(v);
                proof {
                    assert(out@[k] == v);
                    assert(orig[k] is Ok && orig[k]->Ok_0 == v);
                }
            },
            Err(e) => {
                proof {
                    assert(orig[k] is Err && orig[k]->Err_0 == e);
                }
                return Err((out.len(), e));
            },
        }
    }
    Ok(out)
}

/// Wraps the driver's result of an at-most-one-row fetch: a fetched row
/// (or none) passes through; a driver failure is tagged as a failed
/// optional-row fetch.
pub fn fetch_one_result<T, E>(fetched: Result<Option<T>, E>) -> (r: Result<
    Option<T>,
    QueryError<E>,
>)
    ensures
        fetched matches Ok(row) ==> r matches Ok(out) && out == row,
        fetched matches Err(e) ==> r matches Err(q) && q.op == QueryOp::FetchOptionalRow
            && q.cause == e,
{
    match fetched {
        Ok(row) => Ok(row),
        Err(e) => Err(QueryError { op: QueryOp::FetchOptionalRow, cause: e }),
    }
}

/// Wraps the driver's result of a fetch of every row: the rows pass
/// through unchanged, in the result's order; a driver failure is tagged as
/// a failed fetch of all rows.
pub fn fetch_all_result<T, E>(fetched: Result<Vec<T>, E>) -> (r: Result<Vec<T>, QueryError<E>>)
    ensures
        fetched matches Ok(rows) ==> r matches Ok(out) && out@ == rows@,
        fetched matches Err(e) ==> r matches Err(q) && q.op == QueryOp::FetchAllRows && q.cause
            == e,
{
    match fetched {
        Ok(rows) => Ok(rows),
        Err(e) => Err(QueryError { op: QueryOp::FetchAllRows, cause: e }),
    }
}

} // verus!
