//! Construction of the parameterized selection statement and its ordered
//! bind parameters from the run's filter values.

use vstd::prelude::*;
use vstd::string::StringExecFns;
use crate::date::{parse_date, parsed_seconds, valid_date_str};
use crate::digits::{append_dec_signed, dec_signed_spec};
use crate::error::RunError;

verus! {

/// The filter values of one run: the required identifiers matched by exact
/// equality, and the optional date bounds, still in their textual form.
pub struct QueryFilter {
    pub device_id: String,
    pub user_id: String,
    pub start_time: Option<String>,
    pub end_time: Option<String>,
}

/// A prepared selection: the statement text and the bind parameters in the
/// order their placeholders appear.
#[derive(Debug)]
pub struct Query {
    pub statement: String,
    pub params: Vec<String>,
}

/// The statement text for a given combination of bounds: the fixed base
/// predicate, then the strictly-greater start bound, then the strictly-less
/// end bound.
pub open spec fn statement_spec(has_start: bool, has_end: bool) -> Seq<char> {
    "SELECT TIMESTAMP, RAW_INTENSITY, STEPS, HEART_RATE FROM PEBBLE_HEALTH_ACTIVITY_SAMPLE WHERE DEVICE_ID = (?) AND USER_ID = (?)"@
        + (if has_start {
        " AND TIMESTAMP > (?)"@
    } else {
        Seq::<char>::empty()
    }) + (if has_end {
        " AND TIMESTAMP < (?)"@
    } else {
        Seq::<char>::empty()
    })
}

/// The start bound is present but not a valid date.
pub open spec fn start_invalid(f: QueryFilter) -> bool {
    f.start_time matches Some(s) && !valid_date_str(s@)
}

/// The end bound is present but not a valid date.
pub open spec fn end_invalid(f: QueryFilter) -> bool {
    f.end_time matches Some(s) && !valid_date_str(s@)
}

/// Builds the selection for `filter`. Succeeds exactly when every date bound
/// given is a valid `YYYY-MM-DD` date; the bind parameters are then, in
/// order, the device identifier, the user identifier, and the epoch-second
/// form of each bound present. A malformed bound is rejected before any
/// query runs, the start bound being checked first.
pub fn build_query(filter: QueryFilter) -> (r: Result<Query, RunError>)
    ensures
        r is Ok <==> !start_invalid(filter) && !end_invalid(filter),
        r matches Ok(q) ==> {
            let hs = filter.start_time is Some;
            let he = filter.end_time is Some;
            &&& q.statement@ == statement_spec(hs, he)
            &&& q.params@.len() == 2 + (if hs {
                1int
            } else {
                0int
            }) + (if he {
                1int
            } else {
                0int
            })
            &&& q.params@[0]@ == filter.device_id@
            &&& q.params@[1]@ == filter.user_id@
            &&& (filter.start_time matches Some(s) ==> q.params@[2]@ == dec_signed_spec(
                parsed_seconds(s@),
            ))
            &&& (filter.end_time matches Some(s) ==> q.params@[q.params@.len() - 1]@
                == dec_signed_spec(parsed_seconds(s@)))
        },
        r matches Err(e) ==> e matches RunError::Config(m) && m@ == (if start_invalid(filter) {
            "Start time is invalid, format must be %Y-%m-%d (padded with zeros)"@
        } else {
            "End time is invalid, format must be %Y-%m-%d (padded with zeros)"@
        }),
{
    let QueryFilter { device_id, user_id, start_time, end_time } = filter;
    let mut params: Vec<String> = Vec::new();
    params.push(device_id);
    params.push(user_id);
    let mut statement = String::from_str(
        "SELECT TIMESTAMP, RAW_INTENSITY, STEPS, HEART_RATE FROM PEBBLE_HEALTH_ACTIVITY_SAMPLE WHERE DEVICE_ID = (?) AND USER_ID = (?)",
    );
    if let Some(st) = &start_time {
        match parse_date(st.as_str()) {
            Some(t) => {
                statement.append(" AND TIMESTAMP > (?)");
                let mut p = String::new();
                append_dec_signed(&mut p, t);
                proof {
                    assert(p@ =~= dec_signed_spec(t as int));
                }
                params.push(p);
            },
            None => {
                return Err(
                    RunError::Config(
                        String::from_str(
                            "Start time is invalid, format must be %Y-%m-%d (padded with zeros)",
                        ),
                    ),
                );
            },
        }
    }
    if let Some(et) = &end_time {
        match parse_date(et.as_str()) {
            Some(t) => {
                statement.append(" AND TIMESTAMP < (?)");
                let mut p = String::new();
                append_dec_signed(&mut p, t);
                proof {
                    assert(p@ =~= dec_signed_spec(t as int));
                }
                params.push(p);
            },
            None => {
                return Err(
                    RunError::Config(
                        String::from_str(
                            "End time is invalid, format must be %Y-%m-%d (padded with zeros)",
                        ),
                    ),
                );
            },
        }
    }
    proof {
        assert(statement@ =~= statement_spec(start_time is Some, end_time is Some));
    }
    Ok(Query { statement, params })
}

} // verus!
