//! The publisher's decisions: the write endpoint address and the outcome of
//! one HTTP response. Carrying the request itself is the binary's work.

use vstd::prelude::*;
use vstd::string::StringExecFns;
use crate::digits::{append_dec, dec_spec};
use crate::error::RunError;

verus! {

/// The write endpoint: `http://<host>:<port>/write?db=<database>`.
pub open spec fn url_spec(host: Seq<char>, port: nat, database: Seq<char>) -> Seq<char> {
    "http://"@ + host + ":"@ + dec_spec(port) + "/write?db="@ + database
}

/// Builds the write endpoint address for the sink.
pub fn write_url(host: &str, port: u16, database: &str) -> (r: String)
    ensures
        r@ == url_spec(host@, port as nat, database@),
{
    let mut url = String::from_str("http://");
    url.append(host);
    url.append(":");
    append_dec(&mut url, port as u64);
    url.append("/write?db=");
    url.append(database);
    proof {
        assert(url@ =~= url_spec(host@, port as nat, database@));
    }
    url
}

/// An HTTP status in the success range.
pub open spec fn success_status(status: u16) -> bool {
    200 <= status < 300
}

/// The message reported for a failed write when the sink sent no body.
pub open spec fn no_detail_msg() -> Seq<char> {
    "Server did not return error"@
}

/// Judges one response from the sink. A status in the success range is
/// accepted; any other status fails the run with the response body as the
/// message, or a fixed placeholder when no body came.
pub fn response_outcome(status: u16, body: Option<String>) -> (r: Result<(), RunError>)
    ensures
        r is Ok <==> success_status(status),
        r matches Err(e) ==> e matches RunError::PublishHttp(m) && m@ == (match body {
            Some(b) => b@,
            None => no_detail_msg(),
        }),
{
    if 200 <= status && status < 300 {
        Ok(())
    } else {
        match body {
            Some(b) => Err(RunError::PublishHttp(b)),
            None => Err(RunError::PublishHttp(String::from_str("Server did not return error"))),
        }
    }
}

} // verus!
