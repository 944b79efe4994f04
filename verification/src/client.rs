//! The rate-governed query client's decision logic.
//!
//! The transport itself (HTTP, GraphQL encoding, the actual suspension) lives
//! outside the library; this module classifies a decoded response into a
//! payload or an error, extracts the quota snapshot through the query kind's
//! capability, and decides whether the caller must wait before issuing its
//! next query.

use vstd::prelude::*;
use vstd::string::StringExecFns;

verus! {

/// Quota snapshot reported by the remote service: the hourly allowance, the
/// points already spent this hour (in whole points), and the seconds until
/// the budget resets.
#[derive(Clone, Copy, PartialEq, Eq, Structural, Debug)]
pub struct RateLimitInfo {
    pub limit_per_hour: i64,
    pub points_spent_this_hour: i64,
    pub points_reset_in: i64,
}

/// Below this many remaining points the client waits out the reset interval
/// before returning.
pub const RATE_LIMIT_POINT_THRESHOLD: i64 = 100;

/// What the client must do before handing a successful response back to the
/// caller.
#[derive(Clone, Copy, PartialEq, Eq, Structural, Debug)]
pub enum QuotaDecision {
    /// Enough budget remains; return immediately.
    Proceed,
    /// The budget is nearly exhausted; suspend for this many seconds before
    /// returning, so the next query never issues against a spent budget.
    Wait { seconds: i64 },
}

/// A query kind that may expose a quota snapshot in its response.
pub trait RateLimitableQuery {
    /// The decoded response payload of this query kind.
    type ResponseData;

    /// The quota snapshot embedded in a response, if this query kind reports
    /// one.
    spec fn spec_rate_limit_data(response: &Self::ResponseData) -> Option<RateLimitInfo>;

    /// Extracts the quota snapshot from a response.
    fn get_rate_limit_data(response: &Self::ResponseData) -> (r: Option<RateLimitInfo>)
        ensures
            r == Self::spec_rate_limit_data(response),
    ;
}

/// How a single query fails. All failures abort the enclosing operation;
/// none is retried by the client.
#[derive(Debug, Clone, PartialEq, Eq)]
pub enum ClientError {
    /// The request never produced a decodable response.
    Transport { message: String },
    /// The remote reported one or more application-level errors; `message`
    /// concatenates them, one per line.
    Api { message: String },
    /// The remote claimed success but omitted the payload: a contract
    /// violation, not a recoverable condition.
    ProtocolViolation,
}

/// Whether a response carries a non-empty list of server-reported errors.
pub open spec fn has_api_errors(errors: Option<Vec<String>>) -> bool {
    &&& errors is Some
    &&& errors->0@.len() > 0
}

/// The server-reported error messages joined with a newline after each.
pub open spec fn concat_messages(msgs: Seq<String>) -> Seq<char>
    decreases msgs.len(),
{
    if msgs.len() == 0 {
        Seq::empty()
    } else {
        concat_messages(msgs.drop_last()) + msgs.last()@ + "\n"@
    }
}

fn concat_error_messages(msgs: &Vec<String>) -> (r: String)
    ensures
        r@ == concat_messages(msgs@),
{
    let mut text = String::new();
    let mut i: usize = 0;
    while i < msgs.len()
        invariant
            i <= msgs.len(),
            text@ == concat_messages(msgs@.take(i as int)),
        decreases msgs.len() - i,
    {
        text.append(msgs[i].as_str());
        text.append("\n");
        proof {
            assert(msgs@.take(i as int + 1).drop_last() =~= msgs@.take(i as int));
            assert(msgs@.take(i as int + 1).last() == msgs@[i as int]);
        }
        i = i + 1;
    }
    proof {
        assert(msgs@.take(msgs@.len() as int) =~= msgs@);
    }
    text
}

/// The decision the quota snapshot dictates: wait for the reset interval
/// whenever fewer than [`RATE_LIMIT_POINT_THRESHOLD`] points remain.
pub open spec fn spec_quota_decision(info: RateLimitInfo) -> QuotaDecision {
    if info.limit_per_hour - info.points_spent_this_hour < RATE_LIMIT_POINT_THRESHOLD {
        QuotaDecision::Wait { seconds: info.points_reset_in }
    } else {
        QuotaDecision::Proceed
    }
}

/// Decides, from a quota snapshot, whether the client may return control
/// immediately or must first wait out the reset interval.
pub fn quota_decision(info: &RateLimitInfo) -> (d: QuotaDecision)
    ensures
        d == spec_quota_decision(*info),
{
    let remaining = (info.limit_per_hour as i128) - (info.points_spent_this_hour as i128);
    if remaining < RATE_LIMIT_POINT_THRESHOLD as i128 {
        QuotaDecision::Wait { seconds: info.points_reset_in }
    } else {
        QuotaDecision::Proceed
    }
}

/// The decision a successful response of query kind `Q` dictates: the quota
/// snapshot's decision if the kind reports one, otherwise proceed.
pub open spec fn spec_response_decision<Q: RateLimitableQuery>(data: Q::ResponseData) -> QuotaDecision {
    match Q::spec_rate_limit_data(&data) {
        Some(info) => spec_quota_decision(info),
        None => QuotaDecision::Proceed,
    }
}

/// Classifies one decoded response: a non-empty server error list fails with
/// the concatenated messages; a missing payload despite no errors is a
/// protocol violation; otherwise the payload is returned together with the
/// quota decision the caller must enact before continuing.
pub fn process_response<Q: RateLimitableQuery>(
    data: Option<Q::ResponseData>,
    errors: Option<Vec<String>>,
) -> (r: Result<(Q::ResponseData, QuotaDecision), ClientError>)
    ensures
        has_api_errors(errors) ==> (r matches Err(ClientError::Api { message })
            && message@ == concat_messages(errors->0@)),
        !has_api_errors(errors) && data is None ==> r == Err::<
            (Q::ResponseData, QuotaDecision),
            ClientError,
        >(ClientError::ProtocolViolation),
        !has_api_errors(errors) && data is Some ==> (r matches Ok((d, dec)) && d == data->0
            && dec == spec_response_decision::<Q>(data->0)),
{
    if let Some(errs) = &errors {
        if errs.len() > 0 {
            return Err(ClientError::Api { message: concat_error_messages(errs) });
        }
    }
    match data {
        None => Err(ClientError::ProtocolViolation),
        Some(d) => {
            let dec = match Q::get_rate_limit_data(&d) {
                Some(info) => quota_decision(&info),
                None => QuotaDecision::Proceed,
            };
            Ok((d, dec))
        }
    }
}

} // verus!
