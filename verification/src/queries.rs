//! The query kinds the client issues, with the payload each response carries
//! for the pipeline and the quota capability each kind implements.
//!
//! Building the query documents, sending them, and decoding the wire
//! responses into these payloads is owned by the caller; the library sees
//! each response only through these plain-value models.

use vstd::prelude::*;

use crate::client::{RateLimitInfo, RateLimitableQuery};
use crate::fetch::PageResult;
use crate::report::ActorInfo;

verus! {

/// A fight of a report: its id and its time window, in milliseconds relative
/// to the report's start.
#[derive(Clone, Copy, PartialEq, Eq, Structural, Debug)]
pub struct FightSummary {
    pub id: i64,
    pub start_time: i64,
    pub end_time: i64,
}

/// Response payload of [`IndividualCharacter`]: the quota snapshot and the
/// character's encounter rankings, carried through as raw text for the
/// caller's report listing.
#[derive(Clone, PartialEq, Eq, Debug)]
pub struct IndividualCharacterResponse {
    pub rate_limit_data: Option<RateLimitInfo>,
    pub encounter_rankings_json: Option<String>,
}

/// Response payload of [`ReportFights`]: the quota snapshot, the report's
/// actor master data, and its fights.
#[derive(Clone, PartialEq, Eq, Debug)]
pub struct ReportFightsResponse {
    pub rate_limit_data: Option<RateLimitInfo>,
    pub actors: Vec<(i64, ActorInfo)>,
    pub fights: Vec<FightSummary>,
}

/// Response payload of [`ReportEvents`]: the quota snapshot and one page of
/// the event stream, if the report was found.
#[derive(Clone, PartialEq, Eq, Debug)]
pub struct ReportEventsResponse {
    pub rate_limit_data: Option<RateLimitInfo>,
    pub page: Option<PageResult>,
}

/// Query kind: the ranked reports of one character for one encounter.
pub struct IndividualCharacter;

impl RateLimitableQuery for IndividualCharacter {
    type ResponseData = IndividualCharacterResponse;

    open spec fn spec_rate_limit_data(response: &IndividualCharacterResponse) -> Option<
        RateLimitInfo,
    > {
        response.rate_limit_data
    }

    fn get_rate_limit_data(response: &IndividualCharacterResponse) -> (r: Option<RateLimitInfo>) {
        response.rate_limit_data
    }
}

/// Query kind: the fights and actor master data of one report.
pub struct ReportFights;

impl RateLimitableQuery for ReportFights {
    type ResponseData = ReportFightsResponse;

    open spec fn spec_rate_limit_data(response: &ReportFightsResponse) -> Option<RateLimitInfo> {
        response.rate_limit_data
    }

    fn get_rate_limit_data(response: &ReportFightsResponse) -> (r: Option<RateLimitInfo>) {
        response.rate_limit_data
    }
}

/// Query kind: one page of one report's event stream.
pub struct ReportEvents;

impl RateLimitableQuery for ReportEvents {
    type ResponseData = ReportEventsResponse;

    open spec fn spec_rate_limit_data(response: &ReportEventsResponse) -> Option<RateLimitInfo> {
        response.rate_limit_data
    }

    fn get_rate_limit_data(response: &ReportEventsResponse) -> (r: Option<RateLimitInfo>) {
        response.rate_limit_data
    }
}

} // verus!
