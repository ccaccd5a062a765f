//! The interface `IDOTA2Match_570` of the Web API: matches of Dota 2.

use vstd::prelude::*;
use vstd::string::*;
use crate::error::{result_view, ApiError};
use crate::idota2match_570::get_match_history::ResponseMatchHistory;

pub mod get_match_details;
pub mod get_match_history;

verus! {

/// The name of the interface.
pub open spec fn interface() -> Seq<char> {
    "IDOTA2Match_570"@
}

/// The name of the interface.
pub fn get_interface() -> (name: String)
    ensures
        name@ == interface(),
{
    String::from_str("IDOTA2Match_570")
}

/// Takes what the transport handed back for a request of
/// `get_match_history::get_api_url` and gives the matches that it lists.
pub fn get_dota2_match_history(response: Result<String, ApiError>) -> (result: Result<
    ResponseMatchHistory,
    ApiError,
>)
    ensures
        result_view(result) == get_match_history::fetched_result(
            get_match_history::response_view(response),
        ),
{
    get_match_history::get(response)
}

} // verus!
