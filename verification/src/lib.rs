//! Client-side logic for the Steam Web API: the locations of its methods, the
//! projection of its loosely typed JSON responses into fully populated
//! records, the layout of a bucketed cache on disk, and the decisions of a
//! bulk harvest that can be interrupted and taken up again.
//!
//! The library performs no I/O. Its caller sends the requests and reads and
//! writes the files; what to request, what a response says, what to store and
//! what to do next is decided here, and every such decision carries a contract
//! that is proved.
//!
//! - [`store_steampowered_com::appdetails`]: the details of one app.
//! - [`isteam_apps::get_app_list`]: the catalog of all apps.
//! - [`idota2match_570`]: matches of Dota 2.
//! - [`harvest`]: the ledger and the steps of the bulk harvest.
//! - [`cache`]: what the cache-aside protocol hands to the caller.
//! - [`json`], [`text`], [`url`], [`util`], [`error`]: what the others build on.

use vstd::prelude::*;
use vstd::string::*;
use vstd::utf8::{decode_utf8, valid_utf8};
use crate::cache::{write_view, Cached, Fetched};
use crate::error::{result_view, ApiError, ApiErrorView};
use crate::idota2match_570::get_match_history::ResponseMatchHistory;
use crate::isteam_apps::get_app_list::SteamApp;
use crate::store_steampowered_com::appdetails::SteamAppDetails;

pub mod cache;
pub mod error;
pub mod harvest;
pub mod idota2match_570;
pub mod isteam_apps;
pub mod json;
pub mod store_steampowered_com;
pub mod text;
pub mod url;
pub mod util;

verus! {

/// The fixed offset between the 32 bit and the 64 bit form of an account id.
pub const ACCOUNT_ID_OFFSET: i64 = 76561197960265728;

/// The 64 bit form of an account id that is given in its 32 bit form.
pub open spec fn account_id_64bit(account_id_32bit: int) -> int {
    account_id_32bit + ACCOUNT_ID_OFFSET
}

/// The 32 bit form of an account id that is given in its 64 bit form.
pub open spec fn account_id_32bit(account_id_64bit: int) -> int {
    account_id_64bit - ACCOUNT_ID_OFFSET
}

/// The two conversions undo each other.
pub proof fn lemma_account_id_round_trip(account_id: int)
    ensures
        account_id_32bit(account_id_64bit(account_id)) == account_id,
        account_id_64bit(account_id_32bit(account_id)) == account_id,
{
}

/// Every 32 bit id has a 64 bit form that fits, and is got back from it.
pub proof fn lemma_32bit_ids_convert(account_id: i64)
    requires
        0 <= account_id <= u32::MAX,
    ensures
        i64::MIN <= account_id_64bit(account_id as int) <= i64::MAX,
        account_id_32bit(account_id_64bit(account_id as int)) == account_id,
{
}

/// Converts a 32 bit Steam account id to its 64 bit form.
pub fn convert_32bit_account_id_to_64bit(account_id_32bit: i64) -> (converted: i64)
    requires
        account_id_64bit(account_id_32bit as int) <= i64::MAX,
    ensures
        converted == account_id_64bit(account_id_32bit as int),
{
    account_id_32bit + ACCOUNT_ID_OFFSET
}

/// Converts a 64 bit Steam account id to its 32 bit form.
pub fn convert_64bit_account_id_to_32bit(account_id_64bit: i64) -> (converted: i64)
    requires
        account_id_32bit(account_id_64bit as int) >= i64::MIN,
    ensures
        converted == account_id_32bit(account_id_64bit as int),
{
    account_id_64bit - ACCOUNT_ID_OFFSET
}

/// The scheme of every location of the Web API.
pub open spec fn scheme() -> Seq<char> {
    "https"@
}

/// The host of the Web API.
pub open spec fn host() -> Seq<char> {
    "api.steampowered.com"@
}

/// The scheme of every location of the Web API.
pub fn get_scheme() -> (name: String)
    ensures
        name@ == scheme(),
{
    String::from_str("https")
}

/// The host of the Web API.
pub fn get_host() -> (name: String)
    ensures
        name@ == host(),
{
    String::from_str("api.steampowered.com")
}

/// The response that the transport handed back, as text: a timeout if it
/// handed nothing back, an encoding failure if the bytes are no UTF-8, and
/// else the text that the bytes encode.
pub open spec fn received_text(received: Option<Seq<u8>>) -> Result<Seq<char>, ApiErrorView> {
    match received {
        None => Err(ApiErrorView::TransportTimeout),
        Some(bytes) => if valid_utf8(bytes) {
            Ok(decode_utf8(bytes))
        } else {
            Err(ApiErrorView::InvalidEncoding)
        },
    }
}

/// Decodes bytes with `String::from_utf8`, which gives the text that the bytes
/// encode if they are valid UTF-8 and fails otherwise.
#[verifier::external_body]
fn text_of_bytes(bytes: Vec<u8>) -> (text: Option<String>)
    ensures
        match text {
            Some(decoded) => valid_utf8(bytes@) && decoded@ == decode_utf8(bytes@),
            None => !valid_utf8(bytes@),
        },
{
    String::from_utf8(bytes).ok()
}

/// Takes what the transport handed back for a request, the bytes of the
/// response or nothing, and gives the response as text.
pub fn make_api_call(received: Option<Vec<u8>>) -> (response: Result<String, ApiError>)
    ensures
        match response {
            Ok(body) => received_text(bytes_view(received)) == Ok::<Seq<char>, ApiErrorView>(body@),
            Err(error) => received_text(bytes_view(received)) == Err::<Seq<char>, ApiErrorView>(
                error@,
            ),
        },
{
    match received {
        None => Err(ApiError::TransportTimeout),
        Some(bytes) => match text_of_bytes(bytes) {
            Some(body) => Ok(body),
            None => Err(ApiError::InvalidEncoding),
        },
    }
}

/// The view of the bytes that the transport may have handed back.
pub open spec fn bytes_view(received: Option<Vec<u8>>) -> Option<Seq<u8>> {
    match received {
        Some(bytes) => Some(bytes@),
        None => None,
    }
}

/// Takes what the transport handed back for the details of an app and decides
/// what the fetch yields and what goes into the cache. See
/// `store_steampowered_com::appdetails::get`.
pub fn get_app_details(app_id: i64, response: Result<String, ApiError>) -> (fetched: Fetched<
    SteamAppDetails,
>)
    ensures
        result_view(fetched.result) == store_steampowered_com::appdetails::fetched_result(
            store_steampowered_com::appdetails::response_view(response),
            app_id,
        ),
        write_view(fetched.write) == store_steampowered_com::appdetails::fetched_write(
            store_steampowered_com::appdetails::response_view(response),
            app_id,
        ),
{
    store_steampowered_com::appdetails::get(app_id, response)
}

/// Looks the details of an app up in the cache, given the contents of its
/// file if there is one. See `store_steampowered_com::appdetails::get_cached`.
pub fn get_cached_app_details(app_id: i64, cached: Option<String>) -> (looked_up: Cached<
    SteamAppDetails,
>)
    ensures
        match looked_up {
            Cached::Hit(result) => store_steampowered_com::appdetails::cached_result(
                store_steampowered_com::appdetails::option_view(cached),
                app_id,
            ) == Some(result_view(result)),
            Cached::Miss(request) => cached is None && request@ == (cache::FetchRequestView {
                url: store_steampowered_com::appdetails::api_url(app_id),
                filepath: store_steampowered_com::appdetails::resource_filepath(app_id),
            }),
        },
{
    store_steampowered_com::appdetails::get_cached(app_id, cached)
}

/// Takes what the transport handed back for the catalog and decides what the
/// fetch yields and what goes into the cache. See
/// `isteam_apps::get_app_list::get`.
pub fn get_app_list(response: Result<String, ApiError>) -> (fetched: Fetched<Vec<SteamApp>>)
    ensures
        isteam_apps::get_app_list::list_view(fetched.result)
            == isteam_apps::get_app_list::fetched_result(
            isteam_apps::get_app_list::response_view(response),
        ),
        write_view(fetched.write) == isteam_apps::get_app_list::fetched_write(
            isteam_apps::get_app_list::response_view(response),
        ),
{
    isteam_apps::get_app_list::get(response)
}

/// Looks the catalog up in the cache, given the contents of its file if there
/// is one. See `isteam_apps::get_app_list::get_cached`.
pub fn get_cached_app_list(steam_web_api_key: &str, cached: Option<String>) -> (looked_up: Cached<
    Vec<SteamApp>,
>)
    ensures
        match looked_up {
            Cached::Hit(result) => isteam_apps::get_app_list::cached_result(
                isteam_apps::get_app_list::option_view(cached),
            ) == Some(isteam_apps::get_app_list::list_view(result)),
            Cached::Miss(request) => cached is None && request@ == (cache::FetchRequestView {
                url: util::api_url(
                    isteam_apps::interface(),
                    isteam_apps::get_app_list::method_name(),
                    isteam_apps::get_app_list::version(),
                    steam_web_api_key@,
                ),
                filepath: isteam_apps::get_app_list::resource_filepath(),
            }),
        },
{
    isteam_apps::get_app_list::get_cached(steam_web_api_key, cached)
}

/// Takes what the transport handed back for a request of match history and
/// gives the matches that it lists. See `idota2match_570::get_match_history`.
pub fn get_dota2_match_history(response: Result<String, ApiError>) -> (result: Result<
    ResponseMatchHistory,
    ApiError,
>)
    ensures
        result_view(result) == idota2match_570::get_match_history::fetched_result(
            idota2match_570::get_match_history::response_view(response),
        ),
{
    idota2match_570::get_dota2_match_history(response)
}

} // verus!
