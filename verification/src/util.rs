//! What the endpoints share: where the cache lives and how a location of the
//! Web API is put together.

use vstd::prelude::*;
use vstd::string::*;

verus! {

/// The views of the elements of a sequence, in order.
pub open spec fn views<T: View>(items: Seq<T>) -> Seq<T::V> {
    items.map_values(|item: T| item@)
}

/// The directory under which every response is cached.
pub open spec fn cache_root() -> Seq<char> {
    "steam-webapi-cache"@
}

/// The extension of a cached response.
pub open spec fn json_filetype() -> Seq<char> {
    "json"@
}

/// The location of a method of the Web API:
/// `https://api.steampowered.com/<interface>/<method>/<version>?key=<key>`.
pub open spec fn api_url(
    interface: Seq<char>,
    method: Seq<char>,
    version: Seq<char>,
    key: Seq<char>,
) -> Seq<char> {
    "https://api.steampowered.com"@ + "/"@ + interface + "/"@ + method + "/"@ + version + "?"@
        + "key"@ + "="@ + key
}

/// Milliseconds since the epoch, for a time given as whole seconds and the
/// nanoseconds of the second under way.
pub open spec fn unix_millis(seconds: u64, subsec_nanos: u32) -> int {
    seconds * 1000 + subsec_nanos / 1_000_000
}

/// The location of a method of the Web API, with the caller's key.
pub fn build_api_url(interface: &str, method: &str, version: &str, steam_web_api_key: &str) -> (url:
    String)
    ensures
        url@ == api_url(interface@, method@, version@, steam_web_api_key@),
{
    let mut url = String::from_str("https://api.steampowered.com");
    url.append("/");
    url.append(interface);
    url.append("/");
    url.append(method);
    url.append("/");
    url.append(version);
    url.append("?");
    url.append("key");
    url.append("=");
    url.append(steam_web_api_key);
    url
}

/// The directory under which every response is cached.
pub fn get_cache_dir_path() -> (path: String)
    ensures
        path@ == cache_root(),
{
    String::from_str("steam-webapi-cache")
}

/// The extension of a cached response.
pub fn get_json_filetype() -> (filetype: String)
    ensures
        filetype@ == json_filetype(),
{
    String::from_str("json")
}

/// Milliseconds since the epoch, for a time given as whole seconds and the
/// nanoseconds of the second under way.
pub fn as_unix_timestamp(seconds: u64, subsec_nanos: u32) -> (unix_timestamp: u64)
    requires
        unix_millis(seconds, subsec_nanos) <= u64::MAX,
    ensures
        unix_timestamp == unix_millis(seconds, subsec_nanos),
{
    seconds * 1000 + (subsec_nanos / 1_000_000) as u64
}

} // verus!
