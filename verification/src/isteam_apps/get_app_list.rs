//! The catalog: every app on Steam, by id and name.
//!
//! The response holds the catalog as an array under `applist.apps`. Each
//! element is read field by field, so a row that lacks its id or its name
//! still yields an entry with the zero value in that place. Rows without a
//! name are then left out: they are incomplete.

use vstd::prelude::*;
use vstd::string::*;
use crate::cache::{
    write_view, CacheWrite, CacheWriteView, Cached, FetchRequest, FetchRequestView, Fetched,
};
use crate::error::{ApiError, ApiErrorView};
use crate::isteam_apps::{get_interface, interface};
use crate::json::{parse, parsed_json, Json, JsonValue};
use crate::util::{
    api_url, build_api_url, cache_root, get_cache_dir_path, get_json_filetype, json_filetype,
    views,
};

verus! {

/// One app of the catalog.
#[derive(Debug, Clone, PartialEq, Eq)]
pub struct SteamApp {
    pub appid: i64,
    pub name: String,
}

/// A `SteamApp` as a mathematical value.
pub struct SteamAppView {
    pub appid: i64,
    pub name: Seq<char>,
}

impl View for SteamApp {
    type V = SteamAppView;

    open spec fn view(&self) -> SteamAppView {
        SteamAppView { appid: self.appid, name: self.name@ }
    }
}

impl SteamAppView {
    /// What a row of the catalog says: each field is read on its own, and one
    /// that is absent or of another type keeps its zero value.
    pub open spec fn of(doc: JsonValue) -> SteamAppView {
        SteamAppView { appid: doc.integer_or_zero("appid"@), name: doc.text_or_empty("name"@) }
    }
}

/// Whether an app has a name.
pub open spec fn is_named() -> spec_fn(SteamAppView) -> bool {
    |app: SteamAppView| app.name.len() > 0
}

/// Why a response that is JSON may still be malformed: it holds no array of
/// apps.
pub open spec fn missing_apps() -> Seq<char> {
    "response does not contain a list of apps"@
}

/// The name of the method.
pub open spec fn method_name() -> Seq<char> {
    "GetAppList"@
}

/// The version of the method.
pub open spec fn version() -> Seq<char> {
    "v2"@
}

/// The file of the catalog in the cache:
/// `<root>/<interface>-<method>-<version>.json`.
pub open spec fn resource_filepath() -> Seq<char> {
    cache_root() + "/"@ + interface() + "-"@ + method_name() + "-"@ + version() + "."@
        + json_filetype()
}

/// What a response document says the catalog is: the rows of the array under
/// `applist.apps` that have a name, in order.
pub open spec fn catalog(doc: JsonValue) -> Result<Seq<SteamAppView>, ApiErrorView> {
    match doc.at("applist"@).at("apps"@).items() {
        Some(rows) => Ok(
            rows.map_values(|row: JsonValue| SteamAppView::of(row)).filter(is_named()),
        ),
        None => Err(ApiErrorView::MalformedResponse(missing_apps())),
    }
}

/// What a response text says the catalog is: empty if the text is empty, what
/// the parser objects to if it is no JSON, and else the catalog of the
/// document that it writes.
pub open spec fn outcome(response: Seq<char>) -> Result<Seq<SteamAppView>, ApiErrorView> {
    if response.len() == 0 {
        Ok(Seq::empty())
    } else {
        match parsed_json(response) {
            Ok(doc) => catalog(doc),
            Err(reason) => Err(ApiErrorView::MalformedResponse(reason)),
        }
    }
}

/// What a fetch yields, given what the transport handed back.
pub open spec fn fetched_result(response: Result<Seq<char>, ApiErrorView>) -> Result<
    Seq<SteamAppView>,
    ApiErrorView,
> {
    match response {
        Ok(body) => outcome(body),
        Err(error) => Err(error),
    }
}

/// The file that a fetch leaves behind, given what the transport handed back:
/// the response itself, if it is not empty and gave a catalog.
pub open spec fn fetched_write(response: Result<Seq<char>, ApiErrorView>) -> Option<
    CacheWriteView,
> {
    match response {
        Ok(body) => if body.len() > 0 && outcome(body) is Ok {
            Some(
                CacheWriteView {
                    directory: cache_root(),
                    filepath: resource_filepath(),
                    contents: body,
                },
            )
        } else {
            None
        },
        Err(_) => None,
    }
}

/// What a look into the cache yields, given the contents of the catalog's
/// file if there is one: `None` stands for a miss, after which the caller
/// fetches.
pub open spec fn cached_result(cached: Option<Seq<char>>) -> Option<
    Result<Seq<SteamAppView>, ApiErrorView>,
> {
    match cached {
        Some(contents) => Some(outcome(contents)),
        None => None,
    }
}

/// The view of a catalog or of the failure to get one.
pub open spec fn list_view(result: Result<Vec<SteamApp>, ApiError>) -> Result<
    Seq<SteamAppView>,
    ApiErrorView,
> {
    match result {
        Ok(apps) => Ok(views(apps@)),
        Err(error) => Err(error@),
    }
}

/// The view of what the transport handed back.
pub open spec fn response_view(response: Result<String, ApiError>) -> Result<
    Seq<char>,
    ApiErrorView,
> {
    match response {
        Ok(body) => Ok(body@),
        Err(error) => Err(error@),
    }
}

/// The view of the contents of a file that may not be there.
pub open spec fn option_view(cached: Option<String>) -> Option<Seq<char>> {
    match cached {
        Some(contents) => Some(contents@),
        None => None,
    }
}

/// The name of the method.
pub fn get_method_name() -> (name: String)
    ensures
        name@ == method_name(),
{
    String::from_str("GetAppList")
}

/// The version of the method.
pub fn get_version() -> (name: String)
    ensures
        name@ == version(),
{
    String::from_str("v2")
}

/// The file of the catalog in the cache. The catalog is cached whole, as one
/// response.
pub fn get_resource_filepath() -> (filepath: String)
    ensures
        filepath@ == resource_filepath(),
{
    let interface = get_interface();
    let method = get_method_name();
    let version = get_version();
    let filetype = get_json_filetype();
    let mut filepath = get_cache_dir_path();
    filepath.append("/");
    filepath.append(interface.as_str());
    filepath.append("-");
    filepath.append(method.as_str());
    filepath.append("-");
    filepath.append(version.as_str());
    filepath.append(".");
    filepath.append(filetype.as_str());
    filepath
}

/// The location that answers with the catalog, for the caller's key.
pub fn get_api_url(steam_web_api_key: &str) -> (url: String)
    ensures
        url@ == api_url(interface(), method_name(), version(), steam_web_api_key@),
{
    let interface = get_interface();
    let method = get_method_name();
    let version = get_version();
    build_api_url(interface.as_str(), method.as_str(), version.as_str(), steam_web_api_key)
}

fn read_app(doc: &Json) -> (app: SteamApp)
    ensures
        app@ == SteamAppView::of(doc@),
{
    SteamApp { appid: doc.integer_or_zero("appid"), name: doc.text_or_empty("name") }
}

/// Projects a response document into the catalog.
pub fn project(doc: &Json) -> (result: Result<Vec<SteamApp>, ApiError>)
    ensures
        list_view(result) == catalog(doc@),
{
    let null = Json::Null;
    match doc.get_or("applist", &null).get_or("apps", &null).as_array() {
        None => Err(
            ApiError::MalformedResponse(String::from_str("response does not contain a list of apps")),
        ),
        Some(rows) => {
            let mut apps: Vec<SteamApp> = Vec::new();
            let ghost read: Seq<SteamAppView> = Seq::empty();
            let mut i: usize = 0;
            proof {
                reveal(Seq::filter);
                assert(views(apps@) =~= read.filter(is_named()));
            }
            while i < rows.len()
                invariant
                    i <= rows.len(),
                    read.len() == i,
                    forall|k: int|
                        0 <= k < i ==> #[trigger] read[k] == SteamAppView::of(rows@[k]@),
                    views(apps@) == read.filter(is_named()),
                decreases rows.len() - i,
            {
                let app = read_app(&rows[i]);
                proof {
                    Seq::lemma_filter_push(read, app@, is_named());
                    read = read.push(app@);
                }
                if !app.name.as_str().is_empty() {
                    let ghost before = apps@;
                    apps.push(app);
                    assert(views(apps@) =~= views(before).push(app@));
                }
                i = i + 1;
            }
            proof {
                let rows_read = doc@.at("applist"@).at("apps"@).items()->Some_0.map_values(
                    |row: JsonValue| SteamAppView::of(row),
                );
                assert(read =~= rows_read);
            }
            Ok(apps)
        },
    }
}

/// Projects a response text into the catalog.
pub fn parse_api_call_result(response_string: String) -> (result: Result<Vec<SteamApp>, ApiError>)
    ensures
        list_view(result) == outcome(response_string@),
{
    if response_string.as_str().is_empty() {
        let apps: Vec<SteamApp> = Vec::new();
        assert(views(apps@) =~= Seq::<SteamAppView>::empty());
        return Ok(apps);
    }
    match parse(response_string.as_str()) {
        Ok(doc) => project(&doc),
        Err(reason) => Err(ApiError::MalformedResponse(reason)),
    }
}

/// Takes what the transport handed back for the catalog and decides what the
/// fetch yields and what goes into the cache.
///
/// A failure of the transport is handed on and nothing is stored. A response
/// is projected; it is stored, byte for byte, if it gave a catalog.
pub fn get(response: Result<String, ApiError>) -> (fetched: Fetched<Vec<SteamApp>>)
    ensures
        list_view(fetched.result) == fetched_result(response_view(response)),
        write_view(fetched.write) == fetched_write(response_view(response)),
{
    match response {
        Err(error) => Fetched { result: Err(error), write: None },
        Ok(body) => {
            let kept = body.clone();
            let result = parse_api_call_result(body);
            let keep = !kept.as_str().is_empty() && result.is_ok();
            let write = if keep {
                Some(
                    CacheWrite {
                        directory: get_cache_dir_path(),
                        filepath: get_resource_filepath(),
                        contents: kept,
                    },
                )
            } else {
                None
            };
            Fetched { result, write }
        },
    }
}

/// Looks the catalog up in the cache, given the contents of its file if there
/// is one. A file is projected like a response; without a file the caller is
/// told what to fetch, and hands the response to `get`.
pub fn get_cached(steam_web_api_key: &str, cached: Option<String>) -> (looked_up: Cached<
    Vec<SteamApp>,
>)
    ensures
        match looked_up {
            Cached::Hit(result) => cached_result(option_view(cached)) == Some(list_view(result)),
            Cached::Miss(request) => cached is None && request@ == (FetchRequestView {
                url: api_url(interface(), method_name(), version(), steam_web_api_key@),
                filepath: resource_filepath(),
            }),
        },
{
    match cached {
        Some(contents) => Cached::Hit(parse_api_call_result(contents)),
        None => Cached::Miss(
            FetchRequest {
                url: get_api_url(steam_web_api_key),
                filepath: get_resource_filepath(),
            },
        ),
    }
}

/// No app of a catalog is without a name: a row whose name is empty or
/// missing is left out, whatever else the response holds.
pub proof fn lemma_catalog_has_no_unnamed_app(doc: JsonValue, i: int)
    requires
        catalog(doc) is Ok,
        0 <= i < catalog(doc)->Ok_0.len(),
    ensures
        catalog(doc)->Ok_0[i].name.len() > 0,
{
    let rows = doc.at("applist"@).at("apps"@).items()->Some_0.map_values(
        |row: JsonValue| SteamAppView::of(row),
    );
    rows.lemma_filter_pred(is_named(), i);
}

/// A catalog holds exactly the named rows, in their order: as many apps as
/// there are rows with a name.
pub proof fn lemma_catalog_keeps_named_rows(doc: JsonValue)
    requires
        catalog(doc) is Ok,
    ensures
        catalog(doc)->Ok_0 == doc.at("applist"@).at("apps"@).items()->Some_0.map_values(
            |row: JsonValue| SteamAppView::of(row),
        ).filter(is_named()),
        catalog(doc)->Ok_0.len() <= doc.at("applist"@).at("apps"@).items()->Some_0.len(),
{
    let rows = doc.at("applist"@).at("apps"@).items()->Some_0.map_values(
        |row: JsonValue| SteamAppView::of(row),
    );
    rows.lemma_filter_len(is_named());
}

/// After a fetch that stored its response, a look into the cache finds that
/// response, needs no second fetch, and yields what the fetch yielded.
pub proof fn lemma_cached_after_fetch(body: Seq<char>)
    requires
        fetched_write(Ok(body)) is Some,
    ensures
        fetched_write(Ok(body))->Some_0.filepath == resource_filepath(),
        cached_result(Some(fetched_write(Ok(body))->Some_0.contents)) == Some(
            fetched_result(Ok(body)),
        ),
{
}

} // verus!
