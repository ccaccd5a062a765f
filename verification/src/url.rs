//! Locations with a query, put together by the crate `url_build_parse`.

use vstd::prelude::*;
use vstd::string::*;

verus! {

/// Whether a parameter's name is written in lower case letters and
/// underscores alone.
pub open spec fn is_plain_name(name: Seq<char>) -> bool {
    forall|i: int| 0 <= i < name.len() ==> ('a' <= #[trigger] name[i] <= 'z' || name[i] == '_')
}

/// Whether the parameters of a query have plain names, each name once.
pub open spec fn has_plain_distinct_names(query: Seq<(Seq<char>, Seq<char>)>) -> bool {
    &&& forall|i: int| 0 <= i < query.len() ==> is_plain_name(#[trigger] query[i].0)
    &&& forall|i: int, j: int|
        0 <= i < j < query.len() ==> (#[trigger] query[i]).0 != (#[trigger] query[j]).0
}

/// The text that `url_build_parse::build_url` makes of the parameters of a
/// query: the parameters, percent-encoded and sorted, as `name=value` joined
/// by `&`.
pub uninterp spec fn query_text(query: Seq<(Seq<char>, Seq<char>)>) -> Seq<char>;

/// A location with a query: `<scheme>://<host><path>?<query>`.
pub open spec fn location(
    scheme: Seq<char>,
    host: Seq<char>,
    path: Seq<char>,
    query: Seq<(Seq<char>, Seq<char>)>,
) -> Seq<char> {
    scheme + ":"@ + "//"@ + host + path + "?"@ + query_text(query)
}

/// Puts a location together with `url_build_parse::build_url`, from a scheme,
/// a host without user or port, a path and a query, and without a fragment.
///
/// The builder never fails. It joins the scheme, `://`, the host, the path,
/// `?` and the text of the query. For that text it percent-encodes names and
/// values and sorts the parameters, so the text is given a name, `query_text`,
/// and not spelled out. It sorts by the lower-case form of `name=value`; the
/// names asked for here keep two parameters from comparing equal, in which
/// case their order would be that of a hash map.
#[verifier::external_body]
pub(crate) fn build_query_url(
    scheme: String,
    host: String,
    path: String,
    query: Vec<(String, String)>,
) -> (url: Result<String, String>)
    requires
        has_plain_distinct_names(query.deep_view()),
    ensures
        url is Ok,
        url->Ok_0@ == scheme@ + ":"@ + "//"@ + host@ + path@ + "?"@ + query_text(
            query.deep_view(),
        ),
{
    let authority = url_build_parse::UrlAuthority { user_info: None, host, port: None };
    url_build_parse::build_url(
        url_build_parse::UrlComponents {
            scheme,
            authority: Some(authority),
            path,
            query: Some(query.into_iter().collect()),
            fragment: None,
        },
    )
}

/// Adds a parameter to a query.
pub(crate) fn push_parameter(query: &mut Vec<(String, String)>, name: &str, value: String)
    ensures
        final(query).deep_view() == old(query).deep_view().push((name@, value@)),
{
    query.push((String::from_str(name), value));
    assert(final(query).deep_view() =~= old(query).deep_view().push((name@, value@)));
}

} // verus!
