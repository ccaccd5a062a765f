//! The details of one app, as the store front answers
//! `https://store.steampowered.com/api/appdetails`.
//!
//! The store's schema is not under this library's control: members come and
//! go with the kind of app. So a response is projected field by field. A
//! member that is absent, or of another type than expected, leaves its field
//! at the zero value; it never fails the projection. Only two things do: a
//! text that is no JSON, or that lacks the success flag of the app asked for,
//! and a success flag that is false.

use vstd::prelude::*;
use vstd::string::*;
use crate::cache::{
    write_view, CacheWrite, CacheWriteView, Cached, FetchRequest, FetchRequestView, Fetched,
};
use crate::error::{result_view, ApiError, ApiErrorView};
use crate::json::{find_from, parse, parsed_json, Json, JsonValue};
use crate::text::{
    append_i64, decimal, i64_of, i64_to_string, lemma_decimal_characters,
    lemma_decimal_is_injective, parse_i64,
};
use crate::util::{cache_root, get_json_filetype, json_filetype, views};

verus! {

/// How many apps share one directory of the cache.
pub const ENTRIES_PER_BUCKET: i64 = 10000;

/// The bucket of an app: its id divided by the bucket size, rounded towards
/// zero.
pub open spec fn bucket_of(app_id: i64) -> int {
    if app_id >= 0 {
        app_id / ENTRIES_PER_BUCKET
    } else {
        -((-app_id) / (ENTRIES_PER_BUCKET as int))
    }
}

/// The directory of an app in the cache:
/// `<root>/steampowered/appdetails/<bucket>/<id>/`.
pub open spec fn cache_dir_path(app_id: i64) -> Seq<char> {
    cache_root() + "/"@ + "steampowered"@ + "/"@ + "appdetails"@ + "/"@ + decimal(
        bucket_of(app_id),
    ) + "/"@ + decimal(app_id as int) + "/"@
}

/// The file of an app in the cache: `<id>.json` in the app's directory.
pub open spec fn resource_filepath(app_id: i64) -> Seq<char> {
    cache_dir_path(app_id) + decimal(app_id as int) + "."@ + json_filetype()
}

/// The location that answers with the details of an app.
pub open spec fn api_url(app_id: i64) -> Seq<char> {
    "https://store.steampowered.com/api/appdetails?appids="@ + decimal(app_id as int) + "&lang=en"@
}

/// The age that a member states, as a number or as the decimal text of one;
/// zero otherwise.
pub open spec fn age_of(doc: JsonValue) -> i64 {
    match doc.integer() {
        Some(age) => age,
        None => match doc.text() {
            Some(characters) => match i64_of(characters) {
                Some(age) => age,
                None => 0,
            },
            None => 0,
        },
    }
}

/// The display type that a member states, as a text or as a number, which is
/// then written in decimal; empty otherwise.
pub open spec fn display_type_of(doc: JsonValue) -> Seq<char> {
    match doc.integer() {
        Some(number) => decimal(number as int),
        None => match doc.text() {
            Some(characters) => characters,
            None => Seq::empty(),
        },
    }
}

fn read_required_age(doc: &Json) -> (age: i64)
    ensures
        age == age_of(doc@),
{
    match doc.as_i64() {
        Some(age) => age,
        None => match doc.as_str() {
            Some(characters) => match parse_i64(characters) {
                Some(age) => age,
                None => 0,
            },
            None => 0,
        },
    }
}

fn read_display_type(doc: &Json) -> (display_type: String)
    ensures
        display_type@ == display_type_of(doc@),
{
    match doc.as_i64() {
        Some(number) => i64_to_string(number),
        None => match doc.as_str() {
            Some(characters) => String::from_str(characters),
            None => String::new(),
        },
    }
}

/// Where the publisher offers support.
#[derive(Debug, Clone, PartialEq, Eq)]
pub struct SupportInfo {
    pub url: String,
    pub email: String,
}

/// A `SupportInfo` as a mathematical value.
pub struct SupportInfoView {
    pub url: Seq<char>,
    pub email: Seq<char>,
}

impl View for SupportInfo {
    type V = SupportInfoView;

    open spec fn view(&self) -> SupportInfoView {
        SupportInfoView {
            url: self.url@,
            email: self.email@,
        }
    }
}

impl SupportInfoView {
    /// The value all of whose fields are zero.
    pub open spec fn zero() -> SupportInfoView {
        SupportInfoView {
            url: Seq::empty(),
            email: Seq::empty(),
        }
    }

    /// What a document says: each field is read on its own, and one that is
    /// absent or of another type keeps its zero value.
    pub open spec fn of(doc: JsonValue) -> SupportInfoView {
        SupportInfoView {
            url: doc.text_or_empty("url"@),
            email: doc.text_or_empty("email"@),
        }
    }

    /// A document without members says nothing: every field keeps its zero value.
    pub proof fn lemma_nothing_read(doc: JsonValue)
        requires
            forall|key: Seq<char>| (#[trigger] doc.member(key)) is None,
        ensures
            SupportInfoView::of(doc) == SupportInfoView::zero(),
    {
    }

    /// A member that is absent leaves its field at the zero value, whatever the
    /// document holds besides.
    pub proof fn lemma_absent_member_leaves_zero(doc: JsonValue)
        ensures
            doc.member("url"@) is None ==> Self::of(doc).url == Self::zero().url,
            doc.member("email"@) is None ==> Self::of(doc).email == Self::zero().email,
    {
    }

    /// Whether a document states the value in full: it holds every field as a
    /// member of the field's own type.
    pub open spec fn is_stated_by(self, doc: JsonValue) -> bool {
        &&& doc.member("url"@) == Some(JsonValue::Text(self.url))
        &&& doc.member("email"@) == Some(JsonValue::Text(self.email))
    }

    /// What a document states in full is what is read from it.
    pub proof fn lemma_read_back(self, doc: JsonValue)
        requires
            self.is_stated_by(doc),
        ensures
            SupportInfoView::of(doc) == self,
    {
    }

    /// The document that states the value in full: an object with one member
    /// for every field.
    pub open spec fn document(self) -> JsonValue {
        JsonValue::Object(
            seq![
                ("url"@, JsonValue::Text(self.url)),
                ("email"@, JsonValue::Text(self.email)),
            ],
        )
    }

    /// The document of a value states the value in full.
    pub proof fn lemma_document_states(self)
        ensures
            self.is_stated_by(self.document()),
    {
        reveal_strlit("url");
        reveal_strlit("email");
        assert("url"@.len() == 3);
        assert("email"@.len() == 5);
        reveal_with_fuel(find_from, 3);
    }
}

fn read_support_info(doc: &Json) -> (record: SupportInfo)
    ensures
        record@ == SupportInfoView::of(doc@),
{
    SupportInfo {
        url: doc.text_or_empty("url"),
        email: doc.text_or_empty("email"),
    }
}

/// One screenshot, as a thumbnail and at full size.
#[derive(Debug, Clone, PartialEq, Eq)]
pub struct Screenshot {
    pub path_thumbnail: String,
    pub path_full: String,
    pub id: i64,
}

/// A `Screenshot` as a mathematical value.
pub struct ScreenshotView {
    pub path_thumbnail: Seq<char>,
    pub path_full: Seq<char>,
    pub id: i64,
}

impl View for Screenshot {
    type V = ScreenshotView;

    open spec fn view(&self) -> ScreenshotView {
        ScreenshotView {
            path_thumbnail: self.path_thumbnail@,
            path_full: self.path_full@,
            id: self.id,
        }
    }
}

impl ScreenshotView {
    /// The value all of whose fields are zero.
    pub open spec fn zero() -> ScreenshotView {
        ScreenshotView {
            path_thumbnail: Seq::empty(),
            path_full: Seq::empty(),
            id: 0,
        }
    }

    /// What a document says: each field is read on its own, and one that is
    /// absent or of another type keeps its zero value.
    pub open spec fn of(doc: JsonValue) -> ScreenshotView {
        ScreenshotView {
            path_thumbnail: doc.text_or_empty("path_thumbnail"@),
            path_full: doc.text_or_empty("path_full"@),
            id: doc.integer_or_zero("id"@),
        }
    }

    /// One value for each element of an array, in order; nothing for a document
    /// that is no array.
    pub open spec fn list_of(doc: JsonValue) -> Seq<ScreenshotView> {
        match doc.items() {
            Some(items) => items.map_values(|item: JsonValue| ScreenshotView::of(item)),
            None => Seq::empty(),
        }
    }

    /// A document without members says nothing: every field keeps its zero value.
    pub proof fn lemma_nothing_read(doc: JsonValue)
        requires
            forall|key: Seq<char>| (#[trigger] doc.member(key)) is None,
        ensures
            ScreenshotView::of(doc) == ScreenshotView::zero(),
    {
    }

    /// A member that is absent leaves its field at the zero value, whatever the
    /// document holds besides.
    pub proof fn lemma_absent_member_leaves_zero(doc: JsonValue)
        ensures
            doc.member("path_thumbnail"@) is None ==> Self::of(doc).path_thumbnail
                == Self::zero().path_thumbnail,
            doc.member("path_full"@) is None ==> Self::of(doc).path_full == Self::zero().path_full,
            doc.member("id"@) is None ==> Self::of(doc).id == Self::zero().id,
    {
    }

    /// Whether a document states the value in full: it holds every field as a
    /// member of the field's own type.
    pub open spec fn is_stated_by(self, doc: JsonValue) -> bool {
        &&& doc.member("path_thumbnail"@) == Some(JsonValue::Text(self.path_thumbnail))
        &&& doc.member("path_full"@) == Some(JsonValue::Text(self.path_full))
        &&& doc.member("id"@) == Some(JsonValue::Number(Some(self.id)))
    }

    /// What a document states in full is what is read from it.
    pub proof fn lemma_read_back(self, doc: JsonValue)
        requires
            self.is_stated_by(doc),
        ensures
            ScreenshotView::of(doc) == self,
    {
    }

    /// Whether an array states a list in full: element by element.
    pub open spec fn list_is_stated_by(list: Seq<ScreenshotView>, doc: JsonValue) -> bool {
        match doc.items() {
            Some(items) => items.len() == list.len() && forall|i: int|
                0 <= i < list.len() ==> (#[trigger] list[i]).is_stated_by(items[i]),
            None => false,
        }
    }

    /// What an array states in full is what is read from it.
    pub proof fn lemma_list_read_back(list: Seq<ScreenshotView>, doc: JsonValue)
        requires
            ScreenshotView::list_is_stated_by(list, doc),
        ensures
            ScreenshotView::list_of(doc) == list,
    {
        let items = doc.items()->Some_0;
        assert forall|i: int| 0 <= i < list.len() implies ScreenshotView::of(items[i])
            == list[i] by {
            list[i].lemma_read_back(items[i]);
        }
        assert(ScreenshotView::list_of(doc) =~= list);
    }

    /// The document that states the value in full: an object with one member
    /// for every field.
    pub open spec fn document(self) -> JsonValue {
        JsonValue::Object(
            seq![
                ("path_thumbnail"@, JsonValue::Text(self.path_thumbnail)),
                ("path_full"@, JsonValue::Text(self.path_full)),
                ("id"@, JsonValue::Number(Some(self.id))),
            ],
        )
    }

    /// The document of a value states the value in full.
    pub proof fn lemma_document_states(self)
        ensures
            self.is_stated_by(self.document()),
    {
        reveal_strlit("path_thumbnail");
        reveal_strlit("path_full");
        reveal_strlit("id");
        assert("path_thumbnail"@.len() == 14);
        assert("path_full"@.len() == 9);
        assert("id"@.len() == 2);
        reveal_with_fuel(find_from, 4);
    }

    /// The array that states a list in full: the documents of its elements.
    pub open spec fn list_document(list: Seq<ScreenshotView>) -> JsonValue {
        JsonValue::Array(list.map_values(|item: ScreenshotView| item.document()))
    }

    /// The array of a list states the list in full.
    pub proof fn lemma_list_document_states(list: Seq<ScreenshotView>)
        ensures
            ScreenshotView::list_is_stated_by(list, ScreenshotView::list_document(list)),
    {
        let items = ScreenshotView::list_document(list).items()->Some_0;
        assert forall|i: int| 0 <= i < list.len() implies (#[trigger] list[i]).is_stated_by(
            items[i],
        ) by {
            list[i].lemma_document_states();
        }
    }
}

fn read_screenshot(doc: &Json) -> (record: Screenshot)
    ensures
        record@ == ScreenshotView::of(doc@),
{
    Screenshot {
        path_thumbnail: doc.text_or_empty("path_thumbnail"),
        path_full: doc.text_or_empty("path_full"),
        id: doc.integer_or_zero("id"),
    }
}

fn read_screenshot_list(doc: &Json) -> (list: Vec<Screenshot>)
    ensures
        views(list@) == ScreenshotView::list_of(doc@),
{
    let mut list: Vec<Screenshot> = Vec::new();
    match doc.as_array() {
        Some(items) => {
            let mut i: usize = 0;
            while i < items.len()
                invariant
                    i <= items.len(),
                    list@.len() == i,
                    forall|k: int| 0 <= k < i ==> (#[trigger] list@[k])@
                        == ScreenshotView::of(items@[k]@),
                decreases items.len() - i,
            {
                list.push(read_screenshot(&items[i]));
                i = i + 1;
            }
            assert(views(list@) =~= ScreenshotView::list_of(doc@));
        },
        None => {
            assert(views(list@) =~= ScreenshotView::list_of(doc@));
        },
    }
    list
}

/// When the app was or will be released.
#[derive(Debug, Clone, PartialEq, Eq)]
pub struct ReleaseDate {
    pub date: String,
    pub coming_soon: bool,
}

/// A `ReleaseDate` as a mathematical value.
pub struct ReleaseDateView {
    pub date: Seq<char>,
    pub coming_soon: bool,
}

impl View for ReleaseDate {
    type V = ReleaseDateView;

    open spec fn view(&self) -> ReleaseDateView {
        ReleaseDateView {
            date: self.date@,
            coming_soon: self.coming_soon,
        }
    }
}

impl ReleaseDateView {
    /// The value all of whose fields are zero.
    pub open spec fn zero() -> ReleaseDateView {
        ReleaseDateView {
            date: Seq::empty(),
            coming_soon: false,
        }
    }

    /// What a document says: each field is read on its own, and one that is
    /// absent or of another type keeps its zero value.
    pub open spec fn of(doc: JsonValue) -> ReleaseDateView {
        ReleaseDateView {
            date: doc.text_or_empty("date"@),
            coming_soon: doc.flag_or_false("coming_soon"@),
        }
    }

    /// A document without members says nothing: every field keeps its zero value.
    pub proof fn lemma_nothing_read(doc: JsonValue)
        requires
            forall|key: Seq<char>| (#[trigger] doc.member(key)) is None,
        ensures
            ReleaseDateView::of(doc) == ReleaseDateView::zero(),
    {
    }

    /// A member that is absent leaves its field at the zero value, whatever the
    /// document holds besides.
    pub proof fn lemma_absent_member_leaves_zero(doc: JsonValue)
        ensures
            doc.member("date"@) is None ==> Self::of(doc).date == Self::zero().date,
            doc.member("coming_soon"@) is None ==> Self::of(doc).coming_soon
                == Self::zero().coming_soon,
    {
    }

    /// Whether a document states the value in full: it holds every field as a
    /// member of the field's own type.
    pub open spec fn is_stated_by(self, doc: JsonValue) -> bool {
        &&& doc.member("date"@) == Some(JsonValue::Text(self.date))
        &&& doc.member("coming_soon"@) == Some(JsonValue::Bool(self.coming_soon))
    }

    /// What a document states in full is what is read from it.
    pub proof fn lemma_read_back(self, doc: JsonValue)
        requires
            self.is_stated_by(doc),
        ensures
            ReleaseDateView::of(doc) == self,
    {
    }

    /// The document that states the value in full: an object with one member
    /// for every field.
    pub open spec fn document(self) -> JsonValue {
        JsonValue::Object(
            seq![
                ("date"@, JsonValue::Text(self.date)),
                ("coming_soon"@, JsonValue::Bool(self.coming_soon)),
            ],
        )
    }

    /// The document of a value states the value in full.
    pub proof fn lemma_document_states(self)
        ensures
            self.is_stated_by(self.document()),
    {
        reveal_strlit("date");
        reveal_strlit("coming_soon");
        assert("date"@.len() == 4);
        assert("coming_soon"@.len() == 11);
        reveal_with_fuel(find_from, 3);
    }
}

fn read_release_date(doc: &Json) -> (record: ReleaseDate)
    ensures
        record@ == ReleaseDateView::of(doc@),
{
    ReleaseDate {
        date: doc.text_or_empty("date"),
        coming_soon: doc.flag_or_false("coming_soon"),
    }
}

/// How many users recommend the app.
#[derive(Debug, Clone, PartialEq, Eq)]
pub struct Recommendations {
    pub total: i64,
}

/// A `Recommendations` as a mathematical value.
pub struct RecommendationsView {
    pub total: i64,
}

impl View for Recommendations {
    type V = RecommendationsView;

    open spec fn view(&self) -> RecommendationsView {
        RecommendationsView {
            total: self.total,
        }
    }
}

impl RecommendationsView {
    /// The value all of whose fields are zero.
    pub open spec fn zero() -> RecommendationsView {
        RecommendationsView {
            total: 0,
        }
    }

    /// What a document says: each field is read on its own, and one that is
    /// absent or of another type keeps its zero value.
    pub open spec fn of(doc: JsonValue) -> RecommendationsView {
        RecommendationsView {
            total: doc.integer_or_zero("total"@),
        }
    }

    /// A document without members says nothing: every field keeps its zero value.
    pub proof fn lemma_nothing_read(doc: JsonValue)
        requires
            forall|key: Seq<char>| (#[trigger] doc.member(key)) is None,
        ensures
            RecommendationsView::of(doc) == RecommendationsView::zero(),
    {
    }

    /// A member that is absent leaves its field at the zero value, whatever the
    /// document holds besides.
    pub proof fn lemma_absent_member_leaves_zero(doc: JsonValue)
        ensures
            doc.member("total"@) is None ==> Self::of(doc).total == Self::zero().total,
    {
    }

    /// Whether a document states the value in full: it holds every field as a
    /// member of the field's own type.
    pub open spec fn is_stated_by(self, doc: JsonValue) -> bool {
        &&& doc.member("total"@) == Some(JsonValue::Number(Some(self.total)))
    }

    /// What a document states in full is what is read from it.
    pub proof fn lemma_read_back(self, doc: JsonValue)
        requires
            self.is_stated_by(doc),
        ensures
            RecommendationsView::of(doc) == self,
    {
    }

    /// The document that states the value in full: an object with one member
    /// for every field.
    pub open spec fn document(self) -> JsonValue {
        JsonValue::Object(
            seq![
                ("total"@, JsonValue::Number(Some(self.total))),
            ],
        )
    }

    /// The document of a value states the value in full.
    pub proof fn lemma_document_states(self)
        ensures
            self.is_stated_by(self.document()),
    {
        reveal_strlit("total");
        assert("total"@.len() == 5);
        reveal_with_fuel(find_from, 2);
    }
}

fn read_recommendations(doc: &Json) -> (record: Recommendations)
    ensures
        record@ == RecommendationsView::of(doc@),
{
    Recommendations {
        total: doc.integer_or_zero("total"),
    }
}

/// The price of the app, in the smallest unit of its currency.
#[derive(Debug, Clone, PartialEq, Eq)]
pub struct PriceOverview {
    pub recurring_sub_desc: String,
    pub recurring_sub: i64,
    pub initial_formatted: String,
    pub initial: i64,
    pub final_formatted: String,
    pub final_price: i64,
    pub discount_percent: i64,
    pub currency: String,
}

/// A `PriceOverview` as a mathematical value.
pub struct PriceOverviewView {
    pub recurring_sub_desc: Seq<char>,
    pub recurring_sub: i64,
    pub initial_formatted: Seq<char>,
    pub initial: i64,
    pub final_formatted: Seq<char>,
    pub final_price: i64,
    pub discount_percent: i64,
    pub currency: Seq<char>,
}

impl View for PriceOverview {
    type V = PriceOverviewView;

    open spec fn view(&self) -> PriceOverviewView {
        PriceOverviewView {
            recurring_sub_desc: self.recurring_sub_desc@,
            recurring_sub: self.recurring_sub,
            initial_formatted: self.initial_formatted@,
            initial: self.initial,
            final_formatted: self.final_formatted@,
            final_price: self.final_price,
            discount_percent: self.discount_percent,
            currency: self.currency@,
        }
    }
}

impl PriceOverviewView {
    /// The value all of whose fields are zero.
    pub open spec fn zero() -> PriceOverviewView {
        PriceOverviewView {
            recurring_sub_desc: Seq::empty(),
            recurring_sub: 0,
            initial_formatted: Seq::empty(),
            initial: 0,
            final_formatted: Seq::empty(),
            final_price: 0,
            discount_percent: 0,
            currency: Seq::empty(),
        }
    }

    /// What a document says: each field is read on its own, and one that is
    /// absent or of another type keeps its zero value.
    pub open spec fn of(doc: JsonValue) -> PriceOverviewView {
        PriceOverviewView {
            recurring_sub_desc: doc.text_or_empty("recurring_sub_desc"@),
            recurring_sub: doc.integer_or_zero("recurring_sub"@),
            initial_formatted: doc.text_or_empty("initial_formatted"@),
            initial: doc.integer_or_zero("initial"@),
            final_formatted: doc.text_or_empty("final_formatted"@),
            final_price: doc.integer_or_zero("final"@),
            discount_percent: doc.integer_or_zero("discount_percent"@),
            currency: doc.text_or_empty("currency"@),
        }
    }

    /// A document without members says nothing: every field keeps its zero value.
    pub proof fn lemma_nothing_read(doc: JsonValue)
        requires
            forall|key: Seq<char>| (#[trigger] doc.member(key)) is None,
        ensures
            PriceOverviewView::of(doc) == PriceOverviewView::zero(),
    {
    }

    /// A member that is absent leaves its field at the zero value, whatever the
    /// document holds besides.
    pub proof fn lemma_absent_member_leaves_zero(doc: JsonValue)
        ensures
            doc.member("recurring_sub_desc"@) is None ==> Self::of(doc).recurring_sub_desc
                == Self::zero().recurring_sub_desc,
            doc.member("recurring_sub"@) is None ==> Self::of(doc).recurring_sub
                == Self::zero().recurring_sub,
            doc.member("initial_formatted"@) is None ==> Self::of(doc).initial_formatted
                == Self::zero().initial_formatted,
            doc.member("initial"@) is None ==> Self::of(doc).initial == Self::zero().initial,
            doc.member("final_formatted"@) is None ==> Self::of(doc).final_formatted
                == Self::zero().final_formatted,
            doc.member("final"@) is None ==> Self::of(doc).final_price == Self::zero().final_price,
            doc.member("discount_percent"@) is None ==> Self::of(doc).discount_percent
                == Self::zero().discount_percent,
            doc.member("currency"@) is None ==> Self::of(doc).currency == Self::zero().currency,
    {
    }

    /// Whether a document states the value in full: it holds every field as a
    /// member of the field's own type.
    pub open spec fn is_stated_by(self, doc: JsonValue) -> bool {
        &&& doc.member("recurring_sub_desc"@) == Some(JsonValue::Text(self.recurring_sub_desc))
        &&& doc.member("recurring_sub"@) == Some(JsonValue::Number(Some(self.recurring_sub)))
        &&& doc.member("initial_formatted"@) == Some(JsonValue::Text(self.initial_formatted))
        &&& doc.member("initial"@) == Some(JsonValue::Number(Some(self.initial)))
        &&& doc.member("final_formatted"@) == Some(JsonValue::Text(self.final_formatted))
        &&& doc.member("final"@) == Some(JsonValue::Number(Some(self.final_price)))
        &&& doc.member("discount_percent"@) == Some(JsonValue::Number(Some(self.discount_percent)))
        &&& doc.member("currency"@) == Some(JsonValue::Text(self.currency))
    }

    /// What a document states in full is what is read from it.
    pub proof fn lemma_read_back(self, doc: JsonValue)
        requires
            self.is_stated_by(doc),
        ensures
            PriceOverviewView::of(doc) == self,
    {
    }

    /// The document that states the value in full: an object with one member
    /// for every field.
    pub open spec fn document(self) -> JsonValue {
        JsonValue::Object(
            seq![
                ("recurring_sub_desc"@, JsonValue::Text(self.recurring_sub_desc)),
                ("recurring_sub"@, JsonValue::Number(Some(self.recurring_sub))),
                ("initial_formatted"@, JsonValue::Text(self.initial_formatted)),
                ("initial"@, JsonValue::Number(Some(self.initial))),
                ("final_formatted"@, JsonValue::Text(self.final_formatted)),
                ("final"@, JsonValue::Number(Some(self.final_price))),
                ("discount_percent"@, JsonValue::Number(Some(self.discount_percent))),
                ("currency"@, JsonValue::Text(self.currency)),
            ],
        )
    }

    /// The document of a value states the value in full.
    pub proof fn lemma_document_states(self)
        ensures
            self.is_stated_by(self.document()),
    {
        reveal_strlit("recurring_sub_desc");
        reveal_strlit("recurring_sub");
        reveal_strlit("initial_formatted");
        reveal_strlit("initial");
        reveal_strlit("final_formatted");
        reveal_strlit("final");
        reveal_strlit("discount_percent");
        reveal_strlit("currency");
        assert("recurring_sub_desc"@.len() == 18);
        assert("recurring_sub"@.len() == 13);
        assert("initial_formatted"@.len() == 17);
        assert("initial"@.len() == 7);
        assert("final_formatted"@.len() == 15);
        assert("final"@.len() == 5);
        assert("discount_percent"@.len() == 16);
        assert("currency"@.len() == 8);
        reveal_with_fuel(find_from, 9);
    }
}

fn read_price_overview(doc: &Json) -> (record: PriceOverview)
    ensures
        record@ == PriceOverviewView::of(doc@),
{
    PriceOverview {
        recurring_sub_desc: doc.text_or_empty("recurring_sub_desc"),
        recurring_sub: doc.integer_or_zero("recurring_sub"),
        initial_formatted: doc.text_or_empty("initial_formatted"),
        initial: doc.integer_or_zero("initial"),
        final_formatted: doc.text_or_empty("final_formatted"),
        final_price: doc.integer_or_zero("final"),
        discount_percent: doc.integer_or_zero("discount_percent"),
        currency: doc.text_or_empty("currency"),
    }
}

/// The platforms that the app runs on.
#[derive(Debug, Clone, PartialEq, Eq)]
pub struct Platforms {
    pub windows: bool,
    pub mac: bool,
    pub linux: bool,
}

/// A `Platforms` as a mathematical value.
pub struct PlatformsView {
    pub windows: bool,
    pub mac: bool,
    pub linux: bool,
}

impl View for Platforms {
    type V = PlatformsView;

    open spec fn view(&self) -> PlatformsView {
        PlatformsView {
            windows: self.windows,
            mac: self.mac,
            linux: self.linux,
        }
    }
}

impl PlatformsView {
    /// The value all of whose fields are zero.
    pub open spec fn zero() -> PlatformsView {
        PlatformsView {
            windows: false,
            mac: false,
            linux: false,
        }
    }

    /// What a document says: each field is read on its own, and one that is
    /// absent or of another type keeps its zero value.
    pub open spec fn of(doc: JsonValue) -> PlatformsView {
        PlatformsView {
            windows: doc.flag_or_false("windows"@),
            mac: doc.flag_or_false("mac"@),
            linux: doc.flag_or_false("linux"@),
        }
    }

    /// A document without members says nothing: every field keeps its zero value.
    pub proof fn lemma_nothing_read(doc: JsonValue)
        requires
            forall|key: Seq<char>| (#[trigger] doc.member(key)) is None,
        ensures
            PlatformsView::of(doc) == PlatformsView::zero(),
    {
    }

    /// A member that is absent leaves its field at the zero value, whatever the
    /// document holds besides.
    pub proof fn lemma_absent_member_leaves_zero(doc: JsonValue)
        ensures
            doc.member("windows"@) is None ==> Self::of(doc).windows == Self::zero().windows,
            doc.member("mac"@) is None ==> Self::of(doc).mac == Self::zero().mac,
            doc.member("linux"@) is None ==> Self::of(doc).linux == Self::zero().linux,
    {
    }

    /// Whether a document states the value in full: it holds every field as a
    /// member of the field's own type.
    pub open spec fn is_stated_by(self, doc: JsonValue) -> bool {
        &&& doc.member("windows"@) == Some(JsonValue::Bool(self.windows))
        &&& doc.member("mac"@) == Some(JsonValue::Bool(self.mac))
        &&& doc.member("linux"@) == Some(JsonValue::Bool(self.linux))
    }

    /// What a document states in full is what is read from it.
    pub proof fn lemma_read_back(self, doc: JsonValue)
        requires
            self.is_stated_by(doc),
        ensures
            PlatformsView::of(doc) == self,
    {
    }

    /// The document that states the value in full: an object with one member
    /// for every field.
    pub open spec fn document(self) -> JsonValue {
        JsonValue::Object(
            seq![
                ("windows"@, JsonValue::Bool(self.windows)),
                ("mac"@, JsonValue::Bool(self.mac)),
                ("linux"@, JsonValue::Bool(self.linux)),
            ],
        )
    }

    /// The document of a value states the value in full.
    pub proof fn lemma_document_states(self)
        ensures
            self.is_stated_by(self.document()),
    {
        reveal_strlit("windows");
        reveal_strlit("mac");
        reveal_strlit("linux");
        assert("windows"@.len() == 7);
        assert("mac"@.len() == 3);
        assert("linux"@.len() == 5);
        reveal_with_fuel(find_from, 4);
    }
}

fn read_platforms(doc: &Json) -> (record: Platforms)
    ensures
        record@ == PlatformsView::of(doc@),
{
    Platforms {
        windows: doc.flag_or_false("windows"),
        mac: doc.flag_or_false("mac"),
        linux: doc.flag_or_false("linux"),
    }
}

/// What the app asks of a PC.
#[derive(Debug, Clone, PartialEq, Eq)]
pub struct PcRequirements {
    pub recommended: String,
    pub minimum: String,
}

/// A `PcRequirements` as a mathematical value.
pub struct PcRequirementsView {
    pub recommended: Seq<char>,
    pub minimum: Seq<char>,
}

impl View for PcRequirements {
    type V = PcRequirementsView;

    open spec fn view(&self) -> PcRequirementsView {
        PcRequirementsView {
            recommended: self.recommended@,
            minimum: self.minimum@,
        }
    }
}

impl PcRequirementsView {
    /// The value all of whose fields are zero.
    pub open spec fn zero() -> PcRequirementsView {
        PcRequirementsView {
            recommended: Seq::empty(),
            minimum: Seq::empty(),
        }
    }

    /// What a document says: each field is read on its own, and one that is
    /// absent or of another type keeps its zero value.
    pub open spec fn of(doc: JsonValue) -> PcRequirementsView {
        PcRequirementsView {
            recommended: doc.text_or_empty("recommended"@),
            minimum: doc.text_or_empty("minimum"@),
        }
    }

    /// A document without members says nothing: every field keeps its zero value.
    pub proof fn lemma_nothing_read(doc: JsonValue)
        requires
            forall|key: Seq<char>| (#[trigger] doc.member(key)) is None,
        ensures
            PcRequirementsView::of(doc) == PcRequirementsView::zero(),
    {
    }

    /// A member that is absent leaves its field at the zero value, whatever the
    /// document holds besides.
    pub proof fn lemma_absent_member_leaves_zero(doc: JsonValue)
        ensures
            doc.member("recommended"@) is None ==> Self::of(doc).recommended
                == Self::zero().recommended,
            doc.member("minimum"@) is None ==> Self::of(doc).minimum == Self::zero().minimum,
    {
    }

    /// Whether a document states the value in full: it holds every field as a
    /// member of the field's own type.
    pub open spec fn is_stated_by(self, doc: JsonValue) -> bool {
        &&& doc.member("recommended"@) == Some(JsonValue::Text(self.recommended))
        &&& doc.member("minimum"@) == Some(JsonValue::Text(self.minimum))
    }

    /// What a document states in full is what is read from it.
    pub proof fn lemma_read_back(self, doc: JsonValue)
        requires
            self.is_stated_by(doc),
        ensures
            PcRequirementsView::of(doc) == self,
    {
    }

    /// The document that states the value in full: an object with one member
    /// for every field.
    pub open spec fn document(self) -> JsonValue {
        JsonValue::Object(
            seq![
                ("recommended"@, JsonValue::Text(self.recommended)),
                ("minimum"@, JsonValue::Text(self.minimum)),
            ],
        )
    }

    /// The document of a value states the value in full.
    pub proof fn lemma_document_states(self)
        ensures
            self.is_stated_by(self.document()),
    {
        reveal_strlit("recommended");
        reveal_strlit("minimum");
        assert("recommended"@.len() == 11);
        assert("minimum"@.len() == 7);
        reveal_with_fuel(find_from, 3);
    }
}

fn read_pc_requirements(doc: &Json) -> (record: PcRequirements)
    ensures
        record@ == PcRequirementsView::of(doc@),
{
    PcRequirements {
        recommended: doc.text_or_empty("recommended"),
        minimum: doc.text_or_empty("minimum"),
    }
}

/// What the app asks of a Mac.
#[derive(Debug, Clone, PartialEq, Eq)]
pub struct MacRequirements {
    pub recommended: String,
    pub minimum: String,
}

/// A `MacRequirements` as a mathematical value.
pub struct MacRequirementsView {
    pub recommended: Seq<char>,
    pub minimum: Seq<char>,
}

impl View for MacRequirements {
    type V = MacRequirementsView;

    open spec fn view(&self) -> MacRequirementsView {
        MacRequirementsView {
            recommended: self.recommended@,
            minimum: self.minimum@,
        }
    }
}

impl MacRequirementsView {
    /// The value all of whose fields are zero.
    pub open spec fn zero() -> MacRequirementsView {
        MacRequirementsView {
            recommended: Seq::empty(),
            minimum: Seq::empty(),
        }
    }

    /// What a document says: each field is read on its own, and one that is
    /// absent or of another type keeps its zero value.
    pub open spec fn of(doc: JsonValue) -> MacRequirementsView {
        MacRequirementsView {
            recommended: doc.text_or_empty("recommended"@),
            minimum: doc.text_or_empty("minimum"@),
        }
    }

    /// A document without members says nothing: every field keeps its zero value.
    pub proof fn lemma_nothing_read(doc: JsonValue)
        requires
            forall|key: Seq<char>| (#[trigger] doc.member(key)) is None,
        ensures
            MacRequirementsView::of(doc) == MacRequirementsView::zero(),
    {
    }

    /// A member that is absent leaves its field at the zero value, whatever the
    /// document holds besides.
    pub proof fn lemma_absent_member_leaves_zero(doc: JsonValue)
        ensures
            doc.member("recommended"@) is None ==> Self::of(doc).recommended
                == Self::zero().recommended,
            doc.member("minimum"@) is None ==> Self::of(doc).minimum == Self::zero().minimum,
    {
    }

    /// Whether a document states the value in full: it holds every field as a
    /// member of the field's own type.
    pub open spec fn is_stated_by(self, doc: JsonValue) -> bool {
        &&& doc.member("recommended"@) == Some(JsonValue::Text(self.recommended))
        &&& doc.member("minimum"@) == Some(JsonValue::Text(self.minimum))
    }

    /// What a document states in full is what is read from it.
    pub proof fn lemma_read_back(self, doc: JsonValue)
        requires
            self.is_stated_by(doc),
        ensures
            MacRequirementsView::of(doc) == self,
    {
    }

    /// The document that states the value in full: an object with one member
    /// for every field.
    pub open spec fn document(self) -> JsonValue {
        JsonValue::Object(
            seq![
                ("recommended"@, JsonValue::Text(self.recommended)),
                ("minimum"@, JsonValue::Text(self.minimum)),
            ],
        )
    }

    /// The document of a value states the value in full.
    pub proof fn lemma_document_states(self)
        ensures
            self.is_stated_by(self.document()),
    {
        reveal_strlit("recommended");
        reveal_strlit("minimum");
        assert("recommended"@.len() == 11);
        assert("minimum"@.len() == 7);
        reveal_with_fuel(find_from, 3);
    }
}

fn read_mac_requirements(doc: &Json) -> (record: MacRequirements)
    ensures
        record@ == MacRequirementsView::of(doc@),
{
    MacRequirements {
        recommended: doc.text_or_empty("recommended"),
        minimum: doc.text_or_empty("minimum"),
    }
}

/// What the app asks of a Linux machine.
#[derive(Debug, Clone, PartialEq, Eq)]
pub struct LinuxRequirements {
    pub recommended: String,
    pub minimum: String,
}

/// A `LinuxRequirements` as a mathematical value.
pub struct LinuxRequirementsView {
    pub recommended: Seq<char>,
    pub minimum: Seq<char>,
}

impl View for LinuxRequirements {
    type V = LinuxRequirementsView;

    open spec fn view(&self) -> LinuxRequirementsView {
        LinuxRequirementsView {
            recommended: self.recommended@,
            minimum: self.minimum@,
        }
    }
}

impl LinuxRequirementsView {
    /// The value all of whose fields are zero.
    pub open spec fn zero() -> LinuxRequirementsView {
        LinuxRequirementsView {
            recommended: Seq::empty(),
            minimum: Seq::empty(),
        }
    }

    /// What a document says: each field is read on its own, and one that is
    /// absent or of another type keeps its zero value.
    pub open spec fn of(doc: JsonValue) -> LinuxRequirementsView {
        LinuxRequirementsView {
            recommended: doc.text_or_empty("recommended"@),
            minimum: doc.text_or_empty("minimum"@),
        }
    }

    /// A document without members says nothing: every field keeps its zero value.
    pub proof fn lemma_nothing_read(doc: JsonValue)
        requires
            forall|key: Seq<char>| (#[trigger] doc.member(key)) is None,
        ensures
            LinuxRequirementsView::of(doc) == LinuxRequirementsView::zero(),
    {
    }

    /// A member that is absent leaves its field at the zero value, whatever the
    /// document holds besides.
    pub proof fn lemma_absent_member_leaves_zero(doc: JsonValue)
        ensures
            doc.member("recommended"@) is None ==> Self::of(doc).recommended
                == Self::zero().recommended,
            doc.member("minimum"@) is None ==> Self::of(doc).minimum == Self::zero().minimum,
    {
    }

    /// Whether a document states the value in full: it holds every field as a
    /// member of the field's own type.
    pub open spec fn is_stated_by(self, doc: JsonValue) -> bool {
        &&& doc.member("recommended"@) == Some(JsonValue::Text(self.recommended))
        &&& doc.member("minimum"@) == Some(JsonValue::Text(self.minimum))
    }

    /// What a document states in full is what is read from it.
    pub proof fn lemma_read_back(self, doc: JsonValue)
        requires
            self.is_stated_by(doc),
        ensures
            LinuxRequirementsView::of(doc) == self,
    {
    }

    /// The document that states the value in full: an object with one member
    /// for every field.
    pub open spec fn document(self) -> JsonValue {
        JsonValue::Object(
            seq![
                ("recommended"@, JsonValue::Text(self.recommended)),
                ("minimum"@, JsonValue::Text(self.minimum)),
            ],
        )
    }

    /// The document of a value states the value in full.
    pub proof fn lemma_document_states(self)
        ensures
            self.is_stated_by(self.document()),
    {
        reveal_strlit("recommended");
        reveal_strlit("minimum");
        assert("recommended"@.len() == 11);
        assert("minimum"@.len() == 7);
        reveal_with_fuel(find_from, 3);
    }
}

fn read_linux_requirements(doc: &Json) -> (record: LinuxRequirements)
    ensures
        record@ == LinuxRequirementsView::of(doc@),
{
    LinuxRequirements {
        recommended: doc.text_or_empty("recommended"),
        minimum: doc.text_or_empty("minimum"),
    }
}

/// One purchase option of a package group.
#[derive(Debug, Clone, PartialEq, Eq)]
pub struct Sub {
    pub price_in_cents_with_discount: i64,
    pub percent_savings_text: String,
    pub percent_savings: i64,
    pub packageid: i64,
    pub option_text: String,
    pub option_description: String,
    pub is_free_license: bool,
    pub can_get_free_license: String,
}

/// A `Sub` as a mathematical value.
pub struct SubView {
    pub price_in_cents_with_discount: i64,
    pub percent_savings_text: Seq<char>,
    pub percent_savings: i64,
    pub packageid: i64,
    pub option_text: Seq<char>,
    pub option_description: Seq<char>,
    pub is_free_license: bool,
    pub can_get_free_license: Seq<char>,
}

impl View for Sub {
    type V = SubView;

    open spec fn view(&self) -> SubView {
        SubView {
            price_in_cents_with_discount: self.price_in_cents_with_discount,
            percent_savings_text: self.percent_savings_text@,
            percent_savings: self.percent_savings,
            packageid: self.packageid,
            option_text: self.option_text@,
            option_description: self.option_description@,
            is_free_license: self.is_free_license,
            can_get_free_license: self.can_get_free_license@,
        }
    }
}

impl SubView {
    /// The value all of whose fields are zero.
    pub open spec fn zero() -> SubView {
        SubView {
            price_in_cents_with_discount: 0,
            percent_savings_text: Seq::empty(),
            percent_savings: 0,
            packageid: 0,
            option_text: Seq::empty(),
            option_description: Seq::empty(),
            is_free_license: false,
            can_get_free_license: Seq::empty(),
        }
    }

    /// What a document says: each field is read on its own, and one that is
    /// absent or of another type keeps its zero value.
    pub open spec fn of(doc: JsonValue) -> SubView {
        SubView {
            price_in_cents_with_discount: doc.integer_or_zero("price_in_cents_with_discount"@),
            percent_savings_text: doc.text_or_empty("percent_savings_text"@),
            percent_savings: doc.integer_or_zero("percent_savings"@),
            packageid: doc.integer_or_zero("packageid"@),
            option_text: doc.text_or_empty("option_text"@),
            option_description: doc.text_or_empty("option_description"@),
            is_free_license: doc.flag_or_false("is_free_license"@),
            can_get_free_license: doc.text_or_empty("can_get_free_license"@),
        }
    }

    /// One value for each element of an array, in order; nothing for a document
    /// that is no array.
    pub open spec fn list_of(doc: JsonValue) -> Seq<SubView> {
        match doc.items() {
            Some(items) => items.map_values(|item: JsonValue| SubView::of(item)),
            None => Seq::empty(),
        }
    }

    /// A document without members says nothing: every field keeps its zero value.
    pub proof fn lemma_nothing_read(doc: JsonValue)
        requires
            forall|key: Seq<char>| (#[trigger] doc.member(key)) is None,
        ensures
            SubView::of(doc) == SubView::zero(),
    {
    }

    /// A member that is absent leaves its field at the zero value, whatever the
    /// document holds besides.
    pub proof fn lemma_absent_member_leaves_zero(doc: JsonValue)
        ensures
            doc.member("price_in_cents_with_discount"@) is None
                ==> Self::of(doc).price_in_cents_with_discount
                == Self::zero().price_in_cents_with_discount,
            doc.member("percent_savings_text"@) is None ==> Self::of(doc).percent_savings_text
                == Self::zero().percent_savings_text,
            doc.member("percent_savings"@) is None ==> Self::of(doc).percent_savings
                == Self::zero().percent_savings,
            doc.member("packageid"@) is None ==> Self::of(doc).packageid == Self::zero().packageid,
            doc.member("option_text"@) is None ==> Self::of(doc).option_text
                == Self::zero().option_text,
            doc.member("option_description"@) is None ==> Self::of(doc).option_description
                == Self::zero().option_description,
            doc.member("is_free_license"@) is None ==> Self::of(doc).is_free_license
                == Self::zero().is_free_license,
            doc.member("can_get_free_license"@) is None ==> Self::of(doc).can_get_free_license
                == Self::zero().can_get_free_license,
    {
    }

    /// Whether a document states the value in full: it holds every field as a
    /// member of the field's own type.
    pub open spec fn is_stated_by(self, doc: JsonValue) -> bool {
        &&& doc.member("price_in_cents_with_discount"@) == Some(
            JsonValue::Number(Some(self.price_in_cents_with_discount)),
        )
        &&& doc.member("percent_savings_text"@) == Some(JsonValue::Text(self.percent_savings_text))
        &&& doc.member("percent_savings"@) == Some(JsonValue::Number(Some(self.percent_savings)))
        &&& doc.member("packageid"@) == Some(JsonValue::Number(Some(self.packageid)))
        &&& doc.member("option_text"@) == Some(JsonValue::Text(self.option_text))
        &&& doc.member("option_description"@) == Some(JsonValue::Text(self.option_description))
        &&& doc.member("is_free_license"@) == Some(JsonValue::Bool(self.is_free_license))
        &&& doc.member("can_get_free_license"@) == Some(JsonValue::Text(self.can_get_free_license))
    }

    /// What a document states in full is what is read from it.
    pub proof fn lemma_read_back(self, doc: JsonValue)
        requires
            self.is_stated_by(doc),
        ensures
            SubView::of(doc) == self,
    {
    }

    /// Whether an array states a list in full: element by element.
    pub open spec fn list_is_stated_by(list: Seq<SubView>, doc: JsonValue) -> bool {
        match doc.items() {
            Some(items) => items.len() == list.len() && forall|i: int|
                0 <= i < list.len() ==> (#[trigger] list[i]).is_stated_by(items[i]),
            None => false,
        }
    }

    /// What an array states in full is what is read from it.
    pub proof fn lemma_list_read_back(list: Seq<SubView>, doc: JsonValue)
        requires
            SubView::list_is_stated_by(list, doc),
        ensures
            SubView::list_of(doc) == list,
    {
        let items = doc.items()->Some_0;
        assert forall|i: int| 0 <= i < list.len() implies SubView::of(items[i]) == list[i] by {
            list[i].lemma_read_back(items[i]);
        }
        assert(SubView::list_of(doc) =~= list);
    }

    /// The document that states the value in full: an object with one member
    /// for every field.
    pub open spec fn document(self) -> JsonValue {
        JsonValue::Object(
            seq![
                (
                    "price_in_cents_with_discount"@,
                    JsonValue::Number(Some(self.price_in_cents_with_discount)),
                ),
                ("percent_savings_text"@, JsonValue::Text(self.percent_savings_text)),
                ("percent_savings"@, JsonValue::Number(Some(self.percent_savings))),
                ("packageid"@, JsonValue::Number(Some(self.packageid))),
                ("option_text"@, JsonValue::Text(self.option_text)),
                ("option_description"@, JsonValue::Text(self.option_description)),
                ("is_free_license"@, JsonValue::Bool(self.is_free_license)),
                ("can_get_free_license"@, JsonValue::Text(self.can_get_free_license)),
            ],
        )
    }

    /// The document of a value states the value in full.
    pub proof fn lemma_document_states(self)
        ensures
            self.is_stated_by(self.document()),
    {
        reveal_strlit("price_in_cents_with_discount");
        reveal_strlit("percent_savings_text");
        reveal_strlit("percent_savings");
        reveal_strlit("packageid");
        reveal_strlit("option_text");
        reveal_strlit("option_description");
        reveal_strlit("is_free_license");
        reveal_strlit("can_get_free_license");
        assert("price_in_cents_with_discount"@.len() == 28);
        assert("percent_savings_text"@.len() == 20);
        assert("percent_savings"@.len() == 15);
        assert("packageid"@.len() == 9);
        assert("option_text"@.len() == 11);
        assert("option_description"@.len() == 18);
        assert("is_free_license"@.len() == 15);
        assert("can_get_free_license"@.len() == 20);
        assert("percent_savings_text"@[0] == 'p');
        assert("percent_savings"@[0] == 'p');
        assert("is_free_license"@[0] == 'i');
        assert("can_get_free_license"@[0] == 'c');
        reveal_with_fuel(find_from, 9);
    }

    /// The array that states a list in full: the documents of its elements.
    pub open spec fn list_document(list: Seq<SubView>) -> JsonValue {
        JsonValue::Array(list.map_values(|item: SubView| item.document()))
    }

    /// The array of a list states the list in full.
    pub proof fn lemma_list_document_states(list: Seq<SubView>)
        ensures
            SubView::list_is_stated_by(list, SubView::list_document(list)),
    {
        let items = SubView::list_document(list).items()->Some_0;
        assert forall|i: int| 0 <= i < list.len() implies (#[trigger] list[i]).is_stated_by(
            items[i],
        ) by {
            list[i].lemma_document_states();
        }
    }
}

fn read_sub(doc: &Json) -> (record: Sub)
    ensures
        record@ == SubView::of(doc@),
{
    Sub {
        price_in_cents_with_discount: doc.integer_or_zero("price_in_cents_with_discount"),
        percent_savings_text: doc.text_or_empty("percent_savings_text"),
        percent_savings: doc.integer_or_zero("percent_savings"),
        packageid: doc.integer_or_zero("packageid"),
        option_text: doc.text_or_empty("option_text"),
        option_description: doc.text_or_empty("option_description"),
        is_free_license: doc.flag_or_false("is_free_license"),
        can_get_free_license: doc.text_or_empty("can_get_free_license"),
    }
}

fn read_sub_list(doc: &Json) -> (list: Vec<Sub>)
    ensures
        views(list@) == SubView::list_of(doc@),
{
    let mut list: Vec<Sub> = Vec::new();
    match doc.as_array() {
        Some(items) => {
            let mut i: usize = 0;
            while i < items.len()
                invariant
                    i <= items.len(),
                    list@.len() == i,
                    forall|k: int| 0 <= k < i ==> (#[trigger] list@[k])@ == SubView::of(items@[k]@),
                decreases items.len() - i,
            {
                list.push(read_sub(&items[i]));
                i = i + 1;
            }
            assert(views(list@) =~= SubView::list_of(doc@));
        },
        None => {
            assert(views(list@) =~= SubView::list_of(doc@));
        },
    }
    list
}

/// A group of purchase options.
#[derive(Debug, Clone, PartialEq, Eq)]
pub struct PackageGroup {
    pub title: String,
    pub selection_text: String,
    pub save_text: String,
    pub name: String,
    pub is_recurring_subscription: String,
    pub display_type: String,
    pub description: String,
    pub subs: Vec<Sub>,
}

/// A `PackageGroup` as a mathematical value.
pub struct PackageGroupView {
    pub title: Seq<char>,
    pub selection_text: Seq<char>,
    pub save_text: Seq<char>,
    pub name: Seq<char>,
    pub is_recurring_subscription: Seq<char>,
    pub display_type: Seq<char>,
    pub description: Seq<char>,
    pub subs: Seq<SubView>,
}

impl View for PackageGroup {
    type V = PackageGroupView;

    open spec fn view(&self) -> PackageGroupView {
        PackageGroupView {
            title: self.title@,
            selection_text: self.selection_text@,
            save_text: self.save_text@,
            name: self.name@,
            is_recurring_subscription: self.is_recurring_subscription@,
            display_type: self.display_type@,
            description: self.description@,
            subs: views(self.subs@),
        }
    }
}

impl PackageGroupView {
    /// The value all of whose fields are zero.
    pub open spec fn zero() -> PackageGroupView {
        PackageGroupView {
            title: Seq::empty(),
            selection_text: Seq::empty(),
            save_text: Seq::empty(),
            name: Seq::empty(),
            is_recurring_subscription: Seq::empty(),
            display_type: Seq::empty(),
            description: Seq::empty(),
            subs: Seq::empty(),
        }
    }

    /// What a document says: each field is read on its own, and one that is
    /// absent or of another type keeps its zero value.
    pub open spec fn of(doc: JsonValue) -> PackageGroupView {
        PackageGroupView {
            title: doc.text_or_empty("title"@),
            selection_text: doc.text_or_empty("selection_text"@),
            save_text: doc.text_or_empty("save_text"@),
            name: doc.text_or_empty("name"@),
            is_recurring_subscription: doc.text_or_empty("is_recurring_subscription"@),
            display_type: display_type_of(doc.at("display_type"@)),
            description: doc.text_or_empty("description"@),
            subs: SubView::list_of(doc.at("subs"@)),
        }
    }

    /// One value for each element of an array, in order; nothing for a document
    /// that is no array.
    pub open spec fn list_of(doc: JsonValue) -> Seq<PackageGroupView> {
        match doc.items() {
            Some(items) => items.map_values(|item: JsonValue| PackageGroupView::of(item)),
            None => Seq::empty(),
        }
    }

    /// A document without members says nothing: every field keeps its zero value.
    pub proof fn lemma_nothing_read(doc: JsonValue)
        requires
            forall|key: Seq<char>| (#[trigger] doc.member(key)) is None,
        ensures
            PackageGroupView::of(doc) == PackageGroupView::zero(),
    {
    }

    /// A member that is absent leaves its field at the zero value, whatever the
    /// document holds besides.
    pub proof fn lemma_absent_member_leaves_zero(doc: JsonValue)
        ensures
            doc.member("title"@) is None ==> Self::of(doc).title == Self::zero().title,
            doc.member("selection_text"@) is None ==> Self::of(doc).selection_text
                == Self::zero().selection_text,
            doc.member("save_text"@) is None ==> Self::of(doc).save_text == Self::zero().save_text,
            doc.member("name"@) is None ==> Self::of(doc).name == Self::zero().name,
            doc.member("is_recurring_subscription"@) is None
                ==> Self::of(doc).is_recurring_subscription
                == Self::zero().is_recurring_subscription,
            doc.member("display_type"@) is None ==> Self::of(doc).display_type
                == Self::zero().display_type,
            doc.member("description"@) is None ==> Self::of(doc).description
                == Self::zero().description,
            doc.member("subs"@) is None ==> Self::of(doc).subs == Self::zero().subs,
    {
    }

    /// Whether a document states the value in full: it holds every field as a
    /// member of the field's own type.
    pub open spec fn is_stated_by(self, doc: JsonValue) -> bool {
        &&& doc.member("title"@) == Some(JsonValue::Text(self.title))
        &&& doc.member("selection_text"@) == Some(JsonValue::Text(self.selection_text))
        &&& doc.member("save_text"@) == Some(JsonValue::Text(self.save_text))
        &&& doc.member("name"@) == Some(JsonValue::Text(self.name))
        &&& doc.member("is_recurring_subscription"@) == Some(
            JsonValue::Text(self.is_recurring_subscription),
        )
        &&& doc.member("display_type"@) == Some(JsonValue::Text(self.display_type))
        &&& doc.member("description"@) == Some(JsonValue::Text(self.description))
        &&& SubView::list_is_stated_by(self.subs, doc.at("subs"@))
    }

    /// What a document states in full is what is read from it.
    pub proof fn lemma_read_back(self, doc: JsonValue)
        requires
            self.is_stated_by(doc),
        ensures
            PackageGroupView::of(doc) == self,
    {
        SubView::lemma_list_read_back(self.subs, doc.at("subs"@));
    }

    /// Whether an array states a list in full: element by element.
    pub open spec fn list_is_stated_by(list: Seq<PackageGroupView>, doc: JsonValue) -> bool {
        match doc.items() {
            Some(items) => items.len() == list.len() && forall|i: int|
                0 <= i < list.len() ==> (#[trigger] list[i]).is_stated_by(items[i]),
            None => false,
        }
    }

    /// What an array states in full is what is read from it.
    pub proof fn lemma_list_read_back(list: Seq<PackageGroupView>, doc: JsonValue)
        requires
            PackageGroupView::list_is_stated_by(list, doc),
        ensures
            PackageGroupView::list_of(doc) == list,
    {
        let items = doc.items()->Some_0;
        assert forall|i: int| 0 <= i < list.len() implies PackageGroupView::of(items[i])
            == list[i] by {
            list[i].lemma_read_back(items[i]);
        }
        assert(PackageGroupView::list_of(doc) =~= list);
    }

    /// The document that states the value in full: an object with one member
    /// for every field.
    pub open spec fn document(self) -> JsonValue {
        JsonValue::Object(
            seq![
                ("title"@, JsonValue::Text(self.title)),
                ("selection_text"@, JsonValue::Text(self.selection_text)),
                ("save_text"@, JsonValue::Text(self.save_text)),
                ("name"@, JsonValue::Text(self.name)),
                ("is_recurring_subscription"@, JsonValue::Text(self.is_recurring_subscription)),
                ("display_type"@, JsonValue::Text(self.display_type)),
                ("description"@, JsonValue::Text(self.description)),
                ("subs"@, SubView::list_document(self.subs)),
            ],
        )
    }

    /// The document of a value states the value in full.
    pub proof fn lemma_document_states(self)
        ensures
            self.is_stated_by(self.document()),
    {
        reveal_strlit("title");
        reveal_strlit("selection_text");
        reveal_strlit("save_text");
        reveal_strlit("name");
        reveal_strlit("is_recurring_subscription");
        reveal_strlit("display_type");
        reveal_strlit("description");
        reveal_strlit("subs");
        assert("title"@.len() == 5);
        assert("selection_text"@.len() == 14);
        assert("save_text"@.len() == 9);
        assert("name"@.len() == 4);
        assert("is_recurring_subscription"@.len() == 25);
        assert("display_type"@.len() == 12);
        assert("description"@.len() == 11);
        assert("subs"@.len() == 4);
        assert("name"@[0] == 'n');
        assert("subs"@[0] == 's');
        SubView::lemma_list_document_states(self.subs);
        reveal_with_fuel(find_from, 9);
    }

    /// The array that states a list in full: the documents of its elements.
    pub open spec fn list_document(list: Seq<PackageGroupView>) -> JsonValue {
        JsonValue::Array(list.map_values(|item: PackageGroupView| item.document()))
    }

    /// The array of a list states the list in full.
    pub proof fn lemma_list_document_states(list: Seq<PackageGroupView>)
        ensures
            PackageGroupView::list_is_stated_by(list, PackageGroupView::list_document(list)),
    {
        let items = PackageGroupView::list_document(list).items()->Some_0;
        assert forall|i: int| 0 <= i < list.len() implies (#[trigger] list[i]).is_stated_by(
            items[i],
        ) by {
            list[i].lemma_document_states();
        }
    }
}

fn read_package_group(doc: &Json) -> (record: PackageGroup)
    ensures
        record@ == PackageGroupView::of(doc@),
{
    let null = Json::Null;
    PackageGroup {
        title: doc.text_or_empty("title"),
        selection_text: doc.text_or_empty("selection_text"),
        save_text: doc.text_or_empty("save_text"),
        name: doc.text_or_empty("name"),
        is_recurring_subscription: doc.text_or_empty("is_recurring_subscription"),
        display_type: read_display_type(doc.get_or("display_type", &null)),
        description: doc.text_or_empty("description"),
        subs: parse_package_groups_subs(doc),
    }
}

/// Reads the package groups of an app: one for each element of the array, none from a
/// document that is no array.
pub fn parse_package_groups(doc: &Json) -> (list: Vec<PackageGroup>)
    ensures
        views(list@) == PackageGroupView::list_of(doc@),
{
    let mut list: Vec<PackageGroup> = Vec::new();
    match doc.as_array() {
        Some(items) => {
            let mut i: usize = 0;
            while i < items.len()
                invariant
                    i <= items.len(),
                    list@.len() == i,
                    forall|k: int| 0 <= k < i ==> (#[trigger] list@[k])@
                        == PackageGroupView::of(items@[k]@),
                decreases items.len() - i,
            {
                list.push(read_package_group(&items[i]));
                i = i + 1;
            }
            assert(views(list@) =~= PackageGroupView::list_of(doc@));
        },
        None => {
            assert(views(list@) =~= PackageGroupView::list_of(doc@));
        },
    }
    list
}

/// The MP4 encodings of a movie.
#[derive(Debug, Clone, PartialEq, Eq)]
pub struct Mp4 {
    pub max: String,
    pub _480: String,
}

/// A `Mp4` as a mathematical value.
pub struct Mp4View {
    pub max: Seq<char>,
    pub _480: Seq<char>,
}

impl View for Mp4 {
    type V = Mp4View;

    open spec fn view(&self) -> Mp4View {
        Mp4View {
            max: self.max@,
            _480: self._480@,
        }
    }
}

impl Mp4View {
    /// The value all of whose fields are zero.
    pub open spec fn zero() -> Mp4View {
        Mp4View {
            max: Seq::empty(),
            _480: Seq::empty(),
        }
    }

    /// What a document says: each field is read on its own, and one that is
    /// absent or of another type keeps its zero value.
    pub open spec fn of(doc: JsonValue) -> Mp4View {
        Mp4View {
            max: doc.text_or_empty("max"@),
            _480: doc.text_or_empty("480"@),
        }
    }

    /// A document without members says nothing: every field keeps its zero value.
    pub proof fn lemma_nothing_read(doc: JsonValue)
        requires
            forall|key: Seq<char>| (#[trigger] doc.member(key)) is None,
        ensures
            Mp4View::of(doc) == Mp4View::zero(),
    {
    }

    /// A member that is absent leaves its field at the zero value, whatever the
    /// document holds besides.
    pub proof fn lemma_absent_member_leaves_zero(doc: JsonValue)
        ensures
            doc.member("max"@) is None ==> Self::of(doc).max == Self::zero().max,
            doc.member("480"@) is None ==> Self::of(doc)._480 == Self::zero()._480,
    {
    }

    /// Whether a document states the value in full: it holds every field as a
    /// member of the field's own type.
    pub open spec fn is_stated_by(self, doc: JsonValue) -> bool {
        &&& doc.member("max"@) == Some(JsonValue::Text(self.max))
        &&& doc.member("480"@) == Some(JsonValue::Text(self._480))
    }

    /// What a document states in full is what is read from it.
    pub proof fn lemma_read_back(self, doc: JsonValue)
        requires
            self.is_stated_by(doc),
        ensures
            Mp4View::of(doc) == self,
    {
    }

    /// The document that states the value in full: an object with one member
    /// for every field.
    pub open spec fn document(self) -> JsonValue {
        JsonValue::Object(
            seq![
                ("max"@, JsonValue::Text(self.max)),
                ("480"@, JsonValue::Text(self._480)),
            ],
        )
    }

    /// The document of a value states the value in full.
    pub proof fn lemma_document_states(self)
        ensures
            self.is_stated_by(self.document()),
    {
        reveal_strlit("max");
        reveal_strlit("480");
        assert("max"@.len() == 3);
        assert("480"@.len() == 3);
        assert("max"@[0] == 'm');
        assert("480"@[0] == '4');
        reveal_with_fuel(find_from, 3);
    }
}

fn read_mp4(doc: &Json) -> (record: Mp4)
    ensures
        record@ == Mp4View::of(doc@),
{
    Mp4 {
        max: doc.text_or_empty("max"),
        _480: doc.text_or_empty("480"),
    }
}

/// The WebM encodings of a movie.
#[derive(Debug, Clone, PartialEq, Eq)]
pub struct Webm {
    pub max: String,
    pub dash: String,
    pub _480: String,
}

/// A `Webm` as a mathematical value.
pub struct WebmView {
    pub max: Seq<char>,
    pub dash: Seq<char>,
    pub _480: Seq<char>,
}

impl View for Webm {
    type V = WebmView;

    open spec fn view(&self) -> WebmView {
        WebmView {
            max: self.max@,
            dash: self.dash@,
            _480: self._480@,
        }
    }
}

impl WebmView {
    /// The value all of whose fields are zero.
    pub open spec fn zero() -> WebmView {
        WebmView {
            max: Seq::empty(),
            dash: Seq::empty(),
            _480: Seq::empty(),
        }
    }

    /// What a document says: each field is read on its own, and one that is
    /// absent or of another type keeps its zero value.
    pub open spec fn of(doc: JsonValue) -> WebmView {
        WebmView {
            max: doc.text_or_empty("max"@),
            dash: doc.text_or_empty("dash"@),
            _480: doc.text_or_empty("480"@),
        }
    }

    /// A document without members says nothing: every field keeps its zero value.
    pub proof fn lemma_nothing_read(doc: JsonValue)
        requires
            forall|key: Seq<char>| (#[trigger] doc.member(key)) is None,
        ensures
            WebmView::of(doc) == WebmView::zero(),
    {
    }

    /// A member that is absent leaves its field at the zero value, whatever the
    /// document holds besides.
    pub proof fn lemma_absent_member_leaves_zero(doc: JsonValue)
        ensures
            doc.member("max"@) is None ==> Self::of(doc).max == Self::zero().max,
            doc.member("dash"@) is None ==> Self::of(doc).dash == Self::zero().dash,
            doc.member("480"@) is None ==> Self::of(doc)._480 == Self::zero()._480,
    {
    }

    /// Whether a document states the value in full: it holds every field as a
    /// member of the field's own type.
    pub open spec fn is_stated_by(self, doc: JsonValue) -> bool {
        &&& doc.member("max"@) == Some(JsonValue::Text(self.max))
        &&& doc.member("dash"@) == Some(JsonValue::Text(self.dash))
        &&& doc.member("480"@) == Some(JsonValue::Text(self._480))
    }

    /// What a document states in full is what is read from it.
    pub proof fn lemma_read_back(self, doc: JsonValue)
        requires
            self.is_stated_by(doc),
        ensures
            WebmView::of(doc) == self,
    {
    }

    /// The document that states the value in full: an object with one member
    /// for every field.
    pub open spec fn document(self) -> JsonValue {
        JsonValue::Object(
            seq![
                ("max"@, JsonValue::Text(self.max)),
                ("dash"@, JsonValue::Text(self.dash)),
                ("480"@, JsonValue::Text(self._480)),
            ],
        )
    }

    /// The document of a value states the value in full.
    pub proof fn lemma_document_states(self)
        ensures
            self.is_stated_by(self.document()),
    {
        reveal_strlit("max");
        reveal_strlit("dash");
        reveal_strlit("480");
        assert("max"@.len() == 3);
        assert("dash"@.len() == 4);
        assert("480"@.len() == 3);
        assert("max"@[0] == 'm');
        assert("480"@[0] == '4');
        reveal_with_fuel(find_from, 4);
    }
}

fn read_webm(doc: &Json) -> (record: Webm)
    ensures
        record@ == WebmView::of(doc@),
{
    Webm {
        max: doc.text_or_empty("max"),
        dash: doc.text_or_empty("dash"),
        _480: doc.text_or_empty("480"),
    }
}

/// One trailer or other movie.
#[derive(Debug, Clone, PartialEq, Eq)]
pub struct Movie {
    pub thumbnail: String,
    pub name: String,
    pub id: i64,
    pub highlight: bool,
    pub webm: Webm,
    pub mp4: Mp4,
}

/// A `Movie` as a mathematical value.
pub struct MovieView {
    pub thumbnail: Seq<char>,
    pub name: Seq<char>,
    pub id: i64,
    pub highlight: bool,
    pub webm: WebmView,
    pub mp4: Mp4View,
}

impl View for Movie {
    type V = MovieView;

    open spec fn view(&self) -> MovieView {
        MovieView {
            thumbnail: self.thumbnail@,
            name: self.name@,
            id: self.id,
            highlight: self.highlight,
            webm: self.webm@,
            mp4: self.mp4@,
        }
    }
}

impl MovieView {
    /// The value all of whose fields are zero.
    pub open spec fn zero() -> MovieView {
        MovieView {
            thumbnail: Seq::empty(),
            name: Seq::empty(),
            id: 0,
            highlight: false,
            webm: WebmView::zero(),
            mp4: Mp4View::zero(),
        }
    }

    /// What a document says: each field is read on its own, and one that is
    /// absent or of another type keeps its zero value.
    pub open spec fn of(doc: JsonValue) -> MovieView {
        MovieView {
            thumbnail: doc.text_or_empty("thumbnail"@),
            name: doc.text_or_empty("name"@),
            id: doc.integer_or_zero("id"@),
            highlight: doc.flag_or_false("highlight"@),
            webm: WebmView::of(doc.at("webm"@)),
            mp4: Mp4View::of(doc.at("mp4"@)),
        }
    }

    /// One value for each element of an array, in order; nothing for a document
    /// that is no array.
    pub open spec fn list_of(doc: JsonValue) -> Seq<MovieView> {
        match doc.items() {
            Some(items) => items.map_values(|item: JsonValue| MovieView::of(item)),
            None => Seq::empty(),
        }
    }

    /// A document without members says nothing: every field keeps its zero value.
    pub proof fn lemma_nothing_read(doc: JsonValue)
        requires
            forall|key: Seq<char>| (#[trigger] doc.member(key)) is None,
        ensures
            MovieView::of(doc) == MovieView::zero(),
    {
        WebmView::lemma_nothing_read(JsonValue::Null);
        Mp4View::lemma_nothing_read(JsonValue::Null);
    }

    /// A member that is absent leaves its field at the zero value, whatever the
    /// document holds besides.
    pub proof fn lemma_absent_member_leaves_zero(doc: JsonValue)
        ensures
            doc.member("thumbnail"@) is None ==> Self::of(doc).thumbnail == Self::zero().thumbnail,
            doc.member("name"@) is None ==> Self::of(doc).name == Self::zero().name,
            doc.member("id"@) is None ==> Self::of(doc).id == Self::zero().id,
            doc.member("highlight"@) is None ==> Self::of(doc).highlight == Self::zero().highlight,
            doc.member("webm"@) is None ==> Self::of(doc).webm == Self::zero().webm,
            doc.member("mp4"@) is None ==> Self::of(doc).mp4 == Self::zero().mp4,
    {
        WebmView::lemma_nothing_read(JsonValue::Null);
        Mp4View::lemma_nothing_read(JsonValue::Null);
    }

    /// Whether a document states the value in full: it holds every field as a
    /// member of the field's own type.
    pub open spec fn is_stated_by(self, doc: JsonValue) -> bool {
        &&& doc.member("thumbnail"@) == Some(JsonValue::Text(self.thumbnail))
        &&& doc.member("name"@) == Some(JsonValue::Text(self.name))
        &&& doc.member("id"@) == Some(JsonValue::Number(Some(self.id)))
        &&& doc.member("highlight"@) == Some(JsonValue::Bool(self.highlight))
        &&& self.webm.is_stated_by(doc.at("webm"@))
        &&& self.mp4.is_stated_by(doc.at("mp4"@))
    }

    /// What a document states in full is what is read from it.
    pub proof fn lemma_read_back(self, doc: JsonValue)
        requires
            self.is_stated_by(doc),
        ensures
            MovieView::of(doc) == self,
    {
        self.webm.lemma_read_back(doc.at("webm"@));
        self.mp4.lemma_read_back(doc.at("mp4"@));
    }

    /// Whether an array states a list in full: element by element.
    pub open spec fn list_is_stated_by(list: Seq<MovieView>, doc: JsonValue) -> bool {
        match doc.items() {
            Some(items) => items.len() == list.len() && forall|i: int|
                0 <= i < list.len() ==> (#[trigger] list[i]).is_stated_by(items[i]),
            None => false,
        }
    }

    /// What an array states in full is what is read from it.
    pub proof fn lemma_list_read_back(list: Seq<MovieView>, doc: JsonValue)
        requires
            MovieView::list_is_stated_by(list, doc),
        ensures
            MovieView::list_of(doc) == list,
    {
        let items = doc.items()->Some_0;
        assert forall|i: int| 0 <= i < list.len() implies MovieView::of(items[i]) == list[i] by {
            list[i].lemma_read_back(items[i]);
        }
        assert(MovieView::list_of(doc) =~= list);
    }

    /// The document that states the value in full: an object with one member
    /// for every field.
    pub open spec fn document(self) -> JsonValue {
        JsonValue::Object(
            seq![
                ("thumbnail"@, JsonValue::Text(self.thumbnail)),
                ("name"@, JsonValue::Text(self.name)),
                ("id"@, JsonValue::Number(Some(self.id))),
                ("highlight"@, JsonValue::Bool(self.highlight)),
                ("webm"@, self.webm.document()),
                ("mp4"@, self.mp4.document()),
            ],
        )
    }

    /// The document of a value states the value in full.
    pub proof fn lemma_document_states(self)
        ensures
            self.is_stated_by(self.document()),
    {
        reveal_strlit("thumbnail");
        reveal_strlit("name");
        reveal_strlit("id");
        reveal_strlit("highlight");
        reveal_strlit("webm");
        reveal_strlit("mp4");
        assert("thumbnail"@.len() == 9);
        assert("name"@.len() == 4);
        assert("id"@.len() == 2);
        assert("highlight"@.len() == 9);
        assert("webm"@.len() == 4);
        assert("mp4"@.len() == 3);
        assert("thumbnail"@[0] == 't');
        assert("name"@[0] == 'n');
        assert("highlight"@[0] == 'h');
        assert("webm"@[0] == 'w');
        self.webm.lemma_document_states();
        self.mp4.lemma_document_states();
        reveal_with_fuel(find_from, 7);
    }

    /// The array that states a list in full: the documents of its elements.
    pub open spec fn list_document(list: Seq<MovieView>) -> JsonValue {
        JsonValue::Array(list.map_values(|item: MovieView| item.document()))
    }

    /// The array of a list states the list in full.
    pub proof fn lemma_list_document_states(list: Seq<MovieView>)
        ensures
            MovieView::list_is_stated_by(list, MovieView::list_document(list)),
    {
        let items = MovieView::list_document(list).items()->Some_0;
        assert forall|i: int| 0 <= i < list.len() implies (#[trigger] list[i]).is_stated_by(
            items[i],
        ) by {
            list[i].lemma_document_states();
        }
    }
}

fn read_movie(doc: &Json) -> (record: Movie)
    ensures
        record@ == MovieView::of(doc@),
{
    let null = Json::Null;
    Movie {
        thumbnail: doc.text_or_empty("thumbnail"),
        name: doc.text_or_empty("name"),
        id: doc.integer_or_zero("id"),
        highlight: doc.flag_or_false("highlight"),
        webm: read_webm(doc.get_or("webm", &null)),
        mp4: read_mp4(doc.get_or("mp4", &null)),
    }
}

/// Reads the movies of an app: one for each element of the array, none from a
/// document that is no array.
pub fn parse_movies(doc: &Json) -> (list: Vec<Movie>)
    ensures
        views(list@) == MovieView::list_of(doc@),
{
    let mut list: Vec<Movie> = Vec::new();
    match doc.as_array() {
        Some(items) => {
            let mut i: usize = 0;
            while i < items.len()
                invariant
                    i <= items.len(),
                    list@.len() == i,
                    forall|k: int| 0 <= k < i ==> (#[trigger] list@[k])@
                        == MovieView::of(items@[k]@),
                decreases items.len() - i,
            {
                list.push(read_movie(&items[i]));
                i = i + 1;
            }
            assert(views(list@) =~= MovieView::list_of(doc@));
        },
        None => {
            assert(views(list@) =~= MovieView::list_of(doc@));
        },
    }
    list
}

/// The app's score on Metacritic.
#[derive(Debug, Clone, PartialEq, Eq)]
pub struct Metacritic {
    pub url: String,
    pub score: i64,
}

/// A `Metacritic` as a mathematical value.
pub struct MetacriticView {
    pub url: Seq<char>,
    pub score: i64,
}

impl View for Metacritic {
    type V = MetacriticView;

    open spec fn view(&self) -> MetacriticView {
        MetacriticView {
            url: self.url@,
            score: self.score,
        }
    }
}

impl MetacriticView {
    /// The value all of whose fields are zero.
    pub open spec fn zero() -> MetacriticView {
        MetacriticView {
            url: Seq::empty(),
            score: 0,
        }
    }

    /// What a document says: each field is read on its own, and one that is
    /// absent or of another type keeps its zero value.
    pub open spec fn of(doc: JsonValue) -> MetacriticView {
        MetacriticView {
            url: doc.text_or_empty("url"@),
            score: doc.integer_or_zero("score"@),
        }
    }

    /// A document without members says nothing: every field keeps its zero value.
    pub proof fn lemma_nothing_read(doc: JsonValue)
        requires
            forall|key: Seq<char>| (#[trigger] doc.member(key)) is None,
        ensures
            MetacriticView::of(doc) == MetacriticView::zero(),
    {
    }

    /// A member that is absent leaves its field at the zero value, whatever the
    /// document holds besides.
    pub proof fn lemma_absent_member_leaves_zero(doc: JsonValue)
        ensures
            doc.member("url"@) is None ==> Self::of(doc).url == Self::zero().url,
            doc.member("score"@) is None ==> Self::of(doc).score == Self::zero().score,
    {
    }

    /// Whether a document states the value in full: it holds every field as a
    /// member of the field's own type.
    pub open spec fn is_stated_by(self, doc: JsonValue) -> bool {
        &&& doc.member("url"@) == Some(JsonValue::Text(self.url))
        &&& doc.member("score"@) == Some(JsonValue::Number(Some(self.score)))
    }

    /// What a document states in full is what is read from it.
    pub proof fn lemma_read_back(self, doc: JsonValue)
        requires
            self.is_stated_by(doc),
        ensures
            MetacriticView::of(doc) == self,
    {
    }

    /// The document that states the value in full: an object with one member
    /// for every field.
    pub open spec fn document(self) -> JsonValue {
        JsonValue::Object(
            seq![
                ("url"@, JsonValue::Text(self.url)),
                ("score"@, JsonValue::Number(Some(self.score))),
            ],
        )
    }

    /// The document of a value states the value in full.
    pub proof fn lemma_document_states(self)
        ensures
            self.is_stated_by(self.document()),
    {
        reveal_strlit("url");
        reveal_strlit("score");
        assert("url"@.len() == 3);
        assert("score"@.len() == 5);
        reveal_with_fuel(find_from, 3);
    }
}

fn read_metacritic(doc: &Json) -> (record: Metacritic)
    ensures
        record@ == MetacriticView::of(doc@),
{
    Metacritic {
        url: doc.text_or_empty("url"),
        score: doc.integer_or_zero("score"),
    }
}

/// A genre that the app belongs to.
#[derive(Debug, Clone, PartialEq, Eq)]
pub struct Genre {
    pub id: String,
    pub description: String,
}

/// A `Genre` as a mathematical value.
pub struct GenreView {
    pub id: Seq<char>,
    pub description: Seq<char>,
}

impl View for Genre {
    type V = GenreView;

    open spec fn view(&self) -> GenreView {
        GenreView {
            id: self.id@,
            description: self.description@,
        }
    }
}

impl GenreView {
    /// The value all of whose fields are zero.
    pub open spec fn zero() -> GenreView {
        GenreView {
            id: Seq::empty(),
            description: Seq::empty(),
        }
    }

    /// What a document says: each field is read on its own, and one that is
    /// absent or of another type keeps its zero value.
    pub open spec fn of(doc: JsonValue) -> GenreView {
        GenreView {
            id: doc.text_or_empty("id"@),
            description: doc.text_or_empty("description"@),
        }
    }

    /// One value for each element of an array, in order; nothing for a document
    /// that is no array.
    pub open spec fn list_of(doc: JsonValue) -> Seq<GenreView> {
        match doc.items() {
            Some(items) => items.map_values(|item: JsonValue| GenreView::of(item)),
            None => Seq::empty(),
        }
    }

    /// A document without members says nothing: every field keeps its zero value.
    pub proof fn lemma_nothing_read(doc: JsonValue)
        requires
            forall|key: Seq<char>| (#[trigger] doc.member(key)) is None,
        ensures
            GenreView::of(doc) == GenreView::zero(),
    {
    }

    /// A member that is absent leaves its field at the zero value, whatever the
    /// document holds besides.
    pub proof fn lemma_absent_member_leaves_zero(doc: JsonValue)
        ensures
            doc.member("id"@) is None ==> Self::of(doc).id == Self::zero().id,
            doc.member("description"@) is None ==> Self::of(doc).description
                == Self::zero().description,
    {
    }

    /// Whether a document states the value in full: it holds every field as a
    /// member of the field's own type.
    pub open spec fn is_stated_by(self, doc: JsonValue) -> bool {
        &&& doc.member("id"@) == Some(JsonValue::Text(self.id))
        &&& doc.member("description"@) == Some(JsonValue::Text(self.description))
    }

    /// What a document states in full is what is read from it.
    pub proof fn lemma_read_back(self, doc: JsonValue)
        requires
            self.is_stated_by(doc),
        ensures
            GenreView::of(doc) == self,
    {
    }

    /// Whether an array states a list in full: element by element.
    pub open spec fn list_is_stated_by(list: Seq<GenreView>, doc: JsonValue) -> bool {
        match doc.items() {
            Some(items) => items.len() == list.len() && forall|i: int|
                0 <= i < list.len() ==> (#[trigger] list[i]).is_stated_by(items[i]),
            None => false,
        }
    }

    /// What an array states in full is what is read from it.
    pub proof fn lemma_list_read_back(list: Seq<GenreView>, doc: JsonValue)
        requires
            GenreView::list_is_stated_by(list, doc),
        ensures
            GenreView::list_of(doc) == list,
    {
        let items = doc.items()->Some_0;
        assert forall|i: int| 0 <= i < list.len() implies GenreView::of(items[i]) == list[i] by {
            list[i].lemma_read_back(items[i]);
        }
        assert(GenreView::list_of(doc) =~= list);
    }

    /// The document that states the value in full: an object with one member
    /// for every field.
    pub open spec fn document(self) -> JsonValue {
        JsonValue::Object(
            seq![
                ("id"@, JsonValue::Text(self.id)),
                ("description"@, JsonValue::Text(self.description)),
            ],
        )
    }

    /// The document of a value states the value in full.
    pub proof fn lemma_document_states(self)
        ensures
            self.is_stated_by(self.document()),
    {
        reveal_strlit("id");
        reveal_strlit("description");
        assert("id"@.len() == 2);
        assert("description"@.len() == 11);
        reveal_with_fuel(find_from, 3);
    }

    /// The array that states a list in full: the documents of its elements.
    pub open spec fn list_document(list: Seq<GenreView>) -> JsonValue {
        JsonValue::Array(list.map_values(|item: GenreView| item.document()))
    }

    /// The array of a list states the list in full.
    pub proof fn lemma_list_document_states(list: Seq<GenreView>)
        ensures
            GenreView::list_is_stated_by(list, GenreView::list_document(list)),
    {
        let items = GenreView::list_document(list).items()->Some_0;
        assert forall|i: int| 0 <= i < list.len() implies (#[trigger] list[i]).is_stated_by(
            items[i],
        ) by {
            list[i].lemma_document_states();
        }
    }
}

fn read_genre(doc: &Json) -> (record: Genre)
    ensures
        record@ == GenreView::of(doc@),
{
    Genre {
        id: doc.text_or_empty("id"),
        description: doc.text_or_empty("description"),
    }
}

fn read_genre_list(doc: &Json) -> (list: Vec<Genre>)
    ensures
        views(list@) == GenreView::list_of(doc@),
{
    let mut list: Vec<Genre> = Vec::new();
    match doc.as_array() {
        Some(items) => {
            let mut i: usize = 0;
            while i < items.len()
                invariant
                    i <= items.len(),
                    list@.len() == i,
                    forall|k: int| 0 <= k < i ==> (#[trigger] list@[k])@
                        == GenreView::of(items@[k]@),
                decreases items.len() - i,
            {
                list.push(read_genre(&items[i]));
                i = i + 1;
            }
            assert(views(list@) =~= GenreView::list_of(doc@));
        },
        None => {
            assert(views(list@) =~= GenreView::list_of(doc@));
        },
    }
    list
}

/// The full game that a demo or an add-on belongs to.
#[derive(Debug, Clone, PartialEq, Eq)]
pub struct FullGame {
    pub name: String,
    pub appid: String,
}

/// A `FullGame` as a mathematical value.
pub struct FullGameView {
    pub name: Seq<char>,
    pub appid: Seq<char>,
}

impl View for FullGame {
    type V = FullGameView;

    open spec fn view(&self) -> FullGameView {
        FullGameView {
            name: self.name@,
            appid: self.appid@,
        }
    }
}

impl FullGameView {
    /// The value all of whose fields are zero.
    pub open spec fn zero() -> FullGameView {
        FullGameView {
            name: Seq::empty(),
            appid: Seq::empty(),
        }
    }

    /// What a document says: each field is read on its own, and one that is
    /// absent or of another type keeps its zero value.
    pub open spec fn of(doc: JsonValue) -> FullGameView {
        FullGameView {
            name: doc.text_or_empty("name"@),
            appid: doc.text_or_empty("appid"@),
        }
    }

    /// A document without members says nothing: every field keeps its zero value.
    pub proof fn lemma_nothing_read(doc: JsonValue)
        requires
            forall|key: Seq<char>| (#[trigger] doc.member(key)) is None,
        ensures
            FullGameView::of(doc) == FullGameView::zero(),
    {
    }

    /// A member that is absent leaves its field at the zero value, whatever the
    /// document holds besides.
    pub proof fn lemma_absent_member_leaves_zero(doc: JsonValue)
        ensures
            doc.member("name"@) is None ==> Self::of(doc).name == Self::zero().name,
            doc.member("appid"@) is None ==> Self::of(doc).appid == Self::zero().appid,
    {
    }

    /// Whether a document states the value in full: it holds every field as a
    /// member of the field's own type.
    pub open spec fn is_stated_by(self, doc: JsonValue) -> bool {
        &&& doc.member("name"@) == Some(JsonValue::Text(self.name))
        &&& doc.member("appid"@) == Some(JsonValue::Text(self.appid))
    }

    /// What a document states in full is what is read from it.
    pub proof fn lemma_read_back(self, doc: JsonValue)
        requires
            self.is_stated_by(doc),
        ensures
            FullGameView::of(doc) == self,
    {
    }

    /// The document that states the value in full: an object with one member
    /// for every field.
    pub open spec fn document(self) -> JsonValue {
        JsonValue::Object(
            seq![
                ("name"@, JsonValue::Text(self.name)),
                ("appid"@, JsonValue::Text(self.appid)),
            ],
        )
    }

    /// The document of a value states the value in full.
    pub proof fn lemma_document_states(self)
        ensures
            self.is_stated_by(self.document()),
    {
        reveal_strlit("name");
        reveal_strlit("appid");
        assert("name"@.len() == 4);
        assert("appid"@.len() == 5);
        reveal_with_fuel(find_from, 3);
    }
}

fn read_full_game(doc: &Json) -> (record: FullGame)
    ensures
        record@ == FullGameView::of(doc@),
{
    FullGame {
        name: doc.text_or_empty("name"),
        appid: doc.text_or_empty("appid"),
    }
}

/// A demo of the app.
#[derive(Debug, Clone, PartialEq, Eq)]
pub struct Demo {
    pub description: String,
    pub appid: i64,
}

/// A `Demo` as a mathematical value.
pub struct DemoView {
    pub description: Seq<char>,
    pub appid: i64,
}

impl View for Demo {
    type V = DemoView;

    open spec fn view(&self) -> DemoView {
        DemoView {
            description: self.description@,
            appid: self.appid,
        }
    }
}

impl DemoView {
    /// The value all of whose fields are zero.
    pub open spec fn zero() -> DemoView {
        DemoView {
            description: Seq::empty(),
            appid: 0,
        }
    }

    /// What a document says: each field is read on its own, and one that is
    /// absent or of another type keeps its zero value.
    pub open spec fn of(doc: JsonValue) -> DemoView {
        DemoView {
            description: doc.text_or_empty("description"@),
            appid: doc.integer_or_zero("appid"@),
        }
    }

    /// One value for each element of an array, in order; nothing for a document
    /// that is no array.
    pub open spec fn list_of(doc: JsonValue) -> Seq<DemoView> {
        match doc.items() {
            Some(items) => items.map_values(|item: JsonValue| DemoView::of(item)),
            None => Seq::empty(),
        }
    }

    /// A document without members says nothing: every field keeps its zero value.
    pub proof fn lemma_nothing_read(doc: JsonValue)
        requires
            forall|key: Seq<char>| (#[trigger] doc.member(key)) is None,
        ensures
            DemoView::of(doc) == DemoView::zero(),
    {
    }

    /// A member that is absent leaves its field at the zero value, whatever the
    /// document holds besides.
    pub proof fn lemma_absent_member_leaves_zero(doc: JsonValue)
        ensures
            doc.member("description"@) is None ==> Self::of(doc).description
                == Self::zero().description,
            doc.member("appid"@) is None ==> Self::of(doc).appid == Self::zero().appid,
    {
    }

    /// Whether a document states the value in full: it holds every field as a
    /// member of the field's own type.
    pub open spec fn is_stated_by(self, doc: JsonValue) -> bool {
        &&& doc.member("description"@) == Some(JsonValue::Text(self.description))
        &&& doc.member("appid"@) == Some(JsonValue::Number(Some(self.appid)))
    }

    /// What a document states in full is what is read from it.
    pub proof fn lemma_read_back(self, doc: JsonValue)
        requires
            self.is_stated_by(doc),
        ensures
            DemoView::of(doc) == self,
    {
    }

    /// Whether an array states a list in full: element by element.
    pub open spec fn list_is_stated_by(list: Seq<DemoView>, doc: JsonValue) -> bool {
        match doc.items() {
            Some(items) => items.len() == list.len() && forall|i: int|
                0 <= i < list.len() ==> (#[trigger] list[i]).is_stated_by(items[i]),
            None => false,
        }
    }

    /// What an array states in full is what is read from it.
    pub proof fn lemma_list_read_back(list: Seq<DemoView>, doc: JsonValue)
        requires
            DemoView::list_is_stated_by(list, doc),
        ensures
            DemoView::list_of(doc) == list,
    {
        let items = doc.items()->Some_0;
        assert forall|i: int| 0 <= i < list.len() implies DemoView::of(items[i]) == list[i] by {
            list[i].lemma_read_back(items[i]);
        }
        assert(DemoView::list_of(doc) =~= list);
    }

    /// The document that states the value in full: an object with one member
    /// for every field.
    pub open spec fn document(self) -> JsonValue {
        JsonValue::Object(
            seq![
                ("description"@, JsonValue::Text(self.description)),
                ("appid"@, JsonValue::Number(Some(self.appid))),
            ],
        )
    }

    /// The document of a value states the value in full.
    pub proof fn lemma_document_states(self)
        ensures
            self.is_stated_by(self.document()),
    {
        reveal_strlit("description");
        reveal_strlit("appid");
        assert("description"@.len() == 11);
        assert("appid"@.len() == 5);
        reveal_with_fuel(find_from, 3);
    }

    /// The array that states a list in full: the documents of its elements.
    pub open spec fn list_document(list: Seq<DemoView>) -> JsonValue {
        JsonValue::Array(list.map_values(|item: DemoView| item.document()))
    }

    /// The array of a list states the list in full.
    pub proof fn lemma_list_document_states(list: Seq<DemoView>)
        ensures
            DemoView::list_is_stated_by(list, DemoView::list_document(list)),
    {
        let items = DemoView::list_document(list).items()->Some_0;
        assert forall|i: int| 0 <= i < list.len() implies (#[trigger] list[i]).is_stated_by(
            items[i],
        ) by {
            list[i].lemma_document_states();
        }
    }
}

fn read_demo(doc: &Json) -> (record: Demo)
    ensures
        record@ == DemoView::of(doc@),
{
    Demo {
        description: doc.text_or_empty("description"),
        appid: doc.integer_or_zero("appid"),
    }
}

fn read_demo_list(doc: &Json) -> (list: Vec<Demo>)
    ensures
        views(list@) == DemoView::list_of(doc@),
{
    let mut list: Vec<Demo> = Vec::new();
    match doc.as_array() {
        Some(items) => {
            let mut i: usize = 0;
            while i < items.len()
                invariant
                    i <= items.len(),
                    list@.len() == i,
                    forall|k: int| 0 <= k < i ==> (#[trigger] list@[k])@
                        == DemoView::of(items@[k]@),
                decreases items.len() - i,
            {
                list.push(read_demo(&items[i]));
                i = i + 1;
            }
            assert(views(list@) =~= DemoView::list_of(doc@));
        },
        None => {
            assert(views(list@) =~= DemoView::list_of(doc@));
        },
    }
    list
}

/// Notes on the app's content.
#[derive(Debug, Clone, PartialEq, Eq)]
pub struct ContentDescriptors {
    pub notes: String,
}

/// A `ContentDescriptors` as a mathematical value.
pub struct ContentDescriptorsView {
    pub notes: Seq<char>,
}

impl View for ContentDescriptors {
    type V = ContentDescriptorsView;

    open spec fn view(&self) -> ContentDescriptorsView {
        ContentDescriptorsView {
            notes: self.notes@,
        }
    }
}

impl ContentDescriptorsView {
    /// The value all of whose fields are zero.
    pub open spec fn zero() -> ContentDescriptorsView {
        ContentDescriptorsView {
            notes: Seq::empty(),
        }
    }

    /// What a document says: each field is read on its own, and one that is
    /// absent or of another type keeps its zero value.
    pub open spec fn of(doc: JsonValue) -> ContentDescriptorsView {
        ContentDescriptorsView {
            notes: doc.text_or_empty("notes"@),
        }
    }

    /// A document without members says nothing: every field keeps its zero value.
    pub proof fn lemma_nothing_read(doc: JsonValue)
        requires
            forall|key: Seq<char>| (#[trigger] doc.member(key)) is None,
        ensures
            ContentDescriptorsView::of(doc) == ContentDescriptorsView::zero(),
    {
    }

    /// A member that is absent leaves its field at the zero value, whatever the
    /// document holds besides.
    pub proof fn lemma_absent_member_leaves_zero(doc: JsonValue)
        ensures
            doc.member("notes"@) is None ==> Self::of(doc).notes == Self::zero().notes,
    {
    }

    /// Whether a document states the value in full: it holds every field as a
    /// member of the field's own type.
    pub open spec fn is_stated_by(self, doc: JsonValue) -> bool {
        &&& doc.member("notes"@) == Some(JsonValue::Text(self.notes))
    }

    /// What a document states in full is what is read from it.
    pub proof fn lemma_read_back(self, doc: JsonValue)
        requires
            self.is_stated_by(doc),
        ensures
            ContentDescriptorsView::of(doc) == self,
    {
    }

    /// The document that states the value in full: an object with one member
    /// for every field.
    pub open spec fn document(self) -> JsonValue {
        JsonValue::Object(
            seq![
                ("notes"@, JsonValue::Text(self.notes)),
            ],
        )
    }

    /// The document of a value states the value in full.
    pub proof fn lemma_document_states(self)
        ensures
            self.is_stated_by(self.document()),
    {
        reveal_strlit("notes");
        assert("notes"@.len() == 5);
        reveal_with_fuel(find_from, 2);
    }
}

fn read_content_descriptors(doc: &Json) -> (record: ContentDescriptors)
    ensures
        record@ == ContentDescriptorsView::of(doc@),
{
    ContentDescriptors {
        notes: doc.text_or_empty("notes"),
    }
}

/// A category that the app belongs to.
#[derive(Debug, Clone, PartialEq, Eq)]
pub struct Category {
    pub id: i64,
    pub description: String,
}

/// A `Category` as a mathematical value.
pub struct CategoryView {
    pub id: i64,
    pub description: Seq<char>,
}

impl View for Category {
    type V = CategoryView;

    open spec fn view(&self) -> CategoryView {
        CategoryView {
            id: self.id,
            description: self.description@,
        }
    }
}

impl CategoryView {
    /// The value all of whose fields are zero.
    pub open spec fn zero() -> CategoryView {
        CategoryView {
            id: 0,
            description: Seq::empty(),
        }
    }

    /// What a document says: each field is read on its own, and one that is
    /// absent or of another type keeps its zero value.
    pub open spec fn of(doc: JsonValue) -> CategoryView {
        CategoryView {
            id: doc.integer_or_zero("id"@),
            description: doc.text_or_empty("description"@),
        }
    }

    /// One value for each element of an array, in order; nothing for a document
    /// that is no array.
    pub open spec fn list_of(doc: JsonValue) -> Seq<CategoryView> {
        match doc.items() {
            Some(items) => items.map_values(|item: JsonValue| CategoryView::of(item)),
            None => Seq::empty(),
        }
    }

    /// A document without members says nothing: every field keeps its zero value.
    pub proof fn lemma_nothing_read(doc: JsonValue)
        requires
            forall|key: Seq<char>| (#[trigger] doc.member(key)) is None,
        ensures
            CategoryView::of(doc) == CategoryView::zero(),
    {
    }

    /// A member that is absent leaves its field at the zero value, whatever the
    /// document holds besides.
    pub proof fn lemma_absent_member_leaves_zero(doc: JsonValue)
        ensures
            doc.member("id"@) is None ==> Self::of(doc).id == Self::zero().id,
            doc.member("description"@) is None ==> Self::of(doc).description
                == Self::zero().description,
    {
    }

    /// Whether a document states the value in full: it holds every field as a
    /// member of the field's own type.
    pub open spec fn is_stated_by(self, doc: JsonValue) -> bool {
        &&& doc.member("id"@) == Some(JsonValue::Number(Some(self.id)))
        &&& doc.member("description"@) == Some(JsonValue::Text(self.description))
    }

    /// What a document states in full is what is read from it.
    pub proof fn lemma_read_back(self, doc: JsonValue)
        requires
            self.is_stated_by(doc),
        ensures
            CategoryView::of(doc) == self,
    {
    }

    /// Whether an array states a list in full: element by element.
    pub open spec fn list_is_stated_by(list: Seq<CategoryView>, doc: JsonValue) -> bool {
        match doc.items() {
            Some(items) => items.len() == list.len() && forall|i: int|
                0 <= i < list.len() ==> (#[trigger] list[i]).is_stated_by(items[i]),
            None => false,
        }
    }

    /// What an array states in full is what is read from it.
    pub proof fn lemma_list_read_back(list: Seq<CategoryView>, doc: JsonValue)
        requires
            CategoryView::list_is_stated_by(list, doc),
        ensures
            CategoryView::list_of(doc) == list,
    {
        let items = doc.items()->Some_0;
        assert forall|i: int| 0 <= i < list.len() implies CategoryView::of(items[i]) == list[i] by {
            list[i].lemma_read_back(items[i]);
        }
        assert(CategoryView::list_of(doc) =~= list);
    }

    /// The document that states the value in full: an object with one member
    /// for every field.
    pub open spec fn document(self) -> JsonValue {
        JsonValue::Object(
            seq![
                ("id"@, JsonValue::Number(Some(self.id))),
                ("description"@, JsonValue::Text(self.description)),
            ],
        )
    }

    /// The document of a value states the value in full.
    pub proof fn lemma_document_states(self)
        ensures
            self.is_stated_by(self.document()),
    {
        reveal_strlit("id");
        reveal_strlit("description");
        assert("id"@.len() == 2);
        assert("description"@.len() == 11);
        reveal_with_fuel(find_from, 3);
    }

    /// The array that states a list in full: the documents of its elements.
    pub open spec fn list_document(list: Seq<CategoryView>) -> JsonValue {
        JsonValue::Array(list.map_values(|item: CategoryView| item.document()))
    }

    /// The array of a list states the list in full.
    pub proof fn lemma_list_document_states(list: Seq<CategoryView>)
        ensures
            CategoryView::list_is_stated_by(list, CategoryView::list_document(list)),
    {
        let items = CategoryView::list_document(list).items()->Some_0;
        assert forall|i: int| 0 <= i < list.len() implies (#[trigger] list[i]).is_stated_by(
            items[i],
        ) by {
            list[i].lemma_document_states();
        }
    }
}

fn read_category(doc: &Json) -> (record: Category)
    ensures
        record@ == CategoryView::of(doc@),
{
    Category {
        id: doc.integer_or_zero("id"),
        description: doc.text_or_empty("description"),
    }
}

fn read_category_list(doc: &Json) -> (list: Vec<Category>)
    ensures
        views(list@) == CategoryView::list_of(doc@),
{
    let mut list: Vec<Category> = Vec::new();
    match doc.as_array() {
        Some(items) => {
            let mut i: usize = 0;
            while i < items.len()
                invariant
                    i <= items.len(),
                    list@.len() == i,
                    forall|k: int| 0 <= k < i ==> (#[trigger] list@[k])@
                        == CategoryView::of(items@[k]@),
                decreases items.len() - i,
            {
                list.push(read_category(&items[i]));
                i = i + 1;
            }
            assert(views(list@) =~= CategoryView::list_of(doc@));
        },
        None => {
            assert(views(list@) =~= CategoryView::list_of(doc@));
        },
    }
    list
}

/// One highlighted achievement.
#[derive(Debug, Clone, PartialEq, Eq)]
pub struct Highlight {
    pub path: String,
    pub name: String,
}

/// A `Highlight` as a mathematical value.
pub struct HighlightView {
    pub path: Seq<char>,
    pub name: Seq<char>,
}

impl View for Highlight {
    type V = HighlightView;

    open spec fn view(&self) -> HighlightView {
        HighlightView {
            path: self.path@,
            name: self.name@,
        }
    }
}

impl HighlightView {
    /// The value all of whose fields are zero.
    pub open spec fn zero() -> HighlightView {
        HighlightView {
            path: Seq::empty(),
            name: Seq::empty(),
        }
    }

    /// What a document says: each field is read on its own, and one that is
    /// absent or of another type keeps its zero value.
    pub open spec fn of(doc: JsonValue) -> HighlightView {
        HighlightView {
            path: doc.text_or_empty("path"@),
            name: doc.text_or_empty("name"@),
        }
    }

    /// One value for each element of an array, in order; nothing for a document
    /// that is no array.
    pub open spec fn list_of(doc: JsonValue) -> Seq<HighlightView> {
        match doc.items() {
            Some(items) => items.map_values(|item: JsonValue| HighlightView::of(item)),
            None => Seq::empty(),
        }
    }

    /// A document without members says nothing: every field keeps its zero value.
    pub proof fn lemma_nothing_read(doc: JsonValue)
        requires
            forall|key: Seq<char>| (#[trigger] doc.member(key)) is None,
        ensures
            HighlightView::of(doc) == HighlightView::zero(),
    {
    }

    /// A member that is absent leaves its field at the zero value, whatever the
    /// document holds besides.
    pub proof fn lemma_absent_member_leaves_zero(doc: JsonValue)
        ensures
            doc.member("path"@) is None ==> Self::of(doc).path == Self::zero().path,
            doc.member("name"@) is None ==> Self::of(doc).name == Self::zero().name,
    {
    }

    /// Whether a document states the value in full: it holds every field as a
    /// member of the field's own type.
    pub open spec fn is_stated_by(self, doc: JsonValue) -> bool {
        &&& doc.member("path"@) == Some(JsonValue::Text(self.path))
        &&& doc.member("name"@) == Some(JsonValue::Text(self.name))
    }

    /// What a document states in full is what is read from it.
    pub proof fn lemma_read_back(self, doc: JsonValue)
        requires
            self.is_stated_by(doc),
        ensures
            HighlightView::of(doc) == self,
    {
    }

    /// Whether an array states a list in full: element by element.
    pub open spec fn list_is_stated_by(list: Seq<HighlightView>, doc: JsonValue) -> bool {
        match doc.items() {
            Some(items) => items.len() == list.len() && forall|i: int|
                0 <= i < list.len() ==> (#[trigger] list[i]).is_stated_by(items[i]),
            None => false,
        }
    }

    /// What an array states in full is what is read from it.
    pub proof fn lemma_list_read_back(list: Seq<HighlightView>, doc: JsonValue)
        requires
            HighlightView::list_is_stated_by(list, doc),
        ensures
            HighlightView::list_of(doc) == list,
    {
        let items = doc.items()->Some_0;
        assert forall|i: int| 0 <= i < list.len() implies HighlightView::of(items[i])
            == list[i] by {
            list[i].lemma_read_back(items[i]);
        }
        assert(HighlightView::list_of(doc) =~= list);
    }

    /// The document that states the value in full: an object with one member
    /// for every field.
    pub open spec fn document(self) -> JsonValue {
        JsonValue::Object(
            seq![
                ("path"@, JsonValue::Text(self.path)),
                ("name"@, JsonValue::Text(self.name)),
            ],
        )
    }

    /// The document of a value states the value in full.
    pub proof fn lemma_document_states(self)
        ensures
            self.is_stated_by(self.document()),
    {
        reveal_strlit("path");
        reveal_strlit("name");
        assert("path"@.len() == 4);
        assert("name"@.len() == 4);
        assert("path"@[0] == 'p');
        assert("name"@[0] == 'n');
        reveal_with_fuel(find_from, 3);
    }

    /// The array that states a list in full: the documents of its elements.
    pub open spec fn list_document(list: Seq<HighlightView>) -> JsonValue {
        JsonValue::Array(list.map_values(|item: HighlightView| item.document()))
    }

    /// The array of a list states the list in full.
    pub proof fn lemma_list_document_states(list: Seq<HighlightView>)
        ensures
            HighlightView::list_is_stated_by(list, HighlightView::list_document(list)),
    {
        let items = HighlightView::list_document(list).items()->Some_0;
        assert forall|i: int| 0 <= i < list.len() implies (#[trigger] list[i]).is_stated_by(
            items[i],
        ) by {
            list[i].lemma_document_states();
        }
    }
}

fn read_highlight(doc: &Json) -> (record: Highlight)
    ensures
        record@ == HighlightView::of(doc@),
{
    Highlight {
        path: doc.text_or_empty("path"),
        name: doc.text_or_empty("name"),
    }
}

fn read_highlight_list(doc: &Json) -> (list: Vec<Highlight>)
    ensures
        views(list@) == HighlightView::list_of(doc@),
{
    let mut list: Vec<Highlight> = Vec::new();
    match doc.as_array() {
        Some(items) => {
            let mut i: usize = 0;
            while i < items.len()
                invariant
                    i <= items.len(),
                    list@.len() == i,
                    forall|k: int| 0 <= k < i ==> (#[trigger] list@[k])@
                        == HighlightView::of(items@[k]@),
                decreases items.len() - i,
            {
                list.push(read_highlight(&items[i]));
                i = i + 1;
            }
            assert(views(list@) =~= HighlightView::list_of(doc@));
        },
        None => {
            assert(views(list@) =~= HighlightView::list_of(doc@));
        },
    }
    list
}

/// The app's achievements: how many there are, and the highlighted ones.
#[derive(Debug, Clone, PartialEq, Eq)]
pub struct Achievement {
    pub total: i64,
    pub highlighted: Vec<Highlight>,
}

/// A `Achievement` as a mathematical value.
pub struct AchievementView {
    pub total: i64,
    pub highlighted: Seq<HighlightView>,
}

impl View for Achievement {
    type V = AchievementView;

    open spec fn view(&self) -> AchievementView {
        AchievementView {
            total: self.total,
            highlighted: views(self.highlighted@),
        }
    }
}

impl AchievementView {
    /// The value all of whose fields are zero.
    pub open spec fn zero() -> AchievementView {
        AchievementView {
            total: 0,
            highlighted: Seq::empty(),
        }
    }

    /// What a document says: each field is read on its own, and one that is
    /// absent or of another type keeps its zero value.
    pub open spec fn of(doc: JsonValue) -> AchievementView {
        AchievementView {
            total: doc.integer_or_zero("total"@),
            highlighted: HighlightView::list_of(doc.at("highlighted"@)),
        }
    }

    /// A document without members says nothing: every field keeps its zero value.
    pub proof fn lemma_nothing_read(doc: JsonValue)
        requires
            forall|key: Seq<char>| (#[trigger] doc.member(key)) is None,
        ensures
            AchievementView::of(doc) == AchievementView::zero(),
    {
    }

    /// A member that is absent leaves its field at the zero value, whatever the
    /// document holds besides.
    pub proof fn lemma_absent_member_leaves_zero(doc: JsonValue)
        ensures
            doc.member("total"@) is None ==> Self::of(doc).total == Self::zero().total,
            doc.member("highlighted"@) is None ==> Self::of(doc).highlighted
                == Self::zero().highlighted,
    {
    }

    /// Whether a document states the value in full: it holds every field as a
    /// member of the field's own type.
    pub open spec fn is_stated_by(self, doc: JsonValue) -> bool {
        &&& doc.member("total"@) == Some(JsonValue::Number(Some(self.total)))
        &&& HighlightView::list_is_stated_by(self.highlighted, doc.at("highlighted"@))
    }

    /// What a document states in full is what is read from it.
    pub proof fn lemma_read_back(self, doc: JsonValue)
        requires
            self.is_stated_by(doc),
        ensures
            AchievementView::of(doc) == self,
    {
        HighlightView::lemma_list_read_back(self.highlighted, doc.at("highlighted"@));
    }

    /// The document that states the value in full: an object with one member
    /// for every field.
    pub open spec fn document(self) -> JsonValue {
        JsonValue::Object(
            seq![
                ("total"@, JsonValue::Number(Some(self.total))),
                ("highlighted"@, HighlightView::list_document(self.highlighted)),
            ],
        )
    }

    /// The document of a value states the value in full.
    pub proof fn lemma_document_states(self)
        ensures
            self.is_stated_by(self.document()),
    {
        reveal_strlit("total");
        reveal_strlit("highlighted");
        assert("total"@.len() == 5);
        assert("highlighted"@.len() == 11);
        HighlightView::lemma_list_document_states(self.highlighted);
        reveal_with_fuel(find_from, 3);
    }
}

/// Reads the achievements of an app from the document that describes them.
pub fn parse_achievements(doc: &Json) -> (record: Achievement)
    ensures
        record@ == AchievementView::of(doc@),
{
    let null = Json::Null;
    Achievement {
        total: doc.integer_or_zero("total"),
        highlighted: read_highlight_list(doc.get_or("highlighted", &null)),
    }
}

/// Everything the store says of one app.
/// Every field has a zero value, so a record can be made from any document.
#[derive(Debug, Clone, PartialEq, Eq)]
pub struct SteamAppDetails {
    pub app_id: i64,
    pub name: String,
    pub app_type: String,
    pub supported_languages: String,
    pub support_info: SupportInfo,
    pub short_description: String,
    pub screenshots: Vec<Screenshot>,
    pub reviews: String,
    pub required_age: i64,
    pub release_date: ReleaseDate,
    pub recommendations: Recommendations,
    pub price_overview: PriceOverview,
    pub platforms: Platforms,
    pub pc_requirements: PcRequirements,
    pub mac_requirements: MacRequirements,
    pub linux_requirements: LinuxRequirements,
    pub package_groups: Vec<PackageGroup>,
    pub movies: Vec<Movie>,
    pub metacritic: Metacritic,
    pub legal_notice: String,
    pub is_free: bool,
    pub genres: Vec<Genre>,
    pub fullgame: FullGame,
    pub ext_user_account_notice: String,
    pub drm_notice: String,
    pub detailed_description: String,
    pub header_image: String,
    pub demos: Vec<Demo>,
    pub controller_support: String,
    pub content_descriptors: ContentDescriptors,
    pub categories: Vec<Category>,
    pub website: String,
    pub background_raw: String,
    pub background: String,
    pub alternate_appid: String,
    pub about_the_game: String,
    pub achievements: Achievement,
}

/// A `SteamAppDetails` as a mathematical value.
pub struct SteamAppDetailsView {
    pub app_id: i64,
    pub name: Seq<char>,
    pub app_type: Seq<char>,
    pub supported_languages: Seq<char>,
    pub support_info: SupportInfoView,
    pub short_description: Seq<char>,
    pub screenshots: Seq<ScreenshotView>,
    pub reviews: Seq<char>,
    pub required_age: i64,
    pub release_date: ReleaseDateView,
    pub recommendations: RecommendationsView,
    pub price_overview: PriceOverviewView,
    pub platforms: PlatformsView,
    pub pc_requirements: PcRequirementsView,
    pub mac_requirements: MacRequirementsView,
    pub linux_requirements: LinuxRequirementsView,
    pub package_groups: Seq<PackageGroupView>,
    pub movies: Seq<MovieView>,
    pub metacritic: MetacriticView,
    pub legal_notice: Seq<char>,
    pub is_free: bool,
    pub genres: Seq<GenreView>,
    pub fullgame: FullGameView,
    pub ext_user_account_notice: Seq<char>,
    pub drm_notice: Seq<char>,
    pub detailed_description: Seq<char>,
    pub header_image: Seq<char>,
    pub demos: Seq<DemoView>,
    pub controller_support: Seq<char>,
    pub content_descriptors: ContentDescriptorsView,
    pub categories: Seq<CategoryView>,
    pub website: Seq<char>,
    pub background_raw: Seq<char>,
    pub background: Seq<char>,
    pub alternate_appid: Seq<char>,
    pub about_the_game: Seq<char>,
    pub achievements: AchievementView,
}

impl View for SteamAppDetails {
    type V = SteamAppDetailsView;

    open spec fn view(&self) -> SteamAppDetailsView {
        SteamAppDetailsView {
            app_id: self.app_id,
            name: self.name@,
            app_type: self.app_type@,
            supported_languages: self.supported_languages@,
            support_info: self.support_info@,
            short_description: self.short_description@,
            screenshots: views(self.screenshots@),
            reviews: self.reviews@,
            required_age: self.required_age,
            release_date: self.release_date@,
            recommendations: self.recommendations@,
            price_overview: self.price_overview@,
            platforms: self.platforms@,
            pc_requirements: self.pc_requirements@,
            mac_requirements: self.mac_requirements@,
            linux_requirements: self.linux_requirements@,
            package_groups: views(self.package_groups@),
            movies: views(self.movies@),
            metacritic: self.metacritic@,
            legal_notice: self.legal_notice@,
            is_free: self.is_free,
            genres: views(self.genres@),
            fullgame: self.fullgame@,
            ext_user_account_notice: self.ext_user_account_notice@,
            drm_notice: self.drm_notice@,
            detailed_description: self.detailed_description@,
            header_image: self.header_image@,
            demos: views(self.demos@),
            controller_support: self.controller_support@,
            content_descriptors: self.content_descriptors@,
            categories: views(self.categories@),
            website: self.website@,
            background_raw: self.background_raw@,
            background: self.background@,
            alternate_appid: self.alternate_appid@,
            about_the_game: self.about_the_game@,
            achievements: self.achievements@,
        }
    }
}

impl SteamAppDetailsView {
    /// The record of which nothing is known but the id: every other field has
    /// its zero value.
    pub open spec fn zero(app_id: i64) -> SteamAppDetailsView {
        SteamAppDetailsView {
            app_id: app_id,
            name: Seq::empty(),
            app_type: Seq::empty(),
            supported_languages: Seq::empty(),
            support_info: SupportInfoView::zero(),
            short_description: Seq::empty(),
            screenshots: Seq::empty(),
            reviews: Seq::empty(),
            required_age: 0,
            release_date: ReleaseDateView::zero(),
            recommendations: RecommendationsView::zero(),
            price_overview: PriceOverviewView::zero(),
            platforms: PlatformsView::zero(),
            pc_requirements: PcRequirementsView::zero(),
            mac_requirements: MacRequirementsView::zero(),
            linux_requirements: LinuxRequirementsView::zero(),
            package_groups: Seq::empty(),
            movies: Seq::empty(),
            metacritic: MetacriticView::zero(),
            legal_notice: Seq::empty(),
            is_free: false,
            genres: Seq::empty(),
            fullgame: FullGameView::zero(),
            ext_user_account_notice: Seq::empty(),
            drm_notice: Seq::empty(),
            detailed_description: Seq::empty(),
            header_image: Seq::empty(),
            demos: Seq::empty(),
            controller_support: Seq::empty(),
            content_descriptors: ContentDescriptorsView::zero(),
            categories: Seq::empty(),
            website: Seq::empty(),
            background_raw: Seq::empty(),
            background: Seq::empty(),
            alternate_appid: Seq::empty(),
            about_the_game: Seq::empty(),
            achievements: AchievementView::zero(),
        }
    }

    /// What the `data` member of a response says of the app: each field is read
    /// on its own, and one that is absent or of another type keeps its zero
    /// value.
    pub open spec fn of(doc: JsonValue, app_id: i64) -> SteamAppDetailsView {
        SteamAppDetailsView {
            app_id: app_id,
            name: doc.text_or_empty("name"@),
            app_type: doc.text_or_empty("type"@),
            supported_languages: doc.text_or_empty("supported_languages"@),
            support_info: SupportInfoView::of(doc.at("support_info"@)),
            short_description: doc.text_or_empty("short_description"@),
            screenshots: ScreenshotView::list_of(doc.at("screenshots"@)),
            reviews: doc.text_or_empty("reviews"@),
            required_age: age_of(doc.at("required_age"@)),
            release_date: ReleaseDateView::of(doc.at("release_date"@)),
            recommendations: RecommendationsView::of(doc.at("recommendations"@)),
            price_overview: PriceOverviewView::of(doc.at("price_overview"@)),
            platforms: PlatformsView::of(doc.at("platforms"@)),
            pc_requirements: PcRequirementsView::of(doc.at("pc_requirements"@)),
            mac_requirements: MacRequirementsView::of(doc.at("mac_requirements"@)),
            linux_requirements: LinuxRequirementsView::of(doc.at("linux_requirements"@)),
            package_groups: PackageGroupView::list_of(doc.at("package_groups"@)),
            movies: MovieView::list_of(doc.at("movies"@)),
            metacritic: MetacriticView::of(doc.at("metacritic"@)),
            legal_notice: doc.text_or_empty("legal_notice"@),
            is_free: doc.flag_or_false("is_free"@),
            genres: GenreView::list_of(doc.at("genres"@)),
            fullgame: FullGameView::of(doc.at("fullgame"@)),
            ext_user_account_notice: doc.text_or_empty("ext_user_account_notice"@),
            drm_notice: doc.text_or_empty("drm_notice"@),
            detailed_description: doc.text_or_empty("detailed_description"@),
            header_image: doc.text_or_empty("header_image"@),
            demos: DemoView::list_of(doc.at("demos"@)),
            controller_support: doc.text_or_empty("controller_support"@),
            content_descriptors: ContentDescriptorsView::of(doc.at("content_descriptors"@)),
            categories: CategoryView::list_of(doc.at("categories"@)),
            website: doc.text_or_empty("website"@),
            background_raw: doc.text_or_empty("background_raw"@),
            background: doc.text_or_empty("background"@),
            alternate_appid: doc.text_or_empty("alternate_appid"@),
            about_the_game: doc.text_or_empty("about_the_game"@),
            achievements: AchievementView::of(doc.at("achievements"@)),
        }
    }

    /// A document without members says nothing: every field keeps its zero value.
    pub proof fn lemma_nothing_read(doc: JsonValue, app_id: i64)
        requires
            forall|key: Seq<char>| (#[trigger] doc.member(key)) is None,
        ensures
            SteamAppDetailsView::of(doc, app_id) == SteamAppDetailsView::zero(app_id),
    {
        SupportInfoView::lemma_nothing_read(JsonValue::Null);
        ReleaseDateView::lemma_nothing_read(JsonValue::Null);
        RecommendationsView::lemma_nothing_read(JsonValue::Null);
        PriceOverviewView::lemma_nothing_read(JsonValue::Null);
        PlatformsView::lemma_nothing_read(JsonValue::Null);
        PcRequirementsView::lemma_nothing_read(JsonValue::Null);
        MacRequirementsView::lemma_nothing_read(JsonValue::Null);
        LinuxRequirementsView::lemma_nothing_read(JsonValue::Null);
        MetacriticView::lemma_nothing_read(JsonValue::Null);
        FullGameView::lemma_nothing_read(JsonValue::Null);
        ContentDescriptorsView::lemma_nothing_read(JsonValue::Null);
        AchievementView::lemma_nothing_read(JsonValue::Null);
    }

    /// A member that is absent leaves its field at the zero value, whatever the
    /// document holds besides.
    pub proof fn lemma_absent_member_leaves_zero(doc: JsonValue, app_id: i64)
        ensures
            doc.member("name"@) is None ==> SteamAppDetailsView::of(doc, app_id).name
                == SteamAppDetailsView::zero(app_id).name,
            doc.member("type"@) is None ==> SteamAppDetailsView::of(doc, app_id).app_type
                == SteamAppDetailsView::zero(app_id).app_type,
            doc.member("supported_languages"@) is None
                ==> SteamAppDetailsView::of(doc, app_id).supported_languages
                == SteamAppDetailsView::zero(app_id).supported_languages,
            doc.member("support_info"@) is None
                ==> SteamAppDetailsView::of(doc, app_id).support_info
                == SteamAppDetailsView::zero(app_id).support_info,
            doc.member("short_description"@) is None
                ==> SteamAppDetailsView::of(doc, app_id).short_description
                == SteamAppDetailsView::zero(app_id).short_description,
            doc.member("screenshots"@) is None ==> SteamAppDetailsView::of(doc, app_id).screenshots
                == SteamAppDetailsView::zero(app_id).screenshots,
            doc.member("reviews"@) is None ==> SteamAppDetailsView::of(doc, app_id).reviews
                == SteamAppDetailsView::zero(app_id).reviews,
            doc.member("required_age"@) is None
                ==> SteamAppDetailsView::of(doc, app_id).required_age
                == SteamAppDetailsView::zero(app_id).required_age,
            doc.member("release_date"@) is None
                ==> SteamAppDetailsView::of(doc, app_id).release_date
                == SteamAppDetailsView::zero(app_id).release_date,
            doc.member("recommendations"@) is None
                ==> SteamAppDetailsView::of(doc, app_id).recommendations
                == SteamAppDetailsView::zero(app_id).recommendations,
            doc.member("price_overview"@) is None
                ==> SteamAppDetailsView::of(doc, app_id).price_overview
                == SteamAppDetailsView::zero(app_id).price_overview,
            doc.member("platforms"@) is None ==> SteamAppDetailsView::of(doc, app_id).platforms
                == SteamAppDetailsView::zero(app_id).platforms,
            doc.member("pc_requirements"@) is None
                ==> SteamAppDetailsView::of(doc, app_id).pc_requirements
                == SteamAppDetailsView::zero(app_id).pc_requirements,
            doc.member("mac_requirements"@) is None
                ==> SteamAppDetailsView::of(doc, app_id).mac_requirements
                == SteamAppDetailsView::zero(app_id).mac_requirements,
            doc.member("linux_requirements"@) is None
                ==> SteamAppDetailsView::of(doc, app_id).linux_requirements
                == SteamAppDetailsView::zero(app_id).linux_requirements,
            doc.member("package_groups"@) is None
                ==> SteamAppDetailsView::of(doc, app_id).package_groups
                == SteamAppDetailsView::zero(app_id).package_groups,
            doc.member("movies"@) is None ==> SteamAppDetailsView::of(doc, app_id).movies
                == SteamAppDetailsView::zero(app_id).movies,
            doc.member("metacritic"@) is None ==> SteamAppDetailsView::of(doc, app_id).metacritic
                == SteamAppDetailsView::zero(app_id).metacritic,
            doc.member("legal_notice"@) is None
                ==> SteamAppDetailsView::of(doc, app_id).legal_notice
                == SteamAppDetailsView::zero(app_id).legal_notice,
            doc.member("is_free"@) is None ==> SteamAppDetailsView::of(doc, app_id).is_free
                == SteamAppDetailsView::zero(app_id).is_free,
            doc.member("genres"@) is None ==> SteamAppDetailsView::of(doc, app_id).genres
                == SteamAppDetailsView::zero(app_id).genres,
            doc.member("fullgame"@) is None ==> SteamAppDetailsView::of(doc, app_id).fullgame
                == SteamAppDetailsView::zero(app_id).fullgame,
            doc.member("ext_user_account_notice"@) is None
                ==> SteamAppDetailsView::of(doc, app_id).ext_user_account_notice
                == SteamAppDetailsView::zero(app_id).ext_user_account_notice,
            doc.member("drm_notice"@) is None ==> SteamAppDetailsView::of(doc, app_id).drm_notice
                == SteamAppDetailsView::zero(app_id).drm_notice,
            doc.member("detailed_description"@) is None
                ==> SteamAppDetailsView::of(doc, app_id).detailed_description
                == SteamAppDetailsView::zero(app_id).detailed_description,
            doc.member("header_image"@) is None
                ==> SteamAppDetailsView::of(doc, app_id).header_image
                == SteamAppDetailsView::zero(app_id).header_image,
            doc.member("demos"@) is None ==> SteamAppDetailsView::of(doc, app_id).demos
                == SteamAppDetailsView::zero(app_id).demos,
            doc.member("controller_support"@) is None
                ==> SteamAppDetailsView::of(doc, app_id).controller_support
                == SteamAppDetailsView::zero(app_id).controller_support,
            doc.member("content_descriptors"@) is None
                ==> SteamAppDetailsView::of(doc, app_id).content_descriptors
                == SteamAppDetailsView::zero(app_id).content_descriptors,
            doc.member("categories"@) is None ==> SteamAppDetailsView::of(doc, app_id).categories
                == SteamAppDetailsView::zero(app_id).categories,
            doc.member("website"@) is None ==> SteamAppDetailsView::of(doc, app_id).website
                == SteamAppDetailsView::zero(app_id).website,
            doc.member("background_raw"@) is None
                ==> SteamAppDetailsView::of(doc, app_id).background_raw
                == SteamAppDetailsView::zero(app_id).background_raw,
            doc.member("background"@) is None ==> SteamAppDetailsView::of(doc, app_id).background
                == SteamAppDetailsView::zero(app_id).background,
            doc.member("alternate_appid"@) is None
                ==> SteamAppDetailsView::of(doc, app_id).alternate_appid
                == SteamAppDetailsView::zero(app_id).alternate_appid,
            doc.member("about_the_game"@) is None
                ==> SteamAppDetailsView::of(doc, app_id).about_the_game
                == SteamAppDetailsView::zero(app_id).about_the_game,
            doc.member("achievements"@) is None
                ==> SteamAppDetailsView::of(doc, app_id).achievements
                == SteamAppDetailsView::zero(app_id).achievements,
    {
        SupportInfoView::lemma_nothing_read(JsonValue::Null);
        ReleaseDateView::lemma_nothing_read(JsonValue::Null);
        RecommendationsView::lemma_nothing_read(JsonValue::Null);
        PriceOverviewView::lemma_nothing_read(JsonValue::Null);
        PlatformsView::lemma_nothing_read(JsonValue::Null);
        PcRequirementsView::lemma_nothing_read(JsonValue::Null);
        MacRequirementsView::lemma_nothing_read(JsonValue::Null);
        LinuxRequirementsView::lemma_nothing_read(JsonValue::Null);
        MetacriticView::lemma_nothing_read(JsonValue::Null);
        FullGameView::lemma_nothing_read(JsonValue::Null);
        ContentDescriptorsView::lemma_nothing_read(JsonValue::Null);
        AchievementView::lemma_nothing_read(JsonValue::Null);
    }

    /// Whether a document states the value in full: it holds every field as a
    /// member of the field's own type.
    pub open spec fn is_stated_by(self, doc: JsonValue) -> bool {
        &&& doc.member("name"@) == Some(JsonValue::Text(self.name))
        &&& doc.member("type"@) == Some(JsonValue::Text(self.app_type))
        &&& doc.member("supported_languages"@) == Some(JsonValue::Text(self.supported_languages))
        &&& self.support_info.is_stated_by(doc.at("support_info"@))
        &&& doc.member("short_description"@) == Some(JsonValue::Text(self.short_description))
        &&& ScreenshotView::list_is_stated_by(self.screenshots, doc.at("screenshots"@))
        &&& doc.member("reviews"@) == Some(JsonValue::Text(self.reviews))
        &&& doc.member("required_age"@) == Some(JsonValue::Number(Some(self.required_age)))
        &&& self.release_date.is_stated_by(doc.at("release_date"@))
        &&& self.recommendations.is_stated_by(doc.at("recommendations"@))
        &&& self.price_overview.is_stated_by(doc.at("price_overview"@))
        &&& self.platforms.is_stated_by(doc.at("platforms"@))
        &&& self.pc_requirements.is_stated_by(doc.at("pc_requirements"@))
        &&& self.mac_requirements.is_stated_by(doc.at("mac_requirements"@))
        &&& self.linux_requirements.is_stated_by(doc.at("linux_requirements"@))
        &&& PackageGroupView::list_is_stated_by(self.package_groups, doc.at("package_groups"@))
        &&& MovieView::list_is_stated_by(self.movies, doc.at("movies"@))
        &&& self.metacritic.is_stated_by(doc.at("metacritic"@))
        &&& doc.member("legal_notice"@) == Some(JsonValue::Text(self.legal_notice))
        &&& doc.member("is_free"@) == Some(JsonValue::Bool(self.is_free))
        &&& GenreView::list_is_stated_by(self.genres, doc.at("genres"@))
        &&& self.fullgame.is_stated_by(doc.at("fullgame"@))
        &&& doc.member("ext_user_account_notice"@) == Some(
            JsonValue::Text(self.ext_user_account_notice),
        )
        &&& doc.member("drm_notice"@) == Some(JsonValue::Text(self.drm_notice))
        &&& doc.member("detailed_description"@) == Some(JsonValue::Text(self.detailed_description))
        &&& doc.member("header_image"@) == Some(JsonValue::Text(self.header_image))
        &&& DemoView::list_is_stated_by(self.demos, doc.at("demos"@))
        &&& doc.member("controller_support"@) == Some(JsonValue::Text(self.controller_support))
        &&& self.content_descriptors.is_stated_by(doc.at("content_descriptors"@))
        &&& CategoryView::list_is_stated_by(self.categories, doc.at("categories"@))
        &&& doc.member("website"@) == Some(JsonValue::Text(self.website))
        &&& doc.member("background_raw"@) == Some(JsonValue::Text(self.background_raw))
        &&& doc.member("background"@) == Some(JsonValue::Text(self.background))
        &&& doc.member("alternate_appid"@) == Some(JsonValue::Text(self.alternate_appid))
        &&& doc.member("about_the_game"@) == Some(JsonValue::Text(self.about_the_game))
        &&& self.achievements.is_stated_by(doc.at("achievements"@))
    }

    /// What a document states in full is what is read from it.
    pub proof fn lemma_read_back(self, doc: JsonValue)
        requires
            self.is_stated_by(doc),
        ensures
            SteamAppDetailsView::of(doc, self.app_id) == self,
    {
        self.support_info.lemma_read_back(doc.at("support_info"@));
        ScreenshotView::lemma_list_read_back(self.screenshots, doc.at("screenshots"@));
        self.release_date.lemma_read_back(doc.at("release_date"@));
        self.recommendations.lemma_read_back(doc.at("recommendations"@));
        self.price_overview.lemma_read_back(doc.at("price_overview"@));
        self.platforms.lemma_read_back(doc.at("platforms"@));
        self.pc_requirements.lemma_read_back(doc.at("pc_requirements"@));
        self.mac_requirements.lemma_read_back(doc.at("mac_requirements"@));
        self.linux_requirements.lemma_read_back(doc.at("linux_requirements"@));
        PackageGroupView::lemma_list_read_back(self.package_groups, doc.at("package_groups"@));
        MovieView::lemma_list_read_back(self.movies, doc.at("movies"@));
        self.metacritic.lemma_read_back(doc.at("metacritic"@));
        GenreView::lemma_list_read_back(self.genres, doc.at("genres"@));
        self.fullgame.lemma_read_back(doc.at("fullgame"@));
        DemoView::lemma_list_read_back(self.demos, doc.at("demos"@));
        self.content_descriptors.lemma_read_back(doc.at("content_descriptors"@));
        CategoryView::lemma_list_read_back(self.categories, doc.at("categories"@));
        self.achievements.lemma_read_back(doc.at("achievements"@));
    }

    /// The document that states the value in full: an object with one member
    /// for every field.
    pub open spec fn document(self) -> JsonValue {
        JsonValue::Object(
            seq![
                ("name"@, JsonValue::Text(self.name)),
                ("type"@, JsonValue::Text(self.app_type)),
                ("supported_languages"@, JsonValue::Text(self.supported_languages)),
                ("support_info"@, self.support_info.document()),
                ("short_description"@, JsonValue::Text(self.short_description)),
                ("screenshots"@, ScreenshotView::list_document(self.screenshots)),
                ("reviews"@, JsonValue::Text(self.reviews)),
                ("required_age"@, JsonValue::Number(Some(self.required_age))),
                ("release_date"@, self.release_date.document()),
                ("recommendations"@, self.recommendations.document()),
                ("price_overview"@, self.price_overview.document()),
                ("platforms"@, self.platforms.document()),
                ("pc_requirements"@, self.pc_requirements.document()),
                ("mac_requirements"@, self.mac_requirements.document()),
                ("linux_requirements"@, self.linux_requirements.document()),
                ("package_groups"@, PackageGroupView::list_document(self.package_groups)),
                ("movies"@, MovieView::list_document(self.movies)),
                ("metacritic"@, self.metacritic.document()),
                ("legal_notice"@, JsonValue::Text(self.legal_notice)),
                ("is_free"@, JsonValue::Bool(self.is_free)),
                ("genres"@, GenreView::list_document(self.genres)),
                ("fullgame"@, self.fullgame.document()),
                ("ext_user_account_notice"@, JsonValue::Text(self.ext_user_account_notice)),
                ("drm_notice"@, JsonValue::Text(self.drm_notice)),
                ("detailed_description"@, JsonValue::Text(self.detailed_description)),
                ("header_image"@, JsonValue::Text(self.header_image)),
                ("demos"@, DemoView::list_document(self.demos)),
                ("controller_support"@, JsonValue::Text(self.controller_support)),
                ("content_descriptors"@, self.content_descriptors.document()),
                ("categories"@, CategoryView::list_document(self.categories)),
                ("website"@, JsonValue::Text(self.website)),
                ("background_raw"@, JsonValue::Text(self.background_raw)),
                ("background"@, JsonValue::Text(self.background)),
                ("alternate_appid"@, JsonValue::Text(self.alternate_appid)),
                ("about_the_game"@, JsonValue::Text(self.about_the_game)),
                ("achievements"@, self.achievements.document()),
            ],
        )
    }

    /// The document of a value states the value in full.
    pub proof fn lemma_document_states(self)
        ensures
            self.is_stated_by(self.document()),
    {
        reveal_strlit("name");
        reveal_strlit("type");
        reveal_strlit("supported_languages");
        reveal_strlit("support_info");
        reveal_strlit("short_description");
        reveal_strlit("screenshots");
        reveal_strlit("reviews");
        reveal_strlit("required_age");
        reveal_strlit("release_date");
        reveal_strlit("recommendations");
        reveal_strlit("price_overview");
        reveal_strlit("platforms");
        reveal_strlit("pc_requirements");
        reveal_strlit("mac_requirements");
        reveal_strlit("linux_requirements");
        reveal_strlit("package_groups");
        reveal_strlit("movies");
        reveal_strlit("metacritic");
        reveal_strlit("legal_notice");
        reveal_strlit("is_free");
        reveal_strlit("genres");
        reveal_strlit("fullgame");
        reveal_strlit("ext_user_account_notice");
        reveal_strlit("drm_notice");
        reveal_strlit("detailed_description");
        reveal_strlit("header_image");
        reveal_strlit("demos");
        reveal_strlit("controller_support");
        reveal_strlit("content_descriptors");
        reveal_strlit("categories");
        reveal_strlit("website");
        reveal_strlit("background_raw");
        reveal_strlit("background");
        reveal_strlit("alternate_appid");
        reveal_strlit("about_the_game");
        reveal_strlit("achievements");
        assert("name"@.len() == 4);
        assert("type"@.len() == 4);
        assert("supported_languages"@.len() == 19);
        assert("support_info"@.len() == 12);
        assert("short_description"@.len() == 17);
        assert("screenshots"@.len() == 11);
        assert("reviews"@.len() == 7);
        assert("required_age"@.len() == 12);
        assert("release_date"@.len() == 12);
        assert("recommendations"@.len() == 15);
        assert("price_overview"@.len() == 14);
        assert("platforms"@.len() == 9);
        assert("pc_requirements"@.len() == 15);
        assert("mac_requirements"@.len() == 16);
        assert("linux_requirements"@.len() == 18);
        assert("package_groups"@.len() == 14);
        assert("movies"@.len() == 6);
        assert("metacritic"@.len() == 10);
        assert("legal_notice"@.len() == 12);
        assert("is_free"@.len() == 7);
        assert("genres"@.len() == 6);
        assert("fullgame"@.len() == 8);
        assert("ext_user_account_notice"@.len() == 23);
        assert("drm_notice"@.len() == 10);
        assert("detailed_description"@.len() == 20);
        assert("header_image"@.len() == 12);
        assert("demos"@.len() == 5);
        assert("controller_support"@.len() == 18);
        assert("content_descriptors"@.len() == 19);
        assert("categories"@.len() == 10);
        assert("website"@.len() == 7);
        assert("background_raw"@.len() == 14);
        assert("background"@.len() == 10);
        assert("alternate_appid"@.len() == 15);
        assert("about_the_game"@.len() == 14);
        assert("achievements"@.len() == 12);
        assert("name"@[0] == 'n');
        assert("type"@[0] == 't');
        assert("supported_languages"@[0] == 's');
        assert("support_info"@[0] == 's');
        assert("reviews"@[0] == 'r');
        assert("required_age"@[0] == 'r');
        assert("required_age"@[2] == 'q');
        assert("release_date"@[0] == 'r');
        assert("release_date"@[2] == 'l');
        assert("recommendations"@[0] == 'r');
        assert("price_overview"@[0] == 'p');
        assert("price_overview"@[1] == 'r');
        assert("pc_requirements"@[0] == 'p');
        assert("linux_requirements"@[0] == 'l');
        assert("package_groups"@[0] == 'p');
        assert("package_groups"@[1] == 'a');
        assert("movies"@[0] == 'm');
        assert("metacritic"@[0] == 'm');
        assert("legal_notice"@[0] == 'l');
        assert("is_free"@[0] == 'i');
        assert("genres"@[0] == 'g');
        assert("drm_notice"@[0] == 'd');
        assert("header_image"@[0] == 'h');
        assert("controller_support"@[0] == 'c');
        assert("content_descriptors"@[0] == 'c');
        assert("categories"@[0] == 'c');
        assert("website"@[0] == 'w');
        assert("background_raw"@[0] == 'b');
        assert("background"@[0] == 'b');
        assert("alternate_appid"@[0] == 'a');
        assert("about_the_game"@[0] == 'a');
        assert("achievements"@[0] == 'a');
        self.support_info.lemma_document_states();
        ScreenshotView::lemma_list_document_states(self.screenshots);
        self.release_date.lemma_document_states();
        self.recommendations.lemma_document_states();
        self.price_overview.lemma_document_states();
        self.platforms.lemma_document_states();
        self.pc_requirements.lemma_document_states();
        self.mac_requirements.lemma_document_states();
        self.linux_requirements.lemma_document_states();
        PackageGroupView::lemma_list_document_states(self.package_groups);
        MovieView::lemma_list_document_states(self.movies);
        self.metacritic.lemma_document_states();
        GenreView::lemma_list_document_states(self.genres);
        self.fullgame.lemma_document_states();
        DemoView::lemma_list_document_states(self.demos);
        self.content_descriptors.lemma_document_states();
        CategoryView::lemma_list_document_states(self.categories);
        self.achievements.lemma_document_states();
        reveal_with_fuel(find_from, 37);
    }
}

/// Reads the record of an app from the `data` member of a response.
fn read_details(doc: &Json, app_id: i64) -> (record: SteamAppDetails)
    ensures
        record@ == SteamAppDetailsView::of(doc@, app_id),
{
    let null = Json::Null;
    SteamAppDetails {
        app_id,
        name: doc.text_or_empty("name"),
        app_type: doc.text_or_empty("type"),
        supported_languages: doc.text_or_empty("supported_languages"),
        support_info: read_support_info(doc.get_or("support_info", &null)),
        short_description: doc.text_or_empty("short_description"),
        screenshots: read_screenshot_list(doc.get_or("screenshots", &null)),
        reviews: doc.text_or_empty("reviews"),
        required_age: read_required_age(doc.get_or("required_age", &null)),
        release_date: read_release_date(doc.get_or("release_date", &null)),
        recommendations: read_recommendations(doc.get_or("recommendations", &null)),
        price_overview: read_price_overview(doc.get_or("price_overview", &null)),
        platforms: read_platforms(doc.get_or("platforms", &null)),
        pc_requirements: read_pc_requirements(doc.get_or("pc_requirements", &null)),
        mac_requirements: read_mac_requirements(doc.get_or("mac_requirements", &null)),
        linux_requirements: read_linux_requirements(doc.get_or("linux_requirements", &null)),
        package_groups: parse_package_groups(doc.get_or("package_groups", &null)),
        movies: parse_movies(doc.get_or("movies", &null)),
        metacritic: read_metacritic(doc.get_or("metacritic", &null)),
        legal_notice: doc.text_or_empty("legal_notice"),
        is_free: doc.flag_or_false("is_free"),
        genres: read_genre_list(doc.get_or("genres", &null)),
        fullgame: read_full_game(doc.get_or("fullgame", &null)),
        ext_user_account_notice: doc.text_or_empty("ext_user_account_notice"),
        drm_notice: doc.text_or_empty("drm_notice"),
        detailed_description: doc.text_or_empty("detailed_description"),
        header_image: doc.text_or_empty("header_image"),
        demos: read_demo_list(doc.get_or("demos", &null)),
        controller_support: doc.text_or_empty("controller_support"),
        content_descriptors: read_content_descriptors(doc.get_or("content_descriptors", &null)),
        categories: read_category_list(doc.get_or("categories", &null)),
        website: doc.text_or_empty("website"),
        background_raw: doc.text_or_empty("background_raw"),
        background: doc.text_or_empty("background"),
        alternate_appid: doc.text_or_empty("alternate_appid"),
        about_the_game: doc.text_or_empty("about_the_game"),
        achievements: parse_achievements(doc.get_or("achievements", &null)),
    }
}

/// Reads the purchase options of a package group: the elements of its `subs`
/// member.
pub fn parse_package_groups_subs(package_group: &Json) -> (list: Vec<Sub>)
    ensures
        views(list@) == SubView::list_of(package_group@.at("subs"@)),
{
    let null = Json::Null;
    read_sub_list(package_group.get_or("subs", &null))
}

/// Why a response that is JSON may still be malformed: it does not say
/// whether the request for the app succeeded.
pub open spec fn missing_success_flag() -> Seq<char> {
    "response does not say whether the request succeeded"@
}

/// What a response document says of an app.
///
/// The document holds one member per app, under the app's id in decimal. That
/// member's `success` flag decides: without a flag the response is malformed;
/// a false flag means that the store does not have the app, whatever else the
/// document holds; a true flag gives the record read from the `data` member.
pub open spec fn projection(doc: JsonValue, app_id: i64) -> Result<
    SteamAppDetailsView,
    ApiErrorView,
> {
    let answer = doc.at(decimal(app_id as int));
    match answer.at("success"@).flag() {
        None => Err(ApiErrorView::MalformedResponse(missing_success_flag())),
        Some(false) => Err(ApiErrorView::UpstreamUnavailable),
        Some(true) => Ok(SteamAppDetailsView::of(answer.at("data"@), app_id)),
    }
}

/// What a response text says of an app: nothing but zero values if it is
/// empty, what the parser objects to if it is no JSON, and else the
/// projection of the document that it writes.
pub open spec fn outcome(response: Seq<char>, app_id: i64) -> Result<
    SteamAppDetailsView,
    ApiErrorView,
> {
    if response.len() == 0 {
        Ok(SteamAppDetailsView::zero(app_id))
    } else {
        match parsed_json(response) {
            Ok(doc) => projection(doc, app_id),
            Err(reason) => Err(ApiErrorView::MalformedResponse(reason)),
        }
    }
}

/// Whether a response is kept in the cache: it is, once it has parsed and
/// either gave a record or said that the store does not have the app. An
/// empty or malformed response is not kept.
pub open spec fn is_kept(response: Seq<char>, app_id: i64) -> bool {
    response.len() > 0 && (outcome(response, app_id) is Ok || outcome(response, app_id) == Err::<
        SteamAppDetailsView,
        ApiErrorView,
    >(ApiErrorView::UpstreamUnavailable))
}

/// What a fetch yields, given what the transport handed back.
pub open spec fn fetched_result(response: Result<Seq<char>, ApiErrorView>, app_id: i64) -> Result<
    SteamAppDetailsView,
    ApiErrorView,
> {
    match response {
        Ok(body) => outcome(body, app_id),
        Err(error) => Err(error),
    }
}

/// The file that a fetch leaves behind, given what the transport handed back:
/// the response itself under the app's path, if it is kept.
pub open spec fn fetched_write(response: Result<Seq<char>, ApiErrorView>, app_id: i64) -> Option<
    CacheWriteView,
> {
    match response {
        Ok(body) => if is_kept(body, app_id) {
            Some(
                CacheWriteView {
                    directory: cache_dir_path(app_id),
                    filepath: resource_filepath(app_id),
                    contents: body,
                },
            )
        } else {
            None
        },
        Err(_) => None,
    }
}

/// What a look into the cache yields, given the contents of the app's file if
/// there is one: `None` stands for a miss, after which the caller fetches.
pub open spec fn cached_result(cached: Option<Seq<char>>, app_id: i64) -> Option<
    Result<SteamAppDetailsView, ApiErrorView>,
> {
    match cached {
        Some(contents) => Some(outcome(contents, app_id)),
        None => None,
    }
}

/// The view of what the transport handed back.
pub open spec fn response_view(response: Result<String, ApiError>) -> Result<
    Seq<char>,
    ApiErrorView,
> {
    match response {
        Ok(body) => Ok(body@),
        Err(error) => Err(error@),
    }
}

/// The location that answers with the details of an app.
pub fn get_api_url(app_id: i64) -> (url: String)
    ensures
        url@ == api_url(app_id),
{
    let mut url = String::from_str("https://store.steampowered.com/api/appdetails?appids=");
    append_i64(&mut url, app_id);
    url.append("&lang=en");
    url
}

/// The directory of an app in the cache. Apps are spread over buckets of
/// 10,000 ids, so that no directory grows with the catalog.
pub fn get_cache_dir_path(app_id: i64) -> (path: String)
    ensures
        path@ == cache_dir_path(app_id),
{
    let bucket = app_id / ENTRIES_PER_BUCKET;
    let mut path = crate::util::get_cache_dir_path();
    path.append("/");
    path.append("steampowered");
    path.append("/");
    path.append("appdetails");
    path.append("/");
    append_i64(&mut path, bucket);
    path.append("/");
    append_i64(&mut path, app_id);
    path.append("/");
    path
}

/// The file of an app in the cache.
pub fn get_resource_filepath(app_id: i64) -> (filepath: String)
    ensures
        filepath@ == resource_filepath(app_id),
{
    let mut filepath = get_cache_dir_path(app_id);
    append_i64(&mut filepath, app_id);
    filepath.append(".");
    let filetype = get_json_filetype();
    filepath.append(filetype.as_str());
    filepath
}

/// Projects a response document into the record of an app.
pub fn project(doc: &Json, app_id: i64) -> (result: Result<SteamAppDetails, ApiError>)
    ensures
        result_view(result) == projection(doc@, app_id),
{
    let null = Json::Null;
    let id = i64_to_string(app_id);
    let answer = doc.get_or(id.as_str(), &null);
    match answer.get_or("success", &null).as_bool() {
        None => Err(
            ApiError::MalformedResponse(
                String::from_str("response does not say whether the request succeeded"),
            ),
        ),
        Some(false) => Err(ApiError::UpstreamUnavailable),
        Some(true) => Ok(read_details(answer.get_or("data", &null), app_id)),
    }
}

/// Projects a response text into the record of an app.
///
/// An empty text is no error: nothing has been learned yet, and the record
/// holds the id and zero values.
pub fn parse_api_call_result(response_string: String, app_id: i64) -> (result: Result<
    SteamAppDetails,
    ApiError,
>)
    ensures
        result_view(result) == outcome(response_string@, app_id),
{
    if response_string.as_str().is_empty() {
        let null = Json::Null;
        proof {
            SteamAppDetailsView::lemma_nothing_read(JsonValue::Null, app_id);
        }
        return Ok(read_details(&null, app_id));
    }
    match parse(response_string.as_str()) {
        Ok(doc) => project(&doc, app_id),
        Err(reason) => Err(ApiError::MalformedResponse(reason)),
    }
}

/// Takes what the transport handed back for an app and decides what the fetch
/// yields and what goes into the cache.
///
/// A failure of the transport is handed on and nothing is stored. A response
/// is projected; it is stored, byte for byte, if it gave a record or said that
/// the store does not have the app, so that neither is asked for again.
pub fn get(app_id: i64, response: Result<String, ApiError>) -> (fetched: Fetched<SteamAppDetails>)
    ensures
        result_view(fetched.result) == fetched_result(response_view(response), app_id),
        write_view(fetched.write) == fetched_write(response_view(response), app_id),
{
    match response {
        Err(error) => Fetched { result: Err(error), write: None },
        Ok(body) => {
            let kept = body.clone();
            let result = parse_api_call_result(body, app_id);
            let keep = !kept.as_str().is_empty() && match &result {
                Ok(_) => true,
                Err(ApiError::UpstreamUnavailable) => true,
                Err(_) => false,
            };
            let write = if keep {
                Some(
                    CacheWrite {
                        directory: get_cache_dir_path(app_id),
                        filepath: get_resource_filepath(app_id),
                        contents: kept,
                    },
                )
            } else {
                None
            };
            Fetched { result, write }
        },
    }
}

/// Looks an app up in the cache, given the contents of its file if there is
/// one. A file is projected like a response; without a file the caller is
/// told what to fetch, and hands the response to `get`.
pub fn get_cached(app_id: i64, cached: Option<String>) -> (looked_up: Cached<SteamAppDetails>)
    ensures
        match looked_up {
            Cached::Hit(result) => cached_result(option_view(cached), app_id) == Some(
                result_view(result),
            ),
            Cached::Miss(request) => cached is None && request@ == (FetchRequestView {
                url: api_url(app_id),
                filepath: resource_filepath(app_id),
            }),
        },
{
    match cached {
        Some(contents) => Cached::Hit(parse_api_call_result(contents, app_id)),
        None => Cached::Miss(
            FetchRequest { url: get_api_url(app_id), filepath: get_resource_filepath(app_id) },
        ),
    }
}

/// The view of the contents of a file that may not be there.
pub open spec fn option_view(cached: Option<String>) -> Option<Seq<char>> {
    match cached {
        Some(contents) => Some(contents@),
        None => None,
    }
}

/// A false success flag decides alone: whatever else the document holds, the
/// projection says that the store does not have the app.
pub proof fn lemma_failure_flag_takes_precedence(doc: JsonValue, app_id: i64)
    requires
        doc.at(decimal(app_id as int)).at("success"@) == JsonValue::Bool(false),
    ensures
        projection(doc, app_id) == Err::<SteamAppDetailsView, ApiErrorView>(
            ApiErrorView::UpstreamUnavailable,
        ),
{
}

/// A true success flag is all that a projection needs: it succeeds whatever
/// the `data` member holds or lacks, and with no `data` at all the record has
/// nothing but zero values.
pub proof fn lemma_projection_succeeds_on_sparse_data(doc: JsonValue, app_id: i64)
    requires
        doc.at(decimal(app_id as int)).at("success"@) == JsonValue::Bool(true),
    ensures
        projection(doc, app_id) is Ok,
        doc.at(decimal(app_id as int)).member("data"@) is None ==> projection(doc, app_id) == Ok::<
            SteamAppDetailsView,
            ApiErrorView,
        >(SteamAppDetailsView::zero(app_id)),
{
    SteamAppDetailsView::lemma_nothing_read(JsonValue::Null, app_id);
}

/// The buckets of the apps with ids from zero on hold ten thousand ids each:
/// bucket `n` holds the ids from `10000 * n` up to `10000 * n + 9999`.
pub proof fn lemma_bucket_holds_ten_thousand_ids(app_id: i64)
    requires
        app_id >= 0,
    ensures
        bucket_of(app_id) >= 0,
        ENTRIES_PER_BUCKET * bucket_of(app_id) <= app_id < ENTRIES_PER_BUCKET * bucket_of(app_id)
            + ENTRIES_PER_BUCKET,
{
}

/// The name of an app's file: `<id>.json`.
pub open spec fn file_name(app_id: i64) -> Seq<char> {
    decimal(app_id as int) + "."@ + json_filetype()
}

/// The name of a file holds no slash.
proof fn lemma_file_name_has_no_slash(app_id: i64, i: int)
    requires
        0 <= i < file_name(app_id).len(),
    ensures
        file_name(app_id)[i] != '/',
        file_name(app_id).len() == decimal(app_id as int).len() + 5,
{
    reveal_strlit(".");
    reveal_strlit("json");
    let id = decimal(app_id as int);
    if i < id.len() {
        lemma_decimal_characters(app_id as int, i);
        assert(file_name(app_id)[i] == id[i]);
    }
}

/// No two apps share a file: apps with different ids have different paths.
pub proof fn lemma_apps_have_their_own_files(first: i64, second: i64)
    requires
        resource_filepath(first) == resource_filepath(second),
    ensures
        first == second,
{
    reveal_strlit("/");
    reveal_strlit(".");
    reveal_strlit("json");
    let path = resource_filepath(first);
    let a = file_name(first);
    let b = file_name(second);
    assert(path =~= cache_dir_path(first) + a);
    assert(path =~= cache_dir_path(second) + b);
    let slash_a = path.len() - a.len() - 1;
    let slash_b = path.len() - b.len() - 1;
    assert(cache_dir_path(first).last() == '/');
    assert(cache_dir_path(second).last() == '/');
    assert(path[slash_a] == '/');
    assert(path[slash_b] == '/');
    if a.len() < b.len() {
        lemma_file_name_has_no_slash(second, slash_a - (slash_b + 1));
        assert(path[slash_a] == b[slash_a - (slash_b + 1)]);
    } else if b.len() < a.len() {
        lemma_file_name_has_no_slash(first, slash_b - (slash_a + 1));
        assert(path[slash_b] == a[slash_b - (slash_a + 1)]);
    } else {
        assert(a =~= path.subrange(slash_a + 1, path.len() as int));
        assert(b =~= path.subrange(slash_b + 1, path.len() as int));
        lemma_file_name_has_no_slash(first, 0);
        lemma_file_name_has_no_slash(second, 0);
        let id_len = decimal(first as int).len() as int;
        assert(decimal(first as int) =~= a.subrange(0, id_len));
        assert(decimal(second as int) =~= b.subrange(0, id_len));
        lemma_decimal_is_injective(first as int, second as int);
    }
}

/// Whether a response states a record in full: under the app's id it holds a
/// true success flag and, as `data`, a document that states the record.
pub open spec fn states(doc: JsonValue, record: SteamAppDetailsView) -> bool {
    let answer = doc.at(decimal(record.app_id as int));
    &&& answer.member("success"@) == Some(JsonValue::Bool(true))
    &&& record.is_stated_by(answer.at("data"@))
}

/// The response that states a record in full and holds nothing else.
pub open spec fn response_document(record: SteamAppDetailsView) -> JsonValue {
    JsonValue::Object(
        seq![
            (
                decimal(record.app_id as int),
                JsonValue::Object(
                    seq![("success"@, JsonValue::Bool(true)), ("data"@, record.document())],
                ),
            ),
        ],
    )
}

/// A record is read back from every response that states it in full,
/// whatever the order of the members and whatever the response holds besides.
pub proof fn lemma_stated_record_is_read_back(doc: JsonValue, record: SteamAppDetailsView)
    requires
        states(doc, record),
    ensures
        projection(doc, record.app_id) == Ok::<SteamAppDetailsView, ApiErrorView>(record),
{
    record.lemma_read_back(doc.at(decimal(record.app_id as int)).at("data"@));
}

/// Writing a record out and projecting what was written gives the record
/// back.
pub proof fn lemma_round_trip(record: SteamAppDetailsView)
    ensures
        states(response_document(record), record),
        projection(response_document(record), record.app_id) == Ok::<
            SteamAppDetailsView,
            ApiErrorView,
        >(record),
{
    reveal_strlit("success");
    reveal_strlit("data");
    assert("success"@.len() == 7);
    assert("data"@.len() == 4);
    reveal_with_fuel(find_from, 3);
    record.lemma_document_states();
    lemma_stated_record_is_read_back(response_document(record), record);
}

/// After a fetch that stored its response, a look into the cache finds that
/// response under the same path, needs no second fetch, and yields what the
/// fetch yielded.
pub proof fn lemma_cached_after_fetch(app_id: i64, body: Seq<char>)
    requires
        fetched_write(Ok(body), app_id) is Some,
    ensures
        fetched_write(Ok(body), app_id)->Some_0.filepath == resource_filepath(app_id),
        cached_result(Some(fetched_write(Ok(body), app_id)->Some_0.contents), app_id) == Some(
            fetched_result(Ok(body), app_id),
        ),
{
}

/// A failure of the transport leaves the cache as it was.
pub proof fn lemma_transport_failure_stores_nothing(app_id: i64, error: ApiErrorView)
    ensures
        fetched_write(Err(error), app_id) is None,
        fetched_result(Err(error), app_id) == Err::<SteamAppDetailsView, ApiErrorView>(error),
{
}

} // verus!
