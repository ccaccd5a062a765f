//! The bulk harvest: which apps of the catalog are still to be fetched, what
//! to do after each fetch, and the ledger that lets an interrupted run go on
//! where it stopped.
//!
//! The caller sleeps, fetches and writes the ledger's file; what it does next
//! is decided here.

use vstd::prelude::*;
use vstd::string::*;
use crate::error::{result_view, ApiError, ApiErrorView};
use crate::isteam_apps::get_app_list::{SteamApp, SteamAppView};
use crate::json::{parse, parsed_json, views_of, Json, JsonValue};
use crate::store_steampowered_com::appdetails::{SteamAppDetails, SteamAppDetailsView};
use crate::text::decimal;
use crate::util::{cache_root, get_cache_dir_path, views};

verus! {

/// How long to wait before a fetch that failed for a transient reason is tried
/// again, in seconds.
pub const RETRY_AFTER_SECONDS: u64 = 60;

/// What the harvest does after a fetch.
#[derive(Debug, Clone, Copy, PartialEq, Eq, Structural)]
pub enum HarvestStep {
    /// The app is done, with a record or with a failure that will not go away:
    /// it is entered in the ledger and the harvest moves on.
    Processed,
    /// The fetch failed for a transient reason: the same app is fetched again
    /// after so many seconds, and is not entered in the ledger.
    RetryAfter(u64),
}

/// What follows a fetch: a failure of the transport or of the encoding is
/// tried again after the fixed interval; a record, and every other failure,
/// ends the work on the app.
pub open spec fn next_step(result: Result<SteamAppDetailsView, ApiErrorView>) -> HarvestStep {
    match result {
        Ok(_) => HarvestStep::Processed,
        Err(error) => if error.is_retryable() {
            HarvestStep::RetryAfter(RETRY_AFTER_SECONDS)
        } else {
            HarvestStep::Processed
        },
    }
}

/// The ids of a sequence in the order of their first occurrence, each once.
pub open spec fn each_once(ids: Seq<i64>) -> Seq<i64>
    decreases ids.len(),
{
    if ids.len() == 0 {
        Seq::empty()
    } else {
        with_id(each_once(ids.drop_last()), ids.last())
    }
}

/// A sequence of ids with one more id, which is appended unless it is there.
pub open spec fn with_id(ids: Seq<i64>, id: i64) -> Seq<i64> {
    if ids.contains(id) {
        ids
    } else {
        ids.push(id)
    }
}

/// The ids that a document lists: those of an array of integers.
pub open spec fn listed_ids(doc: JsonValue) -> Option<Seq<i64>> {
    match doc.items() {
        Some(items) => if forall|i: int|
            0 <= i < items.len() ==> (#[trigger] items[i].integer()) is Some {
            Some(items.map_values(|item: JsonValue| item.integer()->Some_0))
        } else {
            None
        },
        None => None,
    }
}

/// Why a ledger file that is JSON may still be malformed.
pub open spec fn not_a_list_of_ids() -> Seq<char> {
    "ledger is not a list of ids"@
}

/// The ledger that a file holds: none yet if the file is empty, and else the
/// ids that it lists, each once.
pub open spec fn loaded(contents: Seq<char>) -> Result<Seq<i64>, ApiErrorView> {
    if contents.len() == 0 {
        Ok(Seq::empty())
    } else {
        match parsed_json(contents) {
            Ok(doc) => match listed_ids(doc) {
                Some(ids) => Ok(each_once(ids)),
                None => Err(ApiErrorView::MalformedResponse(not_a_list_of_ids())),
            },
            Err(reason) => Err(ApiErrorView::MalformedResponse(reason)),
        }
    }
}

/// The decimal texts of ids, separated by commas.
pub open spec fn joined(ids: Seq<i64>) -> Seq<char>
    decreases ids.len(),
{
    if ids.len() == 0 {
        Seq::empty()
    } else if ids.len() == 1 {
        decimal(ids[0] as int)
    } else {
        joined(ids.drop_last()) + ","@ + decimal(ids.last() as int)
    }
}

/// The text of a ledger's file: a JSON array of integers, without spaces.
pub open spec fn ledger_text(ids: Seq<i64>) -> Seq<char> {
    "["@ + joined(ids) + "]"@
}

/// The file of the ledger: `<root>/processed_app_id_list.json`.
pub open spec fn ledger_filepath() -> Seq<char> {
    cache_root() + "/"@ + "processed_app_id_list.json"@
}

/// Whether an app is still to be harvested: its id is not in the ledger.
pub open spec fn is_pending(processed: Seq<i64>) -> spec_fn(SteamAppView) -> bool {
    |app: SteamAppView| !processed.contains(app.appid)
}

/// Writes a list of ids as JSON with `serde_json::to_string`, which gives the
/// compact form: the integers in decimal, separated by commas, in square
/// brackets. For a list of integers the serializer has no way to fail.
#[verifier::external_body]
fn encode_ids(ids: &Vec<i64>) -> (text: Option<String>)
    ensures
        text is Some,
        text->Some_0@ == ledger_text(ids@),
{
    serde_json::to_string(ids).ok()
}

/// The ids of the apps that have been harvested, in the order in which they
/// were done. No id is in it twice.
#[derive(Debug, Clone, PartialEq, Eq)]
pub struct ProcessedIdLedger {
    ids: Vec<i64>,
}

impl View for ProcessedIdLedger {
    type V = Seq<i64>;

    closed spec fn view(&self) -> Seq<i64> {
        self.ids@
    }
}

impl ProcessedIdLedger {
    /// What holds of every ledger that this library hands out: no id is in
    /// it twice.
    pub open spec fn well_formed(&self) -> bool {
        self@.no_duplicates()
    }

    /// The ledger of a harvest that has not begun.
    pub fn new() -> (ledger: ProcessedIdLedger)
        ensures
            ledger@ == Seq::<i64>::empty(),
            ledger.well_formed(),
    {
        ProcessedIdLedger { ids: Vec::new() }
    }

    /// Whether an app has been harvested.
    pub fn contains(&self, app_id: i64) -> (found: bool)
        ensures
            found == self@.contains(app_id),
    {
        let mut i: usize = 0;
        while i < self.ids.len()
            invariant
                i <= self.ids@.len(),
                forall|k: int| 0 <= k < i ==> self.ids@[k] != app_id,
            decreases self.ids.len() - i,
        {
            if self.ids[i] == app_id {
                return true;
            }
            i = i + 1;
        }
        false
    }

    /// Enters an app as harvested. An app that is in the ledger stays where
    /// it is.
    pub fn mark_processed(&mut self, app_id: i64)
        requires
            old(self).well_formed(),
        ensures
            final(self)@ == with_id(old(self)@, app_id),
            final(self).well_formed(),
    {
        if !self.contains(app_id) {
            self.ids.push(app_id);
        }
    }

    /// The ids in the ledger, in the order in which they were entered.
    pub fn ids(&self) -> (ids: &Vec<i64>)
        ensures
            ids@ == self@,
    {
        &self.ids
    }

    /// The ledger of a list of ids: each id once, in the order of its first
    /// occurrence.
    pub fn from_ids(ids: &Vec<i64>) -> (ledger: ProcessedIdLedger)
        ensures
            ledger@ == each_once(ids@),
            ledger.well_formed(),
    {
        let mut ledger = ProcessedIdLedger::new();
        let mut i: usize = 0;
        while i < ids.len()
            invariant
                i <= ids.len(),
                ledger@ == each_once(ids@.subrange(0, i as int)),
                ledger.well_formed(),
            decreases ids.len() - i,
        {
            proof {
                assert(ids@.subrange(0, i + 1).drop_last() =~= ids@.subrange(0, i as int));
            }
            ledger.mark_processed(ids[i]);
            i = i + 1;
        }
        proof {
            assert(ids@.subrange(0, i as int) =~= ids@);
        }
        ledger
    }

    /// Reads a ledger from the contents of its file. An empty file is the
    /// ledger of a harvest that has not begun.
    pub fn load(contents: &str) -> (result: Result<ProcessedIdLedger, ApiError>)
        ensures
            result_view(result) == loaded(contents@),
            result is Ok ==> result->Ok_0.well_formed(),
    {
        if contents.is_empty() {
            return Ok(ProcessedIdLedger::new());
        }
        match parse(contents) {
            Err(reason) => Err(ApiError::MalformedResponse(reason)),
            Ok(doc) => match read_ids(&doc) {
                Some(ids) => Ok(ProcessedIdLedger::from_ids(&ids)),
                None => Err(
                    ApiError::MalformedResponse(String::from_str("ledger is not a list of ids")),
                ),
            },
        }
    }

    /// The text to write into the ledger's file.
    pub fn serialize(&self) -> (text: String)
        ensures
            text@ == ledger_text(self@),
    {
        match encode_ids(&self.ids) {
            Some(text) => text,
            None => String::new(),
        }
    }

    /// The apps of a catalog that are still to be harvested, in the order of
    /// the catalog.
    pub fn pending(&self, apps: &Vec<SteamApp>) -> (rest: Vec<SteamApp>)
        ensures
            views(rest@) == views(apps@).filter(is_pending(self@)),
    {
        let mut rest: Vec<SteamApp> = Vec::new();
        let mut i: usize = 0;
        proof {
            reveal(Seq::filter);
            assert(views(apps@).subrange(0, 0) =~= Seq::<SteamAppView>::empty());
            assert(views(rest@) =~= views(apps@).subrange(0, 0).filter(is_pending(self@)));
        }
        while i < apps.len()
            invariant
                i <= apps.len(),
                views(rest@) == views(apps@).subrange(0, i as int).filter(is_pending(self@)),
            decreases apps.len() - i,
        {
            let ghost seen = views(apps@).subrange(0, i as int);
            proof {
                Seq::lemma_filter_push(seen, apps@[i as int]@, is_pending(self@));
                assert(views(apps@).subrange(0, i + 1) =~= seen.push(apps@[i as int]@));
            }
            if !self.contains(apps[i].appid) {
                let ghost before = rest@;
                let app = SteamApp { appid: apps[i].appid, name: apps[i].name.clone() };
                rest.push(app);
                assert(views(rest@) =~= views(before).push(apps@[i as int]@));
            }
            i = i + 1;
        }
        proof {
            assert(views(apps@).subrange(0, i as int) =~= views(apps@));
        }
        rest
    }

    /// Takes the outcome of the fetch of an app into account: the app is
    /// entered in the ledger unless the fetch is to be tried again.
    pub fn record(&mut self, app_id: i64, result: &Result<SteamAppDetails, ApiError>) -> (step:
        HarvestStep)
        requires
            old(self).well_formed(),
        ensures
            final(self).well_formed(),
            step == next_step(result_view(*result)),
            final(self)@ == match step {
                HarvestStep::Processed => with_id(old(self)@, app_id),
                HarvestStep::RetryAfter(_) => old(self)@,
            },
    {
        let step = retrieve_detailed_app_info(result);
        match step {
            HarvestStep::Processed => {
                self.mark_processed(app_id);
            },
            HarvestStep::RetryAfter(_) => {},
        }
        step
    }
}

fn read_ids(doc: &Json) -> (ids: Option<Vec<i64>>)
    ensures
        match ids {
            Some(list) => listed_ids(doc@) == Some(list@),
            None => listed_ids(doc@) is None,
        },
{
    match doc.as_array() {
        None => None,
        Some(items) => {
            let mut ids: Vec<i64> = Vec::new();
            let mut i: usize = 0;
            while i < items.len()
                invariant
                    i <= items.len(),
                    ids@.len() == i,
                    doc@.items() == Some(views_of(items@)),
                    forall|k: int|
                        0 <= k < i ==> (#[trigger] items@[k]@.integer()) == Some(ids@[k]),
                decreases items.len() - i,
            {
                match items[i].as_i64() {
                    Some(id) => {
                        ids.push(id);
                    },
                    None => {
                        assert(views_of(items@)[i as int].integer() is None);
                        return None;
                    },
                }
                i = i + 1;
            }
            proof {
                let listed = views_of(items@);
                assert forall|k: int| 0 <= k < listed.len() implies (
                #[trigger] listed[k].integer()) is Some by {
                    assert(items@[k]@.integer() is Some);
                }
                assert(ids@ =~= listed.map_values(|item: JsonValue| item.integer()->Some_0));
            }
            Some(ids)
        },
    }
}

/// The file of the ledger.
pub fn get_ledger_filepath() -> (filepath: String)
    ensures
        filepath@ == ledger_filepath(),
{
    let mut filepath = get_cache_dir_path();
    filepath.append("/");
    filepath.append("processed_app_id_list.json");
    filepath
}

/// Decides what follows the fetch of an app: a failure of the transport or of
/// the encoding is tried again after `RETRY_AFTER_SECONDS`; a record, and a
/// failure that will not go away, end the work on the app.
pub fn retrieve_detailed_app_info(result: &Result<SteamAppDetails, ApiError>) -> (step: HarvestStep)
    ensures
        step == next_step(result_view(*result)),
{
    match result {
        Ok(_) => HarvestStep::Processed,
        Err(error) => if error.is_retryable() {
            HarvestStep::RetryAfter(RETRY_AFTER_SECONDS)
        } else {
            HarvestStep::Processed
        },
    }
}

/// An app that is in the ledger is not harvested again: it is not among the
/// pending apps of any catalog.
pub proof fn lemma_processed_is_not_pending(processed: Seq<i64>, apps: Seq<SteamAppView>, i: int)
    requires
        0 <= i < apps.filter(is_pending(processed)).len(),
    ensures
        !processed.contains(apps.filter(is_pending(processed))[i].appid),
{
    apps.lemma_filter_pred(is_pending(processed), i);
}

/// An app that has been entered is in the ledger, and entering it again
/// changes nothing.
pub proof fn lemma_entered_once(processed: Seq<i64>, app_id: i64)
    requires
        processed.no_duplicates(),
    ensures
        with_id(processed, app_id).contains(app_id),
        with_id(processed, app_id).no_duplicates(),
        with_id(with_id(processed, app_id), app_id) == with_id(processed, app_id),
{
    if !processed.contains(app_id) {
        let longer = processed.push(app_id);
        assert(longer[processed.len() as int] == app_id);
    }
}

} // verus!
