//! The method `GetMatchDetails`: one match in full.
//!
//! The record of a match is laid out here and a response is checked to be
//! JSON; none of its fields is read yet, so the record of every response is
//! blank.

use vstd::prelude::*;
use vstd::string::*;
use crate::error::{ApiError, ApiErrorView};
use crate::idota2match_570::{get_interface, interface};
use crate::json::{parse, parsed_json};
use crate::text::{decimal, u64_to_string};
use crate::url::{build_query_url, is_plain_name, location, push_parameter};

verus! {

/// What one player did in a match.
#[derive(Debug, Clone, PartialEq, Eq)]
pub struct PlayerStats {
    pub account_id: u64,
    pub player_slot: u64,
    pub team_number: u64,
    pub team_slot: u64,
    pub hero_id: u64,
    pub item_0: u64,
    pub item_1: u64,
    pub item_2: u64,
    pub item_3: u64,
    pub item_4: u64,
    pub item_5: u64,
    pub backpack_0: u64,
    pub backpack_1: u64,
    pub backpack_2: u64,
    pub item_neutral: u64,
    pub kills: u64,
    pub deaths: u64,
    pub assists: u64,
    pub leaver_status: u64,
    pub last_hits: u64,
    pub denies: u64,
    pub gold_per_min: u64,
    pub xp_per_min: u64,
    pub level: u64,
    pub net_worth: u64,
    pub aghanims_scepter: u64,
    pub aghanims_shard: u64,
}

/// One match in full.
#[derive(Debug, Clone, PartialEq, Eq)]
pub struct MatchResult {
    pub radiant_win: bool,
    pub duration: u64,
    pub pre_game_duration: u64,
    pub start_time: u64,
    pub match_id: u64,
    pub match_seq_num: u64,
    pub tower_status_radiant: u64,
    pub tower_status_dire: u64,
    pub barracks_status_radiant: u64,
    pub barracks_status_dire: u64,
    pub cluster: u64,
    pub first_blood_time: u64,
    pub lobby_type: u64,
    pub human_players: u64,
    pub leagueid: u64,
    pub positive_votes: u64,
    pub negative_votes: u64,
    pub game_mode: u64,
    pub flags: u64,
    pub engine: u64,
    pub radiant_score: u64,
    pub dire_score: u64,
    pub players: Vec<PlayerStats>,
}

impl MatchResult {
    /// Whether nothing is entered in the record: every number is zero, Radiant
    /// has not won, and no player is listed.
    pub open spec fn is_blank(&self) -> bool {
        &&& !self.radiant_win
        &&& self.duration == 0
        &&& self.pre_game_duration == 0
        &&& self.start_time == 0
        &&& self.match_id == 0
        &&& self.match_seq_num == 0
        &&& self.tower_status_radiant == 0
        &&& self.tower_status_dire == 0
        &&& self.barracks_status_radiant == 0
        &&& self.barracks_status_dire == 0
        &&& self.cluster == 0
        &&& self.first_blood_time == 0
        &&& self.lobby_type == 0
        &&& self.human_players == 0
        &&& self.leagueid == 0
        &&& self.positive_votes == 0
        &&& self.negative_votes == 0
        &&& self.game_mode == 0
        &&& self.flags == 0
        &&& self.engine == 0
        &&& self.radiant_score == 0
        &&& self.dire_score == 0
        &&& self.players@.len() == 0
    }

    /// The record in which nothing is entered.
    pub fn blank() -> (record: MatchResult)
        ensures
            record.is_blank(),
    {
        MatchResult {
            radiant_win: false,
            duration: 0,
            pre_game_duration: 0,
            start_time: 0,
            match_id: 0,
            match_seq_num: 0,
            tower_status_radiant: 0,
            tower_status_dire: 0,
            barracks_status_radiant: 0,
            barracks_status_dire: 0,
            cluster: 0,
            first_blood_time: 0,
            lobby_type: 0,
            human_players: 0,
            leagueid: 0,
            positive_votes: 0,
            negative_votes: 0,
            game_mode: 0,
            flags: 0,
            engine: 0,
            radiant_score: 0,
            dire_score: 0,
            players: Vec::new(),
        }
    }
}

/// The name of the method.
pub open spec fn method_name() -> Seq<char> {
    "GetMatchDetails"@
}

/// The version of the method.
pub open spec fn version() -> Seq<char> {
    "v1"@
}

/// The path of the method: `/<interface>/<method>/<version>`.
pub open spec fn method_path() -> Seq<char> {
    "/"@ + interface() + "/"@ + method_name() + "/"@ + version()
}

/// The query of a request: the match and the caller's key.
pub open spec fn query(match_id: u64, key: Seq<char>) -> Seq<(Seq<char>, Seq<char>)> {
    seq![("match_id"@, decimal(match_id as int)), ("key"@, key)]
}

/// The name of the method.
pub fn get_method_name() -> (name: String)
    ensures
        name@ == method_name(),
{
    String::from_str("GetMatchDetails")
}

/// The version of the method.
pub fn get_version() -> (name: String)
    ensures
        name@ == version(),
{
    String::from_str("v1")
}

/// The path of the method.
pub fn get_method_path() -> (path: String)
    ensures
        path@ == method_path(),
{
    let interface = get_interface();
    let method = get_method_name();
    let version = get_version();
    let mut path = String::from_str("/");
    path.append(interface.as_str());
    path.append("/");
    path.append(method.as_str());
    path.append("/");
    path.append(version.as_str());
    path
}

/// The location that answers with a match in full, for the caller's key.
pub fn get_api_url(match_id: u64, steam_web_api_key: &str) -> (url: String)
    ensures
        url@ == location(
            crate::scheme(),
            crate::host(),
            method_path(),
            query(match_id, steam_web_api_key@),
        ),
{
    let mut parameters: Vec<(String, String)> = Vec::new();
    assert(parameters.deep_view() =~= Seq::<(Seq<char>, Seq<char>)>::empty());
    push_parameter(&mut parameters, "match_id", u64_to_string(match_id));
    push_parameter(&mut parameters, "key", String::from_str(steam_web_api_key));
    proof {
        reveal_strlit("match_id");
        reveal_strlit("key");
        assert(is_plain_name("match_id"@));
        assert(is_plain_name("key"@));
        assert("match_id"@.len() == 8);
        assert("key"@.len() == 3);
        assert(parameters.deep_view() =~= query(match_id, steam_web_api_key@));
    }
    match build_query_url(crate::get_scheme(), crate::get_host(), get_method_path(), parameters) {
        Ok(url) => url,
        Err(_) => String::new(),
    }
}

/// Checks that a response is JSON. The record of a response that is, is
/// blank; of one that is not, the parser's objection is handed on.
pub fn parse_response(response: String) -> (result: Result<MatchResult, ApiError>)
    ensures
        match result {
            Ok(record) => parsed_json(response@) is Ok && record.is_blank(),
            Err(error) => parsed_json(response@) is Err && error@
                == ApiErrorView::MalformedResponse(parsed_json(response@)->Err_0),
        },
{
    match parse(response.as_str()) {
        Ok(_) => Ok(MatchResult::blank()),
        Err(reason) => Err(ApiError::MalformedResponse(reason)),
    }
}

} // verus!
