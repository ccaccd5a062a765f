//! The method `GetMatchHistory`: the matches that an account played, or that
//! meet other criteria.

use vstd::prelude::*;
use vstd::string::*;
use crate::error::{result_view, ApiError, ApiErrorView};
use crate::idota2match_570::{get_interface, interface};
use crate::json::{parse, parsed_json, views_of, Json, JsonValue};
use crate::text::{decimal, i64_to_string, u64_to_string};
use crate::url::{build_query_url, is_plain_name, location, push_parameter};
use crate::util::views;

verus! {

/// The status with which the API says that the account does not share its
/// match history.
pub const MATCH_HISTORY_IS_NOT_ALLOWED_BY_USER_PREFERENCES: u8 = 15;

/// One player of a match.
#[derive(Debug, Clone, PartialEq, Eq)]
pub struct Participant {
    /// The account, in its 32 bit form.
    pub account_id: i64,
    pub player_slot: i64,
    pub team_number: i64,
    pub team_slot: u8,
    pub hero_id: i64,
}

/// A `Participant` as a mathematical value.
pub struct ParticipantView {
    pub account_id: i64,
    pub player_slot: i64,
    pub team_number: i64,
    pub team_slot: u8,
    pub hero_id: i64,
}

impl View for Participant {
    type V = ParticipantView;

    open spec fn view(&self) -> ParticipantView {
        ParticipantView {
            account_id: self.account_id,
            player_slot: self.player_slot,
            team_number: self.team_number,
            team_slot: self.team_slot,
            hero_id: self.hero_id,
        }
    }
}

/// One match.
#[derive(Debug, Clone, PartialEq, Eq)]
pub struct MatchHistory {
    pub match_id: i64,
    pub match_seq_num: i64,
    pub start_time: i64,
    pub lobby_type: i64,
    pub radiant_team_id: i64,
    pub dire_team_id: i64,
    pub players: Vec<Participant>,
}

/// A `MatchHistory` as a mathematical value.
pub struct MatchHistoryView {
    pub match_id: i64,
    pub match_seq_num: i64,
    pub start_time: i64,
    pub lobby_type: i64,
    pub radiant_team_id: i64,
    pub dire_team_id: i64,
    pub players: Seq<ParticipantView>,
}

impl View for MatchHistory {
    type V = MatchHistoryView;

    open spec fn view(&self) -> MatchHistoryView {
        MatchHistoryView {
            match_id: self.match_id,
            match_seq_num: self.match_seq_num,
            start_time: self.start_time,
            lobby_type: self.lobby_type,
            radiant_team_id: self.radiant_team_id,
            dire_team_id: self.dire_team_id,
            players: views(self.players@),
        }
    }
}

/// A page of matches.
#[derive(Debug, Clone, PartialEq, Eq)]
pub struct ResponseMatchHistory {
    pub status: i64,
    pub num_results: i64,
    pub total_results: i64,
    pub results_remaining: i64,
    pub matches: Vec<MatchHistory>,
}

/// A `ResponseMatchHistory` as a mathematical value.
pub struct ResponseMatchHistoryView {
    pub status: i64,
    pub num_results: i64,
    pub total_results: i64,
    pub results_remaining: i64,
    pub matches: Seq<MatchHistoryView>,
}

impl View for ResponseMatchHistory {
    type V = ResponseMatchHistoryView;

    open spec fn view(&self) -> ResponseMatchHistoryView {
        ResponseMatchHistoryView {
            status: self.status,
            num_results: self.num_results,
            total_results: self.total_results,
            results_remaining: self.results_remaining,
            matches: views(self.matches@),
        }
    }
}

/// The numbers of the game modes.
#[derive(Debug, Clone, Copy, PartialEq, Eq)]
pub struct GameMode {
    pub none: u8,
    pub all_pick: u8,
    pub captains_mode: u8,
    pub random_draft: u8,
    pub single_draft: u8,
    pub all_random: u8,
    pub intro: u8,
    pub diretide: u8,
    pub reverse_captains_mode: u8,
    pub the_greeviling: u8,
    pub tutorial: u8,
    pub mid_only: u8,
    pub least_played: u8,
    pub new_player_pool: u8,
    pub compendium_matchmaking: u8,
    pub captains_draft: u8,
}

/// The numbers of the skill brackets.
#[derive(Debug, Clone, Copy, PartialEq, Eq)]
pub struct Skill {
    pub any: u8,
    pub normal: u8,
    pub high: u8,
    pub very_high: u8,
}

/// The numbers of the lobby types.
#[derive(Debug, Clone, Copy, PartialEq, Eq)]
pub struct LobbyType {
    pub invalid: i8,
    pub public_matchmaking: u8,
    pub practise: u8,
    pub tournament: u8,
    pub tutorial: u8,
    pub co_op_with_bots: u8,
    pub team_match: u8,
    pub solo_queue: u8,
    pub ranked_matchmaking: u8,
    pub one_vs_one_solo_mid: u8,
}

/// The numbers of the game modes.
pub fn game_mode() -> (modes: GameMode)
    ensures
        modes == (GameMode {
            none: 0,
            all_pick: 1,
            captains_mode: 2,
            random_draft: 3,
            single_draft: 4,
            all_random: 5,
            intro: 6,
            diretide: 7,
            reverse_captains_mode: 8,
            the_greeviling: 9,
            tutorial: 10,
            mid_only: 11,
            least_played: 12,
            new_player_pool: 13,
            compendium_matchmaking: 14,
            captains_draft: 16,
        }),
{
    GameMode {
        none: 0,
        all_pick: 1,
        captains_mode: 2,
        random_draft: 3,
        single_draft: 4,
        all_random: 5,
        intro: 6,
        diretide: 7,
        reverse_captains_mode: 8,
        the_greeviling: 9,
        tutorial: 10,
        mid_only: 11,
        least_played: 12,
        new_player_pool: 13,
        compendium_matchmaking: 14,
        captains_draft: 16,
    }
}

/// The numbers of the skill brackets.
pub fn player_skill() -> (skills: Skill)
    ensures
        skills == (Skill { any: 0, normal: 1, high: 2, very_high: 3 }),
{
    Skill { any: 0, normal: 1, high: 2, very_high: 3 }
}

/// The numbers of the lobby types.
pub fn lobby_type() -> (types: LobbyType)
    ensures
        types == (LobbyType {
            invalid: -1i8,
            public_matchmaking: 0,
            practise: 1,
            tournament: 2,
            tutorial: 3,
            co_op_with_bots: 4,
            team_match: 5,
            solo_queue: 6,
            ranked_matchmaking: 7,
            one_vs_one_solo_mid: 8,
        }),
{
    LobbyType {
        invalid: -1,
        public_matchmaking: 0,
        practise: 1,
        tournament: 2,
        tutorial: 3,
        co_op_with_bots: 4,
        team_match: 5,
        solo_queue: 6,
        ranked_matchmaking: 7,
        one_vs_one_solo_mid: 8,
    }
}

/// The name of the method.
pub open spec fn method_name() -> Seq<char> {
    "GetMatchHistory"@
}

/// The version of the method.
pub open spec fn version() -> Seq<char> {
    "v1"@
}

/// The path of the method: `/<interface>/<method>/<version>`.
pub open spec fn method_path() -> Seq<char> {
    "/"@ + interface() + "/"@ + method_name() + "/"@ + version()
}

/// The text of a truth value.
pub open spec fn flag_text(flag: bool) -> Seq<char> {
    if flag {
        "true"@
    } else {
        "false"@
    }
}

/// A query with one more parameter, if a value is given for it.
pub open spec fn with_parameter(
    query: Seq<(Seq<char>, Seq<char>)>,
    name: Seq<char>,
    value: Option<Seq<char>>,
) -> Seq<(Seq<char>, Seq<char>)> {
    match value {
        Some(text) => query.push((name, text)),
        None => query,
    }
}

/// The decimal text of a number that may be absent.
pub open spec fn decimal_of(number: Option<int>) -> Option<Seq<char>> {
    match number {
        Some(n) => Some(decimal(n)),
        None => None,
    }
}

/// The query of a request: one parameter for each criterion that is given,
/// and the caller's key.
pub open spec fn query(
    account_id: Option<int>,
    game_mode: Option<int>,
    skill: Option<int>,
    min_players: Option<int>,
    start_at_match_id: Option<int>,
    matches_requested: Option<int>,
    tournament_games_only: Option<bool>,
    key: Seq<char>,
) -> Seq<(Seq<char>, Seq<char>)> {
    let q = Seq::<(Seq<char>, Seq<char>)>::empty();
    let q = with_parameter(q, "account_id"@, decimal_of(account_id));
    let q = with_parameter(q, "game_mode"@, decimal_of(game_mode));
    let q = with_parameter(q, "skill"@, decimal_of(skill));
    let q = with_parameter(q, "min_players"@, decimal_of(min_players));
    let q = with_parameter(q, "start_at_match_id"@, decimal_of(start_at_match_id));
    let q = with_parameter(q, "matches_requested"@, decimal_of(matches_requested));
    let q = with_parameter(
        q,
        "tournament_games_only"@,
        match tournament_games_only {
            Some(flag) => Some(flag_text(flag)),
            None => None,
        },
    );
    q.push(("key"@, key))
}

/// The least significant byte of a number.
pub open spec fn low_byte(number: i64) -> u8 {
    (number as int % 256) as u8
}

impl ParticipantView {
    /// What a document says of a player: each field is read on its own, and
    /// one that is absent or no integer is zero. Of the team slot the least
    /// significant byte is kept.
    pub open spec fn of(doc: JsonValue) -> ParticipantView {
        ParticipantView {
            account_id: doc.integer_or_zero("account_id"@),
            player_slot: doc.integer_or_zero("player_slot"@),
            team_number: doc.integer_or_zero("team_number"@),
            team_slot: low_byte(doc.integer_or_zero("team_slot"@)),
            hero_id: doc.integer_or_zero("hero_id"@),
        }
    }
}

impl MatchHistoryView {
    /// What a document says of a match, if it lists the players.
    pub open spec fn of(doc: JsonValue) -> Option<MatchHistoryView> {
        match doc.at("players"@).items() {
            Some(players) => Some(
                MatchHistoryView {
                    match_id: doc.integer_or_zero("match_id"@),
                    match_seq_num: doc.integer_or_zero("match_seq_num"@),
                    start_time: doc.integer_or_zero("start_time"@),
                    lobby_type: doc.integer_or_zero("lobby_type"@),
                    radiant_team_id: doc.integer_or_zero("radiant_team_id"@),
                    dire_team_id: doc.integer_or_zero("dire_team_id"@),
                    players: players.map_values(|player: JsonValue| ParticipantView::of(player)),
                },
            ),
            None => None,
        }
    }
}

/// Why a response that is JSON may still be malformed: it states no status.
pub open spec fn missing_status() -> Seq<char> {
    "response does not contain a status"@
}

/// Why a response that is JSON may still be malformed: it lists no matches.
pub open spec fn missing_matches() -> Seq<char> {
    "response does not contain any matches!"@
}

/// Why a response that is JSON may still be malformed: one of its matches
/// lists no players.
pub open spec fn missing_players() -> Seq<char> {
    "response does not contain players!"@
}

/// What a response document says of the matches.
///
/// Everything is read from the `result` member. Its status is required; a
/// status whose least significant byte is 15 means that the account does not
/// share its history. The matches are required, and so are the players of each
/// match. Every other field is zero where it is absent or no integer.
pub open spec fn history(doc: JsonValue) -> Result<ResponseMatchHistoryView, ApiErrorView> {
    let result = doc.at("result"@);
    match result.at("status"@).integer() {
        None => Err(ApiErrorView::MalformedResponse(missing_status())),
        Some(status) => if low_byte(status) == MATCH_HISTORY_IS_NOT_ALLOWED_BY_USER_PREFERENCES {
            Err(ApiErrorView::MatchHistoryNotAllowed)
        } else {
            match result.at("matches"@).items() {
                None => Err(ApiErrorView::MalformedResponse(missing_matches())),
                Some(matches) => if forall|i: int|
                    0 <= i < matches.len() ==> (#[trigger] MatchHistoryView::of(
                        matches[i],
                    )) is Some {
                    Ok(
                        ResponseMatchHistoryView {
                            status,
                            num_results: result.integer_or_zero("num_results"@),
                            total_results: result.integer_or_zero("total_results"@),
                            results_remaining: result.integer_or_zero("results_remaining"@),
                            matches: matches.map_values(
                                |item: JsonValue| MatchHistoryView::of(item)->Some_0,
                            ),
                        },
                    )
                } else {
                    Err(ApiErrorView::MalformedResponse(missing_players()))
                },
            }
        },
    }
}

/// What a response text says of the matches: what the parser objects to if it
/// is no JSON, and else the history of the document that it writes.
pub open spec fn outcome(response: Seq<char>) -> Result<ResponseMatchHistoryView, ApiErrorView> {
    match parsed_json(response) {
        Ok(doc) => history(doc),
        Err(reason) => Err(ApiErrorView::MalformedResponse(reason)),
    }
}

/// What a fetch yields, given what the transport handed back.
pub open spec fn fetched_result(response: Result<Seq<char>, ApiErrorView>) -> Result<
    ResponseMatchHistoryView,
    ApiErrorView,
> {
    match response {
        Ok(body) => outcome(body),
        Err(error) => Err(error),
    }
}

/// The view of what the transport handed back.
pub open spec fn response_view(response: Result<String, ApiError>) -> Result<
    Seq<char>,
    ApiErrorView,
> {
    match response {
        Ok(body) => Ok(body@),
        Err(error) => Err(error@),
    }
}

/// The name of the method.
pub fn get_method_name() -> (name: String)
    ensures
        name@ == method_name(),
{
    String::from_str("GetMatchHistory")
}

/// The version of the method.
pub fn get_version() -> (name: String)
    ensures
        name@ == version(),
{
    String::from_str("v1")
}

/// The path of the method.
pub fn get_method_path() -> (path: String)
    ensures
        path@ == method_path(),
{
    let interface = get_interface();
    let method = get_method_name();
    let version = get_version();
    let mut path = String::from_str("/");
    path.append(interface.as_str());
    path.append("/");
    path.append(method.as_str());
    path.append("/");
    path.append(version.as_str());
    path
}

/// The names of the parameters are plain, and no two of them are the same.
proof fn lemma_parameter_names()
    ensures
        is_plain_name("account_id"@),
        is_plain_name("game_mode"@),
        is_plain_name("skill"@),
        is_plain_name("min_players"@),
        is_plain_name("start_at_match_id"@),
        is_plain_name("matches_requested"@),
        is_plain_name("tournament_games_only"@),
        is_plain_name("key"@),
        "account_id"@.len() == 10,
        "game_mode"@.len() == 9,
        "skill"@.len() == 5,
        "min_players"@.len() == 11,
        "start_at_match_id"@.len() == 17,
        "matches_requested"@.len() == 17,
        "tournament_games_only"@.len() == 21,
        "key"@.len() == 3,
        "start_at_match_id"@[0] == 's',
        "matches_requested"@[0] == 'm',
{
    reveal_strlit("account_id");
    reveal_strlit("game_mode");
    reveal_strlit("skill");
    reveal_strlit("min_players");
    reveal_strlit("start_at_match_id");
    reveal_strlit("matches_requested");
    reveal_strlit("tournament_games_only");
    reveal_strlit("key");
}

/// The location that answers with the matches that meet the given criteria,
/// for the caller's key.
pub fn get_api_url(
    account_id: Option<i64>,
    game_mode: Option<u8>,
    skill: Option<u8>,
    min_players: Option<u32>,
    start_at_match_id: Option<u64>,
    matches_requested: Option<u32>,
    tournament_games_only: Option<bool>,
    steam_web_api_key: &str,
) -> (url: String)
    ensures
        url@ == location(
            crate::scheme(),
            crate::host(),
            method_path(),
            query(
                match account_id {
                    Some(n) => Some(n as int),
                    None => None,
                },
                match game_mode {
                    Some(n) => Some(n as int),
                    None => None,
                },
                match skill {
                    Some(n) => Some(n as int),
                    None => None,
                },
                match min_players {
                    Some(n) => Some(n as int),
                    None => None,
                },
                match start_at_match_id {
                    Some(n) => Some(n as int),
                    None => None,
                },
                match matches_requested {
                    Some(n) => Some(n as int),
                    None => None,
                },
                tournament_games_only,
                steam_web_api_key@,
            ),
        ),
{
    let mut parameters: Vec<(String, String)> = Vec::new();
    assert(parameters.deep_view() =~= Seq::<(Seq<char>, Seq<char>)>::empty());
    match account_id {
        Some(n) => {
            push_parameter(&mut parameters, "account_id", i64_to_string(n));
        },
        None => {},
    }
    match game_mode {
        Some(n) => {
            push_parameter(&mut parameters, "game_mode", u64_to_string(n as u64));
        },
        None => {},
    }
    match skill {
        Some(n) => {
            push_parameter(&mut parameters, "skill", u64_to_string(n as u64));
        },
        None => {},
    }
    match min_players {
        Some(n) => {
            push_parameter(&mut parameters, "min_players", u64_to_string(n as u64));
        },
        None => {},
    }
    match start_at_match_id {
        Some(n) => {
            push_parameter(&mut parameters, "start_at_match_id", u64_to_string(n));
        },
        None => {},
    }
    match matches_requested {
        Some(n) => {
            push_parameter(&mut parameters, "matches_requested", u64_to_string(n as u64));
        },
        None => {},
    }
    match tournament_games_only {
        Some(flag) => {
            let text = if flag {
                String::from_str("true")
            } else {
                String::from_str("false")
            };
            push_parameter(&mut parameters, "tournament_games_only", text);
        },
        None => {},
    }
    push_parameter(&mut parameters, "key", String::from_str(steam_web_api_key));
    proof {
        lemma_parameter_names();
    }
    match build_query_url(crate::get_scheme(), crate::get_host(), get_method_path(), parameters) {
        Ok(url) => url,
        Err(_) => String::new(),
    }
}

fn low_byte_of(number: i64) -> (byte: u8)
    ensures
        byte == low_byte(number),
{
    let remainder = number % 256;
    if remainder < 0 {
        (remainder + 256) as u8
    } else {
        remainder as u8
    }
}

fn read_participant(doc: &Json) -> (player: Participant)
    ensures
        player@ == ParticipantView::of(doc@),
{
    Participant {
        account_id: doc.integer_or_zero("account_id"),
        player_slot: doc.integer_or_zero("player_slot"),
        team_number: doc.integer_or_zero("team_number"),
        team_slot: low_byte_of(doc.integer_or_zero("team_slot")),
        hero_id: doc.integer_or_zero("hero_id"),
    }
}

fn read_match(doc: &Json) -> (played: Option<MatchHistory>)
    ensures
        match played {
            Some(record) => MatchHistoryView::of(doc@) == Some(record@),
            None => MatchHistoryView::of(doc@) is None,
        },
{
    let null = Json::Null;
    match doc.get_or("players", &null).as_array() {
        None => None,
        Some(items) => {
            let mut players: Vec<Participant> = Vec::new();
            let mut i: usize = 0;
            while i < items.len()
                invariant
                    i <= items.len(),
                    players@.len() == i,
                    forall|k: int|
                        0 <= k < i ==> (#[trigger] players@[k])@ == ParticipantView::of(items@[k]@),
                decreases items.len() - i,
            {
                players.push(read_participant(&items[i]));
                i = i + 1;
            }
            assert(views(players@) =~= views_of(items@).map_values(
                |player: JsonValue| ParticipantView::of(player),
            ));
            Some(
                MatchHistory {
                    match_id: doc.integer_or_zero("match_id"),
                    match_seq_num: doc.integer_or_zero("match_seq_num"),
                    start_time: doc.integer_or_zero("start_time"),
                    lobby_type: doc.integer_or_zero("lobby_type"),
                    radiant_team_id: doc.integer_or_zero("radiant_team_id"),
                    dire_team_id: doc.integer_or_zero("dire_team_id"),
                    players,
                },
            )
        },
    }
}

/// Projects a response document into a page of matches.
pub fn project(doc: &Json) -> (result: Result<ResponseMatchHistory, ApiError>)
    ensures
        result_view(result) == history(doc@),
{
    let null = Json::Null;
    let result = doc.get_or("result", &null);
    let status = match result.get_or("status", &null).as_i64() {
        None => {
            return Err(
                ApiError::MalformedResponse(String::from_str("response does not contain a status")),
            );
        },
        Some(status) => status,
    };
    if low_byte_of(status) == MATCH_HISTORY_IS_NOT_ALLOWED_BY_USER_PREFERENCES {
        return Err(ApiError::MatchHistoryNotAllowed);
    }
    let items = match result.get_or("matches", &null).as_array() {
        None => {
            return Err(
                ApiError::MalformedResponse(
                    String::from_str("response does not contain any matches!"),
                ),
            );
        },
        Some(items) => items,
    };
    let ghost listed = views_of(items@);
    let mut matches: Vec<MatchHistory> = Vec::new();
    let mut i: usize = 0;
    while i < items.len()
        invariant
            i <= items.len(),
            matches@.len() == i,
            listed == views_of(items@),
            doc@.at("result"@).at("matches"@).items() == Some(listed),
            doc@.at("result"@).at("status"@).integer() == Some(status),
            low_byte(status) != MATCH_HISTORY_IS_NOT_ALLOWED_BY_USER_PREFERENCES,
            forall|k: int|
                0 <= k < i ==> MatchHistoryView::of(#[trigger] listed[k]) == Some(matches@[k]@),
        decreases items.len() - i,
    {
        match read_match(&items[i]) {
            Some(played) => {
                matches.push(played);
            },
            None => {
                assert(MatchHistoryView::of(listed[i as int]) is None);
                return Err(
                    ApiError::MalformedResponse(
                        String::from_str("response does not contain players!"),
                    ),
                );
            },
        }
        i = i + 1;
    }
    proof {
        assert forall|k: int| 0 <= k < listed.len() implies (#[trigger] MatchHistoryView::of(
            listed[k],
        )) is Some by {
            assert(MatchHistoryView::of(listed[k]) == Some(matches@[k]@));
        }
        assert(views(matches@) =~= listed.map_values(
            |item: JsonValue| MatchHistoryView::of(item)->Some_0,
        ));
    }
    Ok(
        ResponseMatchHistory {
            status,
            num_results: result.integer_or_zero("num_results"),
            total_results: result.integer_or_zero("total_results"),
            results_remaining: result.integer_or_zero("results_remaining"),
            matches,
        },
    )
}

/// Projects a response text into a page of matches.
pub fn parse_response(response: String) -> (result: Result<ResponseMatchHistory, ApiError>)
    ensures
        result_view(result) == outcome(response@),
{
    match parse(response.as_str()) {
        Ok(doc) => project(&doc),
        Err(reason) => Err(ApiError::MalformedResponse(reason)),
    }
}

/// Takes what the transport handed back for a request of `get_api_url` and
/// gives the matches that it lists. A failure of the transport is handed on.
pub fn get(response: Result<String, ApiError>) -> (result: Result<ResponseMatchHistory, ApiError>)
    ensures
        result_view(result) == fetched_result(response_view(response)),
{
    match response {
        Ok(body) => parse_response(body),
        Err(error) => Err(error),
    }
}

} // verus!
