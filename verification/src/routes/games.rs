//! Looking games up: by a search term, from the store first and from the
//! catalog where the store has too little, and by identifier.

use crate::error::{Failure, IgdbcError};
use crate::igdb::game::{CatalogGame, IgdbGame};
use crate::models::games::{searchable_name, Entity, GameRow, Model, NameSearch};
use crate::models::queries::{recent, Attempt, AttemptRowWrite, AttemptWrite};
use crate::text::{signed_decimal, signed_decimal_string};
use crate::views::{GameCard, GameJson};
use vstd::prelude::*;
use vstd::string::{StrSliceExecFns, StringExecFns};

verus! {

/// The longest search term that is accepted, in characters.
pub const MAX_GAME_QUERY_LENGTH: usize = 32;

/// How many games a lookup answers with at most.
pub const MAX_RESULTS: usize = 10;

/// Why a request for games cannot be served.
#[derive(Debug, Clone, Copy, PartialEq, Eq, Structural)]
pub enum GameFetchError {
    /// The cache for the term is being filled.
    RepopulatingCache,
    /// The search term is longer than `MAX_GAME_QUERY_LENGTH`.
    QueryTooLong,
    /// No game with this identifier is stored.
    IdNotFound(i32),
}

impl GameFetchError {
    pub open spec fn spec_code(self) -> u8 {
        match self {
            GameFetchError::RepopulatingCache => 0,
            GameFetchError::QueryTooLong => 1,
            GameFetchError::IdNotFound(_) => 2,
        }
    }

    pub open spec fn spec_status(self) -> u16 {
        match self {
            GameFetchError::IdNotFound(_) => 404,
            _ => 400,
        }
    }

    pub open spec fn spec_message(self) -> Seq<char> {
        match self {
            GameFetchError::RepopulatingCache =>
                "Populating game cache for query, please try again later."@,
            GameFetchError::QueryTooLong => "The query you provided is too long"@,
            GameFetchError::IdNotFound(id) => "Could not find a game with ID '"@ + signed_decimal(
                id as int,
            ) + "'"@,
        }
    }

    /// The number by which clients tell the errors apart.
    pub fn code(&self) -> (code: u8)
        ensures
            code == self.spec_code(),
    {
        match self {
            GameFetchError::RepopulatingCache => 0,
            GameFetchError::QueryTooLong => 1,
            GameFetchError::IdNotFound(_) => 2,
        }
    }

    /// The HTTP status of the answer: 404 for a game that is not there, 400
    /// for the others.
    pub fn status(&self) -> (code: u16)
        ensures
            code == self.spec_status(),
    {
        match self {
            GameFetchError::IdNotFound(_) => 404,
            _ => 400,
        }
    }

    /// The sentence that tells a client what happened.
    pub fn message(&self) -> (text: String)
        ensures
            text@ == self.spec_message(),
    {
        match self {
            GameFetchError::RepopulatingCache => String::from_str(
                "Populating game cache for query, please try again later.",
            ),
            GameFetchError::QueryTooLong => String::from_str("The query you provided is too long"),
            GameFetchError::IdNotFound(id) => {
                let digits = signed_decimal_string(*id as i64);
                let mut text = String::from_str("Could not find a game with ID '");
                text.append(digits.as_str());
                text.append("'");
                text
            },
        }
    }
}

/// The parameters of a search for games.
#[derive(Debug, Clone, PartialEq)]
pub struct GameQueryParams {
    pub query: String,
}

/// A search in the table of games, as mathematical values.
pub struct Pattern {
    pub pattern: Seq<char>,
    pub limit: nat,
}

impl View for NameSearch {
    type V = Pattern;

    open spec fn view(&self) -> Pattern {
        Pattern { pattern: self.pattern@, limit: self.limit as nat }
    }
}

/// Where a lookup stands, as mathematical values.
pub enum Stage {
    Start,
    LocalLookup { query: Seq<char>, limit: nat },
    HistoryCheck { query: Seq<char>, limit: nat, local: Seq<GameRow> },
    Recording { query: Seq<char>, limit: nat },
    Searching { query: Seq<char>, limit: nat },
    Merging { query: Seq<char>, limit: nat },
    Relisting { limit: nat },
    Satisfied,
    StaleButRecent,
    Refreshed,
    Failed,
}

/// What happened outside, as mathematical values.
pub enum Report {
    Request { query: Seq<char>, limit: nat },
    Rows { rows: Seq<GameRow> },
    Attempt { found: Option<Attempt>, now: int },
    Recorded,
    Games { games: Seq<CatalogGame> },
    Merged,
    Failed { failure: Failure },
}

/// What to do next, as mathematical values.
pub enum Task {
    FindGames(Pattern),
    FindAttempt { query: Seq<char> },
    RecordAttempt(AttemptRowWrite),
    SearchCatalog { query: Seq<char> },
    Upsert { games: Seq<CatalogGame> },
    Respond(Result<Seq<GameCard>, Failure>),
}

/// The result of one decision of a lookup: where it stands and what to do
/// next.
pub struct Turn {
    pub stage: Stage,
    pub task: Task,
}

/// The games of `rows` as clients see them, in the same order.
pub open spec fn cards(rows: Seq<GameRow>) -> Seq<GameCard> {
    Seq::new(rows.len(), |i: int| rows[i].to_json())
}

/// The first `limit` of `rows`, or all of them where they are fewer.
pub open spec fn capped(rows: Seq<GameRow>, limit: nat) -> Seq<GameRow> {
    if rows.len() <= limit {
        rows
    } else {
        rows.take(limit as int)
    }
}

/// The search for the games that `query` stands for.
pub open spec fn name_search(query: Seq<char>, limit: nat) -> Pattern {
    Pattern { pattern: searchable_name(query).push('%'), limit }
}

impl Stage {
    /// Whether the lookup is over.
    pub open spec fn is_terminal(self) -> bool {
        self is Satisfied || self is StaleButRecent || self is Refreshed || self is Failed
    }

    /// The end of a lookup with the error `failure`.
    pub open spec fn fail(failure: Failure) -> Turn {
        Turn { stage: Stage::Failed, task: Task::Respond(Err(failure)) }
    }

    /// The decision of a lookup that has not touched the store yet.
    pub open spec fn begin(query: Seq<char>, limit: nat) -> Turn {
        if query.len() > MAX_GAME_QUERY_LENGTH {
            Stage::fail(Failure::GameFetch(GameFetchError::QueryTooLong))
        } else {
            Turn {
                stage: Stage::LocalLookup { query, limit },
                task: Task::FindGames(name_search(query, limit)),
            }
        }
    }

    /// The decision of a lookup that is refreshing the store from the
    /// catalog: after the attempt is recorded the catalog is asked, what it
    /// answers is brought into the store, and the store is searched again.
    pub open spec fn search_igdb(self, report: Report) -> Turn {
        match (self, report) {
            (Stage::Recording { query, limit }, Report::Recorded) => Turn {
                stage: Stage::Searching { query, limit },
                task: Task::SearchCatalog { query },
            },
            (Stage::Searching { query, limit }, Report::Games { games }) => Turn {
                stage: Stage::Merging { query, limit },
                task: Task::Upsert { games },
            },
            (Stage::Merging { query, limit }, Report::Merged) => Turn {
                stage: Stage::Relisting { limit },
                task: Task::FindGames(name_search(query, limit)),
            },
            (Stage::Relisting { limit }, Report::Rows { rows }) => Turn {
                stage: Stage::Refreshed,
                task: Task::Respond(Ok(cards(capped(rows, limit)))),
            },
            (Stage::Recording { .. }, Report::Failed { failure }) => Stage::fail(failure),
            (Stage::Searching { .. }, Report::Failed { failure }) => Stage::fail(failure),
            (Stage::Merging { .. }, Report::Failed { failure }) => Stage::fail(failure),
            (Stage::Relisting { .. }, Report::Failed { failure }) => Stage::fail(failure),
            _ => Stage::fail(Failure::Custom("unexpected event"@)),
        }
    }

    /// The decision of a lookup that stands at `self` when `report` comes.
    pub open spec fn query_games(self, report: Report) -> Turn {
        match (self, report) {
            (Stage::Start, Report::Request { query, limit }) => Stage::begin(query, limit),
            (Stage::LocalLookup { query, limit }, Report::Rows { rows }) => {
                if rows.len() >= limit {
                    Turn { stage: Stage::Satisfied, task: Task::Respond(Ok(cards(rows))) }
                } else {
                    Turn {
                        stage: Stage::HistoryCheck { query, limit, local: rows },
                        task: Task::FindAttempt { query },
                    }
                }
            },
            (Stage::HistoryCheck { query, limit, local }, Report::Attempt { found, now }) => {
                if found is Some && recent(found->0.queried_at, now) {
                    Turn { stage: Stage::StaleButRecent, task: Task::Respond(Ok(cards(local))) }
                } else {
                    Turn {
                        stage: Stage::Recording { query, limit },
                        task: Task::RecordAttempt(AttemptRowWrite::record(found, query, now)),
                    }
                }
            },
            (Stage::LocalLookup { .. }, Report::Failed { failure }) => Stage::fail(failure),
            (Stage::HistoryCheck { .. }, Report::Failed { failure }) => Stage::fail(failure),
            (Stage::Recording { .. }, _) => self.search_igdb(report),
            (Stage::Searching { .. }, _) => self.search_igdb(report),
            (Stage::Merging { .. }, _) => self.search_igdb(report),
            (Stage::Relisting { .. }, _) => self.search_igdb(report),
            _ => Stage::fail(Failure::Custom("unexpected event"@)),
        }
    }
}

/// Where a lookup stands.
#[derive(Debug, PartialEq)]
pub enum LookupState {
    /// Nothing was asked yet.
    Start,
    /// The store is searched for the term.
    LocalLookup { query: String, limit: usize },
    /// The store had too few games, `local`; the last attempt for the term
    /// is looked up.
    HistoryCheck { query: String, limit: usize, local: Vec<Model> },
    /// The store is refreshed: the attempt is being recorded.
    Recording { query: String, limit: usize },
    /// The store is refreshed: the catalog is being asked.
    Searching { query: String, limit: usize },
    /// The store is refreshed: the catalog's games are being written.
    Merging { query: String, limit: usize },
    /// The store is refreshed: it is searched for the term once more.
    Relisting { limit: usize },
    /// Over: the store had enough games.
    Satisfied,
    /// Over: the store had too few games, but the catalog was asked for the
    /// term not long ago.
    StaleButRecent,
    /// Over: the store was refreshed from the catalog.
    Refreshed,
    /// Over: with an error.
    Failed,
}

/// What the driver of a lookup reports.
#[derive(Debug, PartialEq)]
pub enum LookupEvent {
    /// A client asks for at most `limit` games that match `params`.
    Request { params: GameQueryParams, limit: usize },
    /// The store found these rows.
    Rows { rows: Vec<Model> },
    /// The store holds `found` as the last attempt for the term; it is `now`.
    Attempt { found: Option<crate::models::queries::Model>, now: i64 },
    /// The attempt is written.
    Recorded,
    /// The catalog answered with these games.
    Games { games: Vec<IgdbGame> },
    /// The games are written.
    Merged,
    /// The store or the catalog failed.
    Failed { error: IgdbcError },
}

/// What the driver of a lookup has to do next.
#[derive(Debug, PartialEq)]
pub enum LookupAction {
    /// Search the table of games and report the rows.
    FindGames(NameSearch),
    /// Look up the attempt for `query` and report it with the present
    /// instant.
    FindAttempt { query: String },
    /// Write the attempt and report that it is written.
    RecordAttempt(AttemptWrite),
    /// Run a search of the catalog for `query` and report its games.
    SearchCatalog { query: String },
    /// Bring each of `games` into the table of games, as
    /// `Entity::create_or_update` says, and report that they are written.
    Upsert { games: Vec<IgdbGame> },
    /// Answer the client.
    Respond(Result<Vec<GameJson>, IgdbcError>),
}

impl View for LookupState {
    type V = Stage;

    open spec fn view(&self) -> Stage {
        match self {
            LookupState::Start => Stage::Start,
            LookupState::LocalLookup { query, limit } => Stage::LocalLookup {
                query: query@,
                limit: *limit as nat,
            },
            LookupState::HistoryCheck { query, limit, local } => Stage::HistoryCheck {
                query: query@,
                limit: *limit as nat,
                local: local.deep_view(),
            },
            LookupState::Recording { query, limit } => Stage::Recording {
                query: query@,
                limit: *limit as nat,
            },
            LookupState::Searching { query, limit } => Stage::Searching {
                query: query@,
                limit: *limit as nat,
            },
            LookupState::Merging { query, limit } => Stage::Merging {
                query: query@,
                limit: *limit as nat,
            },
            LookupState::Relisting { limit } => Stage::Relisting { limit: *limit as nat },
            LookupState::Satisfied => Stage::Satisfied,
            LookupState::StaleButRecent => Stage::StaleButRecent,
            LookupState::Refreshed => Stage::Refreshed,
            LookupState::Failed => Stage::Failed,
        }
    }
}

impl View for LookupEvent {
    type V = Report;

    open spec fn view(&self) -> Report {
        match self {
            LookupEvent::Request { params, limit } => Report::Request {
                query: params.query@,
                limit: *limit as nat,
            },
            LookupEvent::Rows { rows } => Report::Rows { rows: rows.deep_view() },
            LookupEvent::Attempt { found, now } => Report::Attempt {
                found: found.deep_view(),
                now: *now as int,
            },
            LookupEvent::Recorded => Report::Recorded,
            LookupEvent::Games { games } => Report::Games { games: games.deep_view() },
            LookupEvent::Merged => Report::Merged,
            LookupEvent::Failed { error } => Report::Failed { failure: error@ },
        }
    }
}

/// The answer to the client, as mathematical values.
pub open spec fn answer_view(answer: Result<Vec<GameJson>, IgdbcError>) -> Result<
    Seq<GameCard>,
    Failure,
> {
    match answer {
        Ok(games) => Ok(games.deep_view()),
        Err(error) => Err(error@),
    }
}

impl View for LookupAction {
    type V = Task;

    open spec fn view(&self) -> Task {
        match self {
            LookupAction::FindGames(search) => Task::FindGames(search@),
            LookupAction::FindAttempt { query } => Task::FindAttempt { query: query@ },
            LookupAction::RecordAttempt(write) => Task::RecordAttempt(write@),
            LookupAction::SearchCatalog { query } => Task::SearchCatalog { query: query@ },
            LookupAction::Upsert { games } => Task::Upsert { games: games.deep_view() },
            LookupAction::Respond(answer) => Task::Respond(answer_view(*answer)),
        }
    }
}

/// The games of the first `count` of `rows` as clients see them.
fn to_json_all(rows: Vec<Model>, count: usize) -> (games: Vec<GameJson>)
    requires
        count <= rows.len(),
    ensures
        games.deep_view() == cards(rows.deep_view().take(count as int)),
{
    let mut kept = rows;
    kept.truncate(count);
    assert(kept.deep_view() =~= rows.deep_view().take(count as int));
    let mut games: Vec<GameJson> = Vec::new();
    for row in it: kept.into_iter()
        invariant
            it.seq() == kept@,
            games.deep_view() == cards(kept.deep_view().take(it.index())),
    {
        let ghost before = games.deep_view();
        games.push(row.to_json());
        assert(games.deep_view() =~= before.push(row@.to_json()));
        assert(cards(kept.deep_view().take(it.index() + 1)) =~= cards(
            kept.deep_view().take(it.index()),
        ).push(row@.to_json()));
    }
    assert(kept.deep_view().take(kept@.len() as int) =~= kept.deep_view());
    games
}

fn fail(error: IgdbcError) -> (next: (LookupState, LookupAction))
    ensures
        (Turn { stage: next.0@, task: next.1@ }) == Stage::fail(error@),
{
    (LookupState::Failed, LookupAction::Respond(Err(error)))
}

fn unexpected() -> (next: (LookupState, LookupAction))
    ensures
        (Turn { stage: next.0@, task: next.1@ }) == Stage::fail(
            Failure::Custom("unexpected event"@),
        ),
{
    fail(IgdbcError::Custom(String::from_str("unexpected event")))
}

/// One decision of a lookup while the store is refreshed from the catalog.
///
/// The attempt was recorded before the catalog is asked, so a failure of
/// the catalog leaves the attempt in the store. The games that the catalog
/// answers with are brought into the store, the store is searched again,
/// and the lookup answers with what it then holds, `limit` games at most.
pub fn search_igdb(state: LookupState, event: LookupEvent) -> (next: (LookupState, LookupAction))
    ensures
        (Turn { stage: next.0@, task: next.1@ }) == state@.search_igdb(event@),
{
    match (state, event) {
        (LookupState::Recording { query, limit }, LookupEvent::Recorded) => {
            let term = query.clone();
            (LookupState::Searching { query, limit }, LookupAction::SearchCatalog { query: term })
        },
        (LookupState::Searching { query, limit }, LookupEvent::Games { games }) => {
            (LookupState::Merging { query, limit }, LookupAction::Upsert { games })
        },
        (LookupState::Merging { query, limit }, LookupEvent::Merged) => {
            let search = Entity::find_by_query(query, limit);
            (LookupState::Relisting { limit }, LookupAction::FindGames(search))
        },
        (LookupState::Relisting { limit }, LookupEvent::Rows { rows }) => {
            let count = if rows.len() <= limit {
                rows.len()
            } else {
                limit
            };
            assert(rows.deep_view().take(count as int) =~= capped(
                rows.deep_view(),
                limit as nat,
            ));
            (LookupState::Refreshed, LookupAction::Respond(Ok(to_json_all(rows, count))))
        },
        (LookupState::Recording { .. }, LookupEvent::Failed { error }) => fail(error),
        (LookupState::Searching { .. }, LookupEvent::Failed { error }) => fail(error),
        (LookupState::Merging { .. }, LookupEvent::Failed { error }) => fail(error),
        (LookupState::Relisting { .. }, LookupEvent::Failed { error }) => fail(error),
        _ => unexpected(),
    }
}

/// One decision of a lookup: from where the lookup stands and what its
/// driver reports to where it stands next and what the driver does next.
///
/// A lookup begins at `LookupState::Start` with `LookupEvent::Request` and
/// is over with `LookupAction::Respond`. A term of more than
/// `MAX_GAME_QUERY_LENGTH` characters is refused before the store is
/// touched. Where the store has `limit` games for the term, they are the
/// answer. Where it has fewer and the catalog was asked for the term less
/// than the threshold ago, the few are the answer. Else the attempt is
/// recorded and the store is refreshed from the catalog, as `search_igdb`
/// says. A failure of the store or of the catalog is the answer as it
/// comes.
pub fn query_games(state: LookupState, event: LookupEvent) -> (next: (LookupState, LookupAction))
    ensures
        (Turn { stage: next.0@, task: next.1@ }) == state@.query_games(event@),
{
    match (state, event) {
        (LookupState::Start, LookupEvent::Request { params, limit }) => {
            let query = params.query;
            if query.as_str().unicode_len() > MAX_GAME_QUERY_LENGTH {
                fail(IgdbcError::GameFetch(GameFetchError::QueryTooLong))
            } else {
                let search = Entity::find_by_query(query.clone(), limit);
                (LookupState::LocalLookup { query, limit }, LookupAction::FindGames(search))
            }
        },
        (LookupState::LocalLookup { query, limit }, LookupEvent::Rows { rows }) => {
            if rows.len() >= limit {
                let count = rows.len();
                assert(rows.deep_view().take(count as int) =~= rows.deep_view());
                (LookupState::Satisfied, LookupAction::Respond(Ok(to_json_all(rows, count))))
            } else {
                let term = query.clone();
                (
                    LookupState::HistoryCheck { query, limit, local: rows },
                    LookupAction::FindAttempt { query: term },
                )
            }
        },
        (LookupState::HistoryCheck { query, limit, local }, LookupEvent::Attempt { found, now }) => {
            let is_recent = match &found {
                Some(attempt) => attempt.queried_recently_at(now),
                None => false,
            };
            if is_recent {
                let count = local.len();
                assert(local.deep_view().take(count as int) =~= local.deep_view());
                (LookupState::StaleButRecent, LookupAction::Respond(Ok(to_json_all(local, count))))
            } else {
                let write = crate::models::queries::Entity::find_or_create(
                    found,
                    query.clone(),
                    now,
                );
                (LookupState::Recording { query, limit }, LookupAction::RecordAttempt(write))
            }
        },
        (LookupState::LocalLookup { .. }, LookupEvent::Failed { error }) => fail(error),
        (LookupState::HistoryCheck { .. }, LookupEvent::Failed { error }) => fail(error),
        (LookupState::Recording { query, limit }, event) => search_igdb(
            LookupState::Recording { query, limit },
            event,
        ),
        (LookupState::Searching { query, limit }, event) => search_igdb(
            LookupState::Searching { query, limit },
            event,
        ),
        (LookupState::Merging { query, limit }, event) => search_igdb(
            LookupState::Merging { query, limit },
            event,
        ),
        (LookupState::Relisting { limit }, event) => search_igdb(
            LookupState::Relisting { limit },
            event,
        ),
        _ => unexpected(),
    }
}

/// The answer to a request for the game `id`, where the store holds
/// `found` under that identifier.
pub fn get_game(id: i32, found: Option<Model>) -> (answer: Result<GameJson, IgdbcError>)
    ensures
        found is Some <==> answer is Ok,
        answer matches Ok(game) ==> game@ == found->0@.to_json(),
        answer matches Err(error) ==> error@ == Failure::GameFetch(GameFetchError::IdNotFound(id)),
{
    match found {
        Some(row) => Ok(row.to_json()),
        None => Err(IgdbcError::GameFetch(GameFetchError::IdNotFound(id))),
    }
}

/// The tasks of one lookup that stands at `stage` and is told `reports` one
/// after the other.
pub open spec fn tasks_of(stage: Stage, reports: Seq<Report>) -> Seq<Task>
    decreases reports.len(),
{
    if reports.len() == 0 {
        Seq::empty()
    } else {
        let first = stage.query_games(reports[0]);
        seq![first.task] + tasks_of(first.stage, reports.drop_first())
    }
}

/// Whether `task` touches the store or the catalog.
pub open spec fn reaches_outside(task: Task) -> bool {
    !(task is Respond)
}

/// Whether a lookup at `stage` has the recording of its attempt behind it.
pub open spec fn past_recording(stage: Stage) -> bool {
    stage is Searching || stage is Merging || stage is Relisting || stage.is_terminal()
}

proof fn lemma_over_is_over(stage: Stage, reports: Seq<Report>)
    requires
        stage.is_terminal(),
    ensures
        tasks_of(stage, reports).len() == reports.len(),
        forall|k: int|
            0 <= k < reports.len() ==> !reaches_outside(#[trigger] tasks_of(stage, reports)[k]),
    decreases reports.len(),
{
    if reports.len() > 0 {
        let first = stage.query_games(reports[0]);
        lemma_over_is_over(first.stage, reports.drop_first());
    }
}

proof fn lemma_no_search_past_recording(stage: Stage, reports: Seq<Report>)
    requires
        past_recording(stage),
    ensures
        tasks_of(stage, reports).len() == reports.len(),
        forall|k: int|
            0 <= k < reports.len() ==> !(#[trigger] tasks_of(stage, reports)[k] is SearchCatalog),
    decreases reports.len(),
{
    if reports.len() > 0 {
        let first = stage.query_games(reports[0]);
        lemma_no_search_past_recording(first.stage, reports.drop_first());
    }
}

/// A term that is too long is refused at once: the first task of the lookup
/// is the answer with the error, and no task of the lookup, whatever is
/// reported to it afterwards, touches the store or the catalog.
pub proof fn long_query_reaches_nothing(query: Seq<char>, limit: nat, reports: Seq<Report>)
    requires
        query.len() > MAX_GAME_QUERY_LENGTH,
        reports.len() > 0,
        reports[0] == (Report::Request { query, limit }),
    ensures
        tasks_of(Stage::Start, reports).len() == reports.len(),
        tasks_of(Stage::Start, reports)[0] == Task::Respond(
            Err(Failure::GameFetch(GameFetchError::QueryTooLong)),
        ),
        forall|k: int|
            0 <= k < reports.len() ==> !reaches_outside(
                #[trigger] tasks_of(Stage::Start, reports)[k],
            ),
{
    let first = Stage::Start.query_games(reports[0]);
    let rest = tasks_of(first.stage, reports.drop_first());
    lemma_over_is_over(first.stage, reports.drop_first());
    let all = tasks_of(Stage::Start, reports);
    assert(all == seq![first.task] + rest);
    assert forall|k: int| 0 <= k < reports.len() implies !reaches_outside(#[trigger] all[k]) by {
        if k > 0 {
            assert(all[k] == rest[k - 1]);
        }
    }
}

/// Freshness gate, closed. Where the store has too few games and the last
/// attempt for the term is less than the threshold old, the lookup answers
/// with the games that the store has, and no task of the lookup, whatever
/// is reported to it afterwards, touches the store or the catalog.
pub proof fn recent_attempt_answers_from_the_store(
    query: Seq<char>,
    limit: nat,
    local: Seq<GameRow>,
    attempt: Attempt,
    now: int,
    reports: Seq<Report>,
)
    requires
        recent(attempt.queried_at, now),
        reports.len() > 0,
        reports[0] == (Report::Attempt { found: Some(attempt), now }),
    ensures
        tasks_of(Stage::HistoryCheck { query, limit, local }, reports).len() == reports.len(),
        tasks_of(Stage::HistoryCheck { query, limit, local }, reports)[0] == Task::Respond(
            Ok(cards(local)),
        ),
        forall|k: int|
            0 <= k < reports.len() ==> !reaches_outside(
                #[trigger] tasks_of(Stage::HistoryCheck { query, limit, local }, reports)[k],
            ),
{
    let stage = Stage::HistoryCheck { query, limit, local };
    let first = stage.query_games(reports[0]);
    let rest = tasks_of(first.stage, reports.drop_first());
    lemma_over_is_over(first.stage, reports.drop_first());
    let all = tasks_of(stage, reports);
    assert(all == seq![first.task] + rest);
    assert forall|k: int| 0 <= k < reports.len() implies !reaches_outside(#[trigger] all[k]) by {
        if k > 0 {
            assert(all[k] == rest[k - 1]);
        }
    }
}

/// Freshness gate, open. Where the store has too few games and there is no
/// attempt for the term, or one that is at least the threshold old, the
/// lookup records an attempt at the present instant, and once that is
/// written it asks the catalog for the term.
pub proof fn stale_attempt_asks_the_catalog(
    query: Seq<char>,
    limit: nat,
    local: Seq<GameRow>,
    found: Option<Attempt>,
    now: int,
)
    requires
        found matches Some(attempt) ==> !recent(attempt.queried_at, now),
    ensures
        ({
            let recording = (Stage::HistoryCheck { query, limit, local }).query_games(
                Report::Attempt { found, now },
            );
            let searching = recording.stage.query_games(Report::Recorded);
            &&& recording.task is RecordAttempt
            &&& recording.task->RecordAttempt_0.row() == (Attempt { query, queried_at: now })
            &&& recording.task->RecordAttempt_0 is Update <==> found is Some
            &&& searching.task == (Task::SearchCatalog { query })
        }),
{
}

/// No lookup asks the catalog twice: among the tasks of a lookup, whatever
/// is reported to it, at most one is a search of the catalog.
pub proof fn catalog_is_asked_at_most_once(stage: Stage, reports: Seq<Report>, i: int, j: int)
    requires
        0 <= i < j < reports.len(),
    ensures
        tasks_of(stage, reports).len() == reports.len(),
        !(tasks_of(stage, reports)[i] is SearchCatalog && tasks_of(stage, reports)[j]
            is SearchCatalog),
    decreases reports.len(),
{
    let first = stage.query_games(reports[0]);
    let later = reports.drop_first();
    let rest = tasks_of(first.stage, later);
    let all = tasks_of(stage, reports);
    assert(all == seq![first.task] + rest);
    if i == 0 {
        if first.task is SearchCatalog {
            lemma_no_search_past_recording(first.stage, later);
            assert(all[j] == rest[j - 1]);
        } else {
            lemma_tasks_len(first.stage, later);
        }
    } else {
        catalog_is_asked_at_most_once(first.stage, later, i - 1, j - 1);
        assert(all[i] == rest[i - 1]);
        assert(all[j] == rest[j - 1]);
    }
}

proof fn lemma_tasks_len(stage: Stage, reports: Seq<Report>)
    ensures
        tasks_of(stage, reports).len() == reports.len(),
    decreases reports.len(),
{
    if reports.len() > 0 {
        lemma_tasks_len(stage.query_games(reports[0]).stage, reports.drop_first());
    }
}

/// A failure of the catalog is the answer of the lookup, and it comes after
/// the attempt was recorded: the store then says that the term was just
/// tried.
pub proof fn catalog_failure_is_reported(query: Seq<char>, limit: nat, failure: Failure)
    ensures
        (Stage::Searching { query, limit }).query_games(Report::Failed { failure }) == Stage::fail(
            failure,
        ),
        forall|stage: Stage, report: Report| #[trigger]
            stage.query_games(report).stage is Searching ==> stage is Recording && report
                is Recorded,
{
}

} // verus!
