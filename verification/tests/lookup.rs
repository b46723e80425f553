use igdbc::error::IgdbcError;
use igdbc::igdb::game::IgdbGame;
use igdbc::models::games::{Entity, GameWrite, Model, NameSearch};
use igdbc::models::queries::{AttemptWrite, Model as Attempt};
use igdbc::routes::games::{
    query_games, search_igdb, GameFetchError, GameQueryParams, LookupAction, LookupEvent,
    LookupState, MAX_GAME_QUERY_LENGTH, MAX_RESULTS,
};
use igdbc::views::GameJson;
use std::collections::BTreeMap;

const NOW: i64 = 1_730_000_000_000;
const DAY: i64 = 86_400_000;
const WEEK: i64 = 7 * DAY;

fn game(id: i32, name: &str) -> IgdbGame {
    IgdbGame {
        id,
        name: name.to_string(),
        summary: None,
        aggregated_rating: None,
        themes: None,
        url: format!("https://www.igdb.com/games/{id}"),
        artworks: None,
        cover: None,
        first_release_date: None,
        franchise: None,
        genres: None,
        game_modes: None,
        supports_online_multiplayer: None,
        platforms: None,
    }
}

fn rows(games: &[(i32, &str)]) -> Vec<Model> {
    games.iter().map(|(id, name)| Entity::create(game(*id, name))).collect()
}

fn cards(games: &[(i32, &str)]) -> Vec<GameJson> {
    rows(games).into_iter().map(|row| row.to_json()).collect()
}

fn request(query: &str, limit: usize) -> LookupEvent {
    LookupEvent::Request { params: GameQueryParams { query: query.to_string() }, limit }
}

fn unexpected() -> (LookupState, LookupAction) {
    (
        LookupState::Failed,
        LookupAction::Respond(Err(IgdbcError::Custom("unexpected event".to_string()))),
    )
}

struct World {
    games: BTreeMap<i32, Model>,
    attempts: BTreeMap<String, Attempt>,
    catalog: Result<Vec<IgdbGame>, IgdbcError>,
    now: i64,
    store_reads: usize,
    store_writes: usize,
    catalog_calls: usize,
}

fn world(stored: &[(i32, &str)], catalog: Result<Vec<IgdbGame>, IgdbcError>) -> World {
    World {
        games: rows(stored).into_iter().map(|row| (row.id, row)).collect(),
        attempts: BTreeMap::new(),
        catalog,
        now: NOW,
        store_reads: 0,
        store_writes: 0,
        catalog_calls: 0,
    }
}

fn find(world: &World, search: &NameSearch) -> Vec<Model> {
    let prefix = search.pattern.strip_suffix('%').unwrap();
    world
        .games
        .values()
        .filter(|row| row.searchable_name.starts_with(prefix))
        .take(search.limit as usize)
        .cloned()
        .collect()
}

fn lookup(world: &mut World, query: &str, limit: usize) -> (LookupState, Result<Vec<GameJson>, IgdbcError>) {
    let mut next = query_games(LookupState::Start, request(query, limit));
    loop {
        let (state, action) = next;
        let event = match action {
            LookupAction::Respond(answer) => return (state, answer),
            LookupAction::FindGames(search) => {
                world.store_reads += 1;
                LookupEvent::Rows { rows: find(world, &search) }
            }
            LookupAction::FindAttempt { query } => {
                world.store_reads += 1;
                LookupEvent::Attempt { found: world.attempts.get(&query).cloned(), now: world.now }
            }
            LookupAction::RecordAttempt(write) => {
                world.store_writes += 1;
                match write {
                    AttemptWrite::Insert(row) => {
                        assert!(!world.attempts.contains_key(&row.query));
                        world.attempts.insert(row.query.clone(), row);
                    }
                    AttemptWrite::Update(row) => {
                        assert!(world.attempts.contains_key(&row.query));
                        world.attempts.insert(row.query.clone(), row);
                    }
                }
                LookupEvent::Recorded
            }
            LookupAction::SearchCatalog { query: term } => {
                assert_eq!(term, query);
                world.catalog_calls += 1;
                match world.catalog.clone() {
                    Ok(games) => LookupEvent::Games { games },
                    Err(error) => LookupEvent::Failed { error },
                }
            }
            LookupAction::Upsert { games } => {
                for game in games {
                    world.store_writes += 1;
                    let existing = world.games.get(&game.id).cloned();
                    match Entity::create_or_update(existing, game) {
                        GameWrite::Insert(row) | GameWrite::Update(row) => {
                            world.games.insert(row.id, row);
                        }
                    }
                }
                LookupEvent::Merged
            }
        };
        next = query_games(state, event);
    }
}

#[test]
fn limits_of_the_service() {
    assert_eq!(MAX_GAME_QUERY_LENGTH, 32);
    assert_eq!(MAX_RESULTS, 10);
}

#[test]
fn lookup_begins_with_a_search_of_the_store() {
    let next = query_games(LookupState::Start, request("Zelda: B", 10));
    assert_eq!(
        next,
        (
            LookupState::LocalLookup { query: "Zelda: B".to_string(), limit: 10 },
            LookupAction::FindGames(NameSearch { pattern: "zeldab%".to_string(), limit: 10 })
        )
    );
}

#[test]
fn query_of_61_characters_is_refused_before_anything_is_touched() {
    let mut world = world(&[(1, "Halo")], Ok(vec![game(2, "Halo 2")]));
    let query = "z".repeat(61);
    let first = query_games(LookupState::Start, request(&query, 10));
    assert_eq!(
        first,
        (
            LookupState::Failed,
            LookupAction::Respond(Err(IgdbcError::GameFetch(GameFetchError::QueryTooLong)))
        )
    );
    let (state, answer) = lookup(&mut world, &query, 10);
    assert_eq!(state, LookupState::Failed);
    let error = answer.unwrap_err();
    assert_eq!(error, IgdbcError::GameFetch(GameFetchError::QueryTooLong));
    assert_eq!(error.status(), 400);
    assert_eq!(world.catalog_calls, 0);
    assert_eq!(world.store_reads, 0);
    assert_eq!(world.store_writes, 0);
}

#[test]
fn query_of_33_characters_is_too_long() {
    let (state, action) = query_games(LookupState::Start, request(&"a".repeat(33), 10));
    assert_eq!(state, LookupState::Failed);
    assert_eq!(action, LookupAction::Respond(Err(IgdbcError::GameFetch(GameFetchError::QueryTooLong))));
}

#[test]
fn query_of_32_characters_is_accepted() {
    let query = "a".repeat(32);
    let (state, action) = query_games(LookupState::Start, request(&query, 10));
    assert_eq!(state, LookupState::LocalLookup { query: query.clone(), limit: 10 });
    assert_eq!(action, LookupAction::FindGames(NameSearch { pattern: format!("{query}%"), limit: 10 }));
}

#[test]
fn length_of_a_query_counts_characters() {
    let query = "é".repeat(32);
    assert_eq!(query.len(), 64);
    let (state, _) = query_games(LookupState::Start, request(&query, 10));
    assert_eq!(state, LookupState::LocalLookup { query: query.clone(), limit: 10 });
    let (state, _) = query_games(LookupState::Start, request(&"é".repeat(33), 10));
    assert_eq!(state, LookupState::Failed);
}

#[test]
fn empty_query_is_accepted() {
    let (state, action) = query_games(LookupState::Start, request("", 10));
    assert_eq!(state, LookupState::LocalLookup { query: String::new(), limit: 10 });
    assert_eq!(action, LookupAction::FindGames(NameSearch { pattern: "%".to_string(), limit: 10 }));
}

#[test]
fn enough_local_games_are_the_answer() {
    let stored = [(1, "Zelda"), (2, "Zelda II"), (3, "Zelda III")];
    let state = LookupState::LocalLookup { query: "zelda".to_string(), limit: 3 };
    let next = query_games(state, LookupEvent::Rows { rows: rows(&stored) });
    assert_eq!(next, (LookupState::Satisfied, LookupAction::Respond(Ok(cards(&stored)))));
}

#[test]
fn more_than_enough_local_games_are_answered_as_they_come() {
    let stored = [(1, "Zelda"), (2, "Zelda II"), (3, "Zelda III")];
    let state = LookupState::LocalLookup { query: "zelda".to_string(), limit: 2 };
    let next = query_games(state, LookupEvent::Rows { rows: rows(&stored) });
    assert_eq!(next, (LookupState::Satisfied, LookupAction::Respond(Ok(cards(&stored)))));
}

#[test]
fn too_few_local_games_lead_to_the_history() {
    let stored = [(1, "Zelda"), (2, "Zelda II")];
    let state = LookupState::LocalLookup { query: "Zelda".to_string(), limit: 3 };
    let next = query_games(state, LookupEvent::Rows { rows: rows(&stored) });
    assert_eq!(
        next,
        (
            LookupState::HistoryCheck { query: "Zelda".to_string(), limit: 3, local: rows(&stored) },
            LookupAction::FindAttempt { query: "Zelda".to_string() }
        )
    );
}

#[test]
fn attempt_of_yesterday_keeps_the_catalog_out() {
    let stored = [(1, "Zelda"), (2, "Zelda II")];
    let mut world = world(&stored, Ok(vec![game(3, "Zelda III")]));
    world.attempts.insert("zelda".to_string(), Attempt { query: "zelda".to_string(), queried_at: NOW - DAY });
    let (state, answer) = lookup(&mut world, "zelda", 10);
    assert_eq!(state, LookupState::StaleButRecent);
    assert_eq!(answer, Ok(cards(&stored)));
    assert_eq!(world.catalog_calls, 0);
    assert_eq!(world.store_writes, 0);
    assert_eq!(world.attempts["zelda"].queried_at, NOW - DAY);
    assert_eq!(world.games.len(), 2);
}

#[test]
fn attempt_of_five_weeks_ago_lets_the_catalog_in_once() {
    let stored = [(1, "Zelda"), (2, "Zelda II")];
    let mut world = world(&stored, Ok(vec![game(3, "Zelda III")]));
    world.attempts.insert("zelda".to_string(), Attempt { query: "zelda".to_string(), queried_at: NOW - 5 * WEEK });
    let (state, answer) = lookup(&mut world, "zelda", 10);
    assert_eq!(state, LookupState::Refreshed);
    assert_eq!(answer, Ok(cards(&[(1, "Zelda"), (2, "Zelda II"), (3, "Zelda III")])));
    assert_eq!(world.catalog_calls, 1);
    assert_eq!(world.attempts.len(), 1);
    assert_eq!(world.attempts["zelda"].queried_at, NOW);
}

#[test]
fn attempt_of_exactly_four_weeks_ago_lets_the_catalog_in() {
    let mut world = world(&[], Ok(Vec::new()));
    world.attempts.insert("zelda".to_string(), Attempt { query: "zelda".to_string(), queried_at: NOW - 4 * WEEK });
    let (state, _) = lookup(&mut world, "zelda", 10);
    assert_eq!(state, LookupState::Refreshed);
    assert_eq!(world.catalog_calls, 1);
}

#[test]
fn attempt_for_another_spelling_does_not_count() {
    let mut world = world(&[], Ok(Vec::new()));
    world.attempts.insert("Zelda".to_string(), Attempt { query: "Zelda".to_string(), queried_at: NOW - DAY });
    let (state, _) = lookup(&mut world, "zelda", 10);
    assert_eq!(state, LookupState::Refreshed);
    assert_eq!(world.catalog_calls, 1);
    assert_eq!(world.attempts.len(), 2);
}

#[test]
fn zelda_with_three_local_matches_is_refreshed_from_the_catalog() {
    let stored = [(1, "Zelda"), (2, "Zelda II"), (3, "Zelda: Link's Awakening"), (50, "Halo")];
    let upstream: Vec<IgdbGame> = (0..12)
        .map(|n| game(100 + n, &format!("Zelda Spin-off {n}")))
        .chain([game(2, "Zelda II: The Adventure of Link"), game(60, "Portal")])
        .collect();
    let mut world = world(&stored, Ok(upstream));
    let (state, answer) = lookup(&mut world, "zelda", 10);
    assert_eq!(state, LookupState::Refreshed);
    assert_eq!(world.catalog_calls, 1);
    assert_eq!(world.games.len(), 4 + 12 + 1);
    assert_eq!(world.games[&2].name, "Zelda II: The Adventure of Link");
    assert_eq!(world.games[&2].searchable_name, "zeldaiitheadventureoflink");
    assert_eq!(world.games[&60].name, "Portal");
    assert_eq!(world.attempts["zelda"], Attempt { query: "zelda".to_string(), queried_at: NOW });
    let answer = answer.unwrap();
    assert_eq!(answer.len(), 10);
    let expected: Vec<GameJson> = world
        .games
        .values()
        .filter(|row| row.searchable_name.starts_with("zelda"))
        .take(10)
        .cloned()
        .map(|row| row.to_json())
        .collect();
    assert_eq!(answer, expected);
    assert_eq!(answer[0].id, 1);
    assert_eq!(answer[1].name, "Zelda II: The Adventure of Link");
}

#[test]
fn refreshed_answer_may_still_be_short() {
    let mut world = world(&[(1, "Zelda")], Ok(vec![game(2, "Zelda II")]));
    let (state, answer) = lookup(&mut world, "zelda", 10);
    assert_eq!(state, LookupState::Refreshed);
    assert_eq!(answer, Ok(cards(&[(1, "Zelda"), (2, "Zelda II")])));
}

#[test]
fn second_lookup_right_after_a_refresh_stays_local() {
    let mut world = world(&[(1, "Zelda")], Ok(vec![game(2, "Zelda II")]));
    lookup(&mut world, "zelda", 10);
    world.now += 1;
    let (state, answer) = lookup(&mut world, "zelda", 10);
    assert_eq!(state, LookupState::StaleButRecent);
    assert_eq!(answer, Ok(cards(&[(1, "Zelda"), (2, "Zelda II")])));
    assert_eq!(world.catalog_calls, 1);
}

#[test]
fn failure_of_the_catalog_is_reported_and_the_attempt_stays() {
    let error = IgdbcError::Transport("status 503".to_string());
    let mut world = world(&[(1, "Zelda")], Err(error.clone()));
    let (state, answer) = lookup(&mut world, "zelda", 10);
    assert_eq!(state, LookupState::Failed);
    assert_eq!(answer, Err(error));
    assert_eq!(world.catalog_calls, 1);
    assert_eq!(world.attempts["zelda"].queried_at, NOW);
    world.now += 1000;
    let (state, answer) = lookup(&mut world, "zelda", 10);
    assert_eq!(state, LookupState::StaleButRecent);
    assert_eq!(answer, Ok(cards(&[(1, "Zelda")])));
    assert_eq!(world.catalog_calls, 1);
}

#[test]
fn failure_of_the_store_is_reported_from_every_state() {
    let error = IgdbcError::Storage("gone".to_string());
    let states = [
        LookupState::LocalLookup { query: "q".to_string(), limit: 10 },
        LookupState::HistoryCheck { query: "q".to_string(), limit: 10, local: Vec::new() },
        LookupState::Recording { query: "q".to_string(), limit: 10 },
        LookupState::Searching { query: "q".to_string(), limit: 10 },
        LookupState::Merging { query: "q".to_string(), limit: 10 },
        LookupState::Relisting { limit: 10 },
    ];
    for state in states {
        let next = query_games(state, LookupEvent::Failed { error: error.clone() });
        assert_eq!(next, (LookupState::Failed, LookupAction::Respond(Err(error.clone()))));
    }
}

#[test]
fn refresh_goes_step_by_step() {
    let state = LookupState::Recording { query: "Zelda".to_string(), limit: 2 };
    let (state, action) = search_igdb(state, LookupEvent::Recorded);
    assert_eq!(state, LookupState::Searching { query: "Zelda".to_string(), limit: 2 });
    assert_eq!(action, LookupAction::SearchCatalog { query: "Zelda".to_string() });
    let games = vec![game(1, "Zelda"), game(2, "Zelda II")];
    let (state, action) = search_igdb(state, LookupEvent::Games { games: games.clone() });
    assert_eq!(state, LookupState::Merging { query: "Zelda".to_string(), limit: 2 });
    assert_eq!(action, LookupAction::Upsert { games });
    let (state, action) = search_igdb(state, LookupEvent::Merged);
    assert_eq!(state, LookupState::Relisting { limit: 2 });
    assert_eq!(action, LookupAction::FindGames(NameSearch { pattern: "zelda%".to_string(), limit: 2 }));
    let stored = [(1, "Zelda"), (2, "Zelda II"), (3, "Zelda III")];
    let (state, action) = search_igdb(state, LookupEvent::Rows { rows: rows(&stored) });
    assert_eq!(state, LookupState::Refreshed);
    assert_eq!(action, LookupAction::Respond(Ok(cards(&stored[..2]))));
}

#[test]
fn refresh_does_not_handle_the_earlier_states() {
    assert_eq!(search_igdb(LookupState::Start, request("zelda", 10)), unexpected());
    assert_eq!(
        search_igdb(
            LookupState::LocalLookup { query: "q".to_string(), limit: 1 },
            LookupEvent::Rows { rows: Vec::new() }
        ),
        unexpected()
    );
}

#[test]
fn first_attempt_is_inserted_and_later_ones_move_it() {
    let state = LookupState::HistoryCheck { query: "zelda".to_string(), limit: 10, local: Vec::new() };
    let (state, action) = query_games(state, LookupEvent::Attempt { found: None, now: NOW });
    assert_eq!(state, LookupState::Recording { query: "zelda".to_string(), limit: 10 });
    assert_eq!(
        action,
        LookupAction::RecordAttempt(AttemptWrite::Insert(Attempt { query: "zelda".to_string(), queried_at: NOW }))
    );
    let state = LookupState::HistoryCheck { query: "zelda".to_string(), limit: 10, local: Vec::new() };
    let old = Attempt { query: "zelda".to_string(), queried_at: NOW - 6 * WEEK };
    let (_, action) = query_games(state, LookupEvent::Attempt { found: Some(old), now: NOW });
    assert_eq!(
        action,
        LookupAction::RecordAttempt(AttemptWrite::Update(Attempt { query: "zelda".to_string(), queried_at: NOW }))
    );
}

#[test]
fn report_that_does_not_fit_ends_the_lookup() {
    assert_eq!(query_games(LookupState::Start, LookupEvent::Recorded), unexpected());
    assert_eq!(query_games(LookupState::Start, LookupEvent::Rows { rows: Vec::new() }), unexpected());
    assert_eq!(query_games(LookupState::Satisfied, request("zelda", 10)), unexpected());
    assert_eq!(query_games(LookupState::Refreshed, LookupEvent::Merged), unexpected());
    assert_eq!(
        query_games(LookupState::Failed, LookupEvent::Failed { error: IgdbcError::Storage("x".to_string()) }),
        unexpected()
    );
    assert_eq!(
        query_games(LookupState::Searching { query: "q".to_string(), limit: 1 }, LookupEvent::Merged),
        unexpected()
    );
    assert_eq!(
        query_games(LookupState::LocalLookup { query: "q".to_string(), limit: 1 }, LookupEvent::Games { games: Vec::new() }),
        unexpected()
    );
}

#[test]
fn limit_of_zero_is_satisfied_by_nothing() {
    let mut world = world(&[(1, "Zelda")], Ok(Vec::new()));
    let (state, answer) = lookup(&mut world, "zelda", 0);
    assert_eq!(state, LookupState::Satisfied);
    assert_eq!(answer, Ok(Vec::new()));
    assert_eq!(world.catalog_calls, 0);
}
