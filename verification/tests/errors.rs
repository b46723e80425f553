use igdbc::error::IgdbcError;
use igdbc::models::games::Entity;
use igdbc::igdb::game::IgdbGame;
use igdbc::routes::games::{get_game, GameFetchError};

fn plain_game(id: i32, name: &str) -> IgdbGame {
    IgdbGame {
        id,
        name: name.to_string(),
        summary: None,
        aggregated_rating: None,
        themes: None,
        url: "https://www.igdb.com/games/x".to_string(),
        artworks: None,
        cover: None,
        first_release_date: None,
        franchise: None,
        genres: None,
        game_modes: None,
        supports_online_multiplayer: None,
        platforms: None,
    }
}

#[test]
fn codes_tell_the_fetch_errors_apart() {
    assert_eq!(GameFetchError::RepopulatingCache.code(), 0);
    assert_eq!(GameFetchError::QueryTooLong.code(), 1);
    assert_eq!(GameFetchError::IdNotFound(5).code(), 2);
    assert_eq!(GameFetchError::IdNotFound(-5).code(), 2);
}

#[test]
fn fetch_errors_have_their_statuses() {
    assert_eq!(GameFetchError::RepopulatingCache.status(), 400);
    assert_eq!(GameFetchError::QueryTooLong.status(), 400);
    assert_eq!(GameFetchError::IdNotFound(5).status(), 404);
}

#[test]
fn fetch_errors_have_their_messages() {
    assert_eq!(
        GameFetchError::RepopulatingCache.message(),
        "Populating game cache for query, please try again later."
    );
    assert_eq!(GameFetchError::QueryTooLong.message(), "The query you provided is too long");
    assert_eq!(GameFetchError::IdNotFound(12345).message(), "Could not find a game with ID '12345'");
    assert_eq!(GameFetchError::IdNotFound(-7).message(), "Could not find a game with ID '-7'");
    assert_eq!(
        GameFetchError::IdNotFound(i32::MIN).message(),
        "Could not find a game with ID '-2147483648'"
    );
}

#[test]
fn only_request_faults_are_shown_to_the_client() {
    assert_eq!(IgdbcError::Transport("timed out".to_string()).status(), 500);
    assert_eq!(IgdbcError::UpstreamSchema { path: "[0].id".to_string() }.status(), 500);
    assert_eq!(IgdbcError::Storage("connection refused".to_string()).status(), 500);
    assert_eq!(IgdbcError::Custom("anything".to_string()).status(), 500);
    assert_eq!(IgdbcError::GameFetch(GameFetchError::QueryTooLong).status(), 400);
    assert_eq!(IgdbcError::GameFetch(GameFetchError::RepopulatingCache).status(), 400);
    assert_eq!(IgdbcError::GameFetch(GameFetchError::IdNotFound(1)).status(), 404);
}

#[test]
fn errors_have_their_log_messages() {
    assert_eq!(IgdbcError::Transport("timed out".to_string()).message(), "HTTP Error timed out");
    assert_eq!(
        IgdbcError::UpstreamSchema { path: "[3].cover.url".to_string() }.message(),
        "Serde Json Error [3].cover.url"
    );
    assert_eq!(IgdbcError::Storage("refused".to_string()).message(), "Storage Error refused");
    assert_eq!(
        IgdbcError::GameFetch(GameFetchError::IdNotFound(9)).message(),
        "Error fetching games: Could not find a game with ID '9'"
    );
    assert_eq!(IgdbcError::Custom("as it is".to_string()).message(), "as it is");
}

#[test]
fn get_by_id_of_a_missing_game_is_not_found() {
    let answer = get_game(12345, None);
    assert_eq!(answer, Err(IgdbcError::GameFetch(GameFetchError::IdNotFound(12345))));
    let error = answer.unwrap_err();
    assert_eq!(error.status(), 404);
    assert_eq!(error.message(), "Error fetching games: Could not find a game with ID '12345'");
}

#[test]
fn get_by_id_of_a_stored_game_is_the_game() {
    let row = Entity::create(plain_game(12345, "Celeste"));
    let answer = get_game(12345, Some(row.clone()));
    assert_eq!(answer, Ok(row.to_json()));
    assert_eq!(answer.unwrap().name, "Celeste");
}
