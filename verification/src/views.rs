//! Games as the service hands them to its clients.

use crate::igdb::game::{instant_view, CatalogGame, IgdbGame, Rating};
use crate::text::{replace, replaced};
use vstd::prelude::*;
use vstd::string::StringExecFns;

verus! {

/// A game as a client of the service sees it.
#[derive(Debug, Clone, PartialEq)]
pub struct GameJson {
    /// The identifier of the game in the catalog.
    pub id: i32,
    pub name: String,
    /// A short description of the game.
    pub summary: Option<String>,
    /// The average rating of the game.
    pub aggregated_rating: Option<Rating>,
    pub themes: Option<Vec<String>>,
    /// The address of the game's page in the catalog.
    pub url: String,
    pub artwork_url: Option<String>,
    pub cover_art_url: Option<String>,
    /// The instant of the first release.
    pub first_release_date: Option<i64>,
    pub franchise: Option<String>,
    pub genres: Option<Vec<String>>,
    pub game_modes: Option<Vec<String>>,
    pub supports_online_multiplayer: Option<bool>,
    pub platforms: Option<Vec<String>>,
}

/// A game for a client, as mathematical values.
pub struct GameCard {
    pub id: int,
    pub name: Seq<char>,
    pub summary: Option<Seq<char>>,
    pub aggregated_rating: Option<Rating>,
    pub themes: Option<Seq<Seq<char>>>,
    pub url: Seq<char>,
    pub artwork_url: Option<Seq<char>>,
    pub cover_art_url: Option<Seq<char>>,
    pub first_release_date: Option<int>,
    pub franchise: Option<Seq<char>>,
    pub genres: Option<Seq<Seq<char>>>,
    pub game_modes: Option<Seq<Seq<char>>>,
    pub supports_online_multiplayer: Option<bool>,
    pub platforms: Option<Seq<Seq<char>>>,
}

impl View for GameJson {
    type V = GameCard;

    open spec fn view(&self) -> GameCard {
        GameCard {
            id: self.id as int,
            name: self.name@,
            summary: self.summary.deep_view(),
            aggregated_rating: self.aggregated_rating,
            themes: self.themes.deep_view(),
            url: self.url@,
            artwork_url: self.artwork_url.deep_view(),
            cover_art_url: self.cover_art_url.deep_view(),
            first_release_date: instant_view(self.first_release_date),
            franchise: self.franchise.deep_view(),
            genres: self.genres.deep_view(),
            game_modes: self.game_modes.deep_view(),
            supports_online_multiplayer: self.supports_online_multiplayer,
            platforms: self.platforms.deep_view(),
        }
    }
}

impl DeepView for GameJson {
    type V = GameCard;

    open spec fn deep_view(&self) -> GameCard {
        self@
    }
}

/// The address of the picture at `url` in full size: the catalog gives
/// addresses of thumbnails, without a scheme.
pub open spec fn full_size(url: Seq<char>) -> Seq<char> {
    "https:"@ + replaced(url, "t_thumb"@, "t_1080p"@)
}

/// The address of the picture in full size, if there is a picture.
pub open spec fn full_size_of(url: Option<Seq<char>>) -> Option<Seq<char>> {
    match url {
        Some(url) => Some(full_size(url)),
        None => None,
    }
}

impl GameCard {
    /// The catalog record `game` as a client of the service sees it.
    pub open spec fn of(game: CatalogGame) -> GameCard {
        GameCard {
            id: game.id,
            name: game.name,
            summary: game.summary,
            aggregated_rating: game.aggregated_rating,
            themes: game.themes,
            url: game.url,
            artwork_url: full_size_of(game.artworks),
            cover_art_url: full_size_of(game.cover),
            first_release_date: game.first_release_date,
            franchise: game.franchise,
            genres: game.genres,
            game_modes: game.game_modes,
            supports_online_multiplayer: game.supports_online_multiplayer,
            platforms: game.platforms,
        }
    }
}

fn full_size_url(url: Option<String>) -> (full: Option<String>)
    ensures
        full.deep_view() == full_size_of(url.deep_view()),
{
    match url {
        Some(url) => {
            let large = replace(url.as_str(), "t_thumb", "t_1080p");
            Some(String::from_str("https:").concat(large.as_str()))
        },
        None => None,
    }
}

impl GameJson {
    /// The catalog record `game` as a client of the service sees it: the
    /// fields as they are, the pictures in full size.
    pub fn from(game: IgdbGame) -> (json: GameJson)
        ensures
            json@ == GameCard::of(game@),
    {
        GameJson {
            id: game.id,
            name: game.name,
            summary: game.summary,
            aggregated_rating: game.aggregated_rating,
            themes: game.themes,
            url: game.url,
            first_release_date: game.first_release_date,
            franchise: game.franchise,
            genres: game.genres,
            game_modes: game.game_modes,
            supports_online_multiplayer: game.supports_online_multiplayer,
            platforms: game.platforms,
            artwork_url: full_size_url(game.artworks),
            cover_art_url: full_size_url(game.cover),
        }
    }
}

} // verus!
