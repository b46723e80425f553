//! The records of the upstream catalog, in the shape in which the rest of
//! the crate handles them.

use vstd::prelude::*;

verus! {

/// An aggregated rating. The crate only carries ratings from the catalog to
/// the store and on to the client, so it keeps the bit pattern of the
/// single-precision number and never looks inside.
#[derive(Debug, Clone, Copy, PartialEq, Eq, Structural)]
pub struct Rating {
    pub bits: u32,
}

/// One game as the catalog describes it.
#[derive(Debug, Clone, PartialEq)]
pub struct IgdbGame {
    pub id: i32,
    pub name: String,
    pub summary: Option<String>,
    pub aggregated_rating: Option<Rating>,
    pub themes: Option<Vec<String>>,
    pub url: String,
    pub artworks: Option<String>,
    pub cover: Option<String>,
    /// The instant of the first release.
    pub first_release_date: Option<i64>,
    pub franchise: Option<String>,
    pub genres: Option<Vec<String>>,
    pub game_modes: Option<Vec<String>>,
    pub supports_online_multiplayer: Option<bool>,
    pub platforms: Option<Vec<String>>,
}

/// A catalog record, as mathematical values.
pub struct CatalogGame {
    pub id: int,
    pub name: Seq<char>,
    pub summary: Option<Seq<char>>,
    pub aggregated_rating: Option<Rating>,
    pub themes: Option<Seq<Seq<char>>>,
    pub url: Seq<char>,
    pub artworks: Option<Seq<char>>,
    pub cover: Option<Seq<char>>,
    pub first_release_date: Option<int>,
    pub franchise: Option<Seq<char>>,
    pub genres: Option<Seq<Seq<char>>>,
    pub game_modes: Option<Seq<Seq<char>>>,
    pub supports_online_multiplayer: Option<bool>,
    pub platforms: Option<Seq<Seq<char>>>,
}

/// An optional instant as an optional integer.
pub open spec fn instant_view(instant: Option<i64>) -> Option<int> {
    match instant {
        Some(t) => Some(t as int),
        None => None,
    }
}

impl View for IgdbGame {
    type V = CatalogGame;

    open spec fn view(&self) -> CatalogGame {
        CatalogGame {
            id: self.id as int,
            name: self.name@,
            summary: self.summary.deep_view(),
            aggregated_rating: self.aggregated_rating,
            themes: self.themes.deep_view(),
            url: self.url@,
            artworks: self.artworks.deep_view(),
            cover: self.cover.deep_view(),
            first_release_date: instant_view(self.first_release_date),
            franchise: self.franchise.deep_view(),
            genres: self.genres.deep_view(),
            game_modes: self.game_modes.deep_view(),
            supports_online_multiplayer: self.supports_online_multiplayer,
            platforms: self.platforms.deep_view(),
        }
    }
}

impl DeepView for IgdbGame {
    type V = CatalogGame;

    open spec fn deep_view(&self) -> CatalogGame {
        self@
    }
}

} // verus!
