//! From the nested shapes of the catalog's answers to the flat fields of a
//! record. Each function takes a field as it was decoded and gives the value
//! that the record keeps.

use crate::clock::MILLIS_PER_SECOND;
use vstd::prelude::*;

verus! {

/// A picture: an artwork, or a cover whose address is known.
#[derive(Debug, Clone, PartialEq)]
pub struct ImageData {
    pub url: String,
}

/// A cover, whose address may be missing.
#[derive(Debug, Clone, PartialEq)]
pub struct CoverData {
    pub url: Option<String>,
}

/// A franchise, genre, theme, game mode or platform: the catalog gives each
/// as an object with a name.
#[derive(Debug, Clone, PartialEq)]
pub struct Named {
    pub name: String,
}

/// One multiplayer mode of a game.
#[derive(Debug, Clone, PartialEq)]
pub struct MultiplayerMetadata {
    pub onlinecoop: bool,
}

/// The names of `items`, in order.
pub open spec fn names_of(items: Seq<Named>) -> Seq<Seq<char>> {
    Seq::new(items.len(), |i: int| items[i].name@)
}

/// Whether one of `modes` is played online and cooperatively.
pub open spec fn any_online(modes: Seq<MultiplayerMetadata>) -> bool {
    exists|i: int| 0 <= i < modes.len() && modes[i].onlinecoop
}

/// The address of the first artwork, if there is any artwork.
pub fn deserialize_artworks(artworks: Vec<ImageData>) -> (url: Option<String>)
    ensures
        url.deep_view() == if artworks.len() == 0 {
            None
        } else {
            Some(artworks[0].url@)
        },
{
    if artworks.len() == 0 {
        None
    } else {
        Some(artworks[0].url.clone())
    }
}

/// The address of the cover, if it has one.
pub fn deserialize_cover(cover: CoverData) -> (url: Option<String>)
    ensures
        url == cover.url,
{
    cover.url
}

/// The instant that lies `unix_timestamp` seconds after the epoch.
pub fn deserialize_unix_timestamp(unix_timestamp: Option<u32>) -> (instant: Option<i64>)
    ensures
        instant == match unix_timestamp {
            Some(seconds) => Some((seconds * MILLIS_PER_SECOND) as i64),
            None => None,
        },
{
    match unix_timestamp {
        Some(seconds) => Some(seconds as i64 * MILLIS_PER_SECOND),
        None => None,
    }
}

/// The name of the franchise, if the game belongs to one.
pub fn deserialize_franchise(franchise: Option<Named>) -> (name: Option<String>)
    ensures
        name == match franchise {
            Some(franchise) => Some(franchise.name),
            None => None,
        },
{
    match franchise {
        Some(franchise) => Some(franchise.name),
        None => None,
    }
}

fn names(items: Option<Vec<Named>>) -> (names: Option<Vec<String>>)
    ensures
        names.deep_view() == match items {
            Some(items) => Some(names_of(items@)),
            None => None,
        },
{
    match items {
        Some(items) => {
            let mut names: Vec<String> = Vec::new();
            let mut i: usize = 0;
            while i < items.len()
                invariant
                    i <= items.len(),
                    names.deep_view() == names_of(items@.take(i as int)),
                decreases items.len() - i,
            {
                let ghost before = names.deep_view();
                names.push(items[i].name.clone());
                assert(names.deep_view() =~= before.push(items[i as int].name@));
                assert(names_of(items@.take(i + 1)) =~= names_of(items@.take(i as int)).push(
                    items[i as int].name@,
                ));
                i += 1;
            }
            assert(items@.take(items.len() as int) =~= items@);
            Some(names)
        },
        None => None,
    }
}

/// The names of the platforms, in the catalog's order.
pub fn deserialize_platforms(platforms: Option<Vec<Named>>) -> (names: Option<Vec<String>>)
    ensures
        names.deep_view() == match platforms {
            Some(items) => Some(names_of(items@)),
            None => None,
        },
{
    names(platforms)
}

/// The names of the genres, in the catalog's order.
pub fn deserialize_genres(genres: Option<Vec<Named>>) -> (names: Option<Vec<String>>)
    ensures
        names.deep_view() == match genres {
            Some(items) => Some(names_of(items@)),
            None => None,
        },
{
    names(genres)
}

/// The names of the game modes, in the catalog's order.
pub fn deserialize_game_modes(game_modes: Option<Vec<Named>>) -> (names: Option<Vec<String>>)
    ensures
        names.deep_view() == match game_modes {
            Some(items) => Some(names_of(items@)),
            None => None,
        },
{
    names(game_modes)
}

/// The names of the themes, in the catalog's order.
pub fn deserialize_themes(themes: Option<Vec<Named>>) -> (names: Option<Vec<String>>)
    ensures
        names.deep_view() == match themes {
            Some(items) => Some(names_of(items@)),
            None => None,
        },
{
    names(themes)
}

/// Whether the game can be played online: it can if any of its multiplayer
/// modes says so. Without a list of modes nothing is known.
pub fn deserialize_supports_online_multiplayer(
    multiplayer_modes: Option<Vec<MultiplayerMetadata>>,
) -> (online: Option<bool>)
    ensures
        online == match multiplayer_modes {
            Some(modes) => Some(any_online(modes@)),
            None => None,
        },
{
    match multiplayer_modes {
        Some(modes) => {
            let mut found = false;
            let mut i: usize = 0;
            while i < modes.len()
                invariant
                    i <= modes.len(),
                    found == any_online(modes@.take(i as int)),
                decreases modes.len() - i,
            {
                let ghost seen = modes@.take(i as int);
                let ghost grown = modes@.take(i + 1);
                proof {
                    if any_online(seen) {
                        let k = choose|k: int| 0 <= k < seen.len() && seen[k].onlinecoop;
                        assert(grown[k].onlinecoop);
                    }
                    if modes[i as int].onlinecoop {
                        assert(grown[i as int].onlinecoop);
                    }
                    if any_online(grown) {
                        let k = choose|k: int| 0 <= k < grown.len() && grown[k].onlinecoop;
                        if k < i {
                            assert(seen[k].onlinecoop);
                        }
                    }
                }
                if modes[i].onlinecoop {
                    found = true;
                }
                i += 1;
            }
            assert(modes@.take(modes.len() as int) =~= modes@);
            Some(found)
        },
        None => None,
    }
}

} // verus!
