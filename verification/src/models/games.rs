//! The table of games: one row per game of the catalog that was ever seen,
//! found by its identifier or by the beginning of its searchable name.

use crate::igdb::game::{instant_view, CatalogGame, IgdbGame, Rating};
use crate::models::tags::{decode_tags, decoded, decoding_undoes_encoding, encode_tags, encoded};
use crate::views::{GameCard, GameJson};
use vstd::prelude::*;

verus! {

/// One game in the store. Lists of tags are kept as one text each, as
/// `models::tags` writes them.
#[derive(Debug, Clone, PartialEq)]
pub struct Model {
    /// The identifier of the game in the catalog, and the key of the row.
    pub id: i32,
    pub name: String,
    /// The name in lower case and without punctuation, for searching.
    pub searchable_name: String,
    pub summary: Option<String>,
    pub aggregated_rating: Option<Rating>,
    pub themes: Option<String>,
    pub igdb_url: String,
    pub first_release_date: Option<i64>,
    pub franchise: Option<String>,
    pub genres: Option<String>,
    pub game_modes: Option<String>,
    pub supports_online_multiplayer: Option<bool>,
    pub platforms: Option<String>,
    pub cover_art_url: Option<String>,
    pub artwork_url: Option<String>,
}

/// A row of the table of games, as mathematical values.
pub struct GameRow {
    pub id: int,
    pub name: Seq<char>,
    pub searchable_name: Seq<char>,
    pub summary: Option<Seq<char>>,
    pub aggregated_rating: Option<Rating>,
    pub themes: Option<Seq<char>>,
    pub igdb_url: Seq<char>,
    pub first_release_date: Option<int>,
    pub franchise: Option<Seq<char>>,
    pub genres: Option<Seq<char>>,
    pub game_modes: Option<Seq<char>>,
    pub supports_online_multiplayer: Option<bool>,
    pub platforms: Option<Seq<char>>,
    pub cover_art_url: Option<Seq<char>>,
    pub artwork_url: Option<Seq<char>>,
}

impl View for Model {
    type V = GameRow;

    open spec fn view(&self) -> GameRow {
        GameRow {
            id: self.id as int,
            name: self.name@,
            searchable_name: self.searchable_name@,
            summary: self.summary.deep_view(),
            aggregated_rating: self.aggregated_rating,
            themes: self.themes.deep_view(),
            igdb_url: self.igdb_url@,
            first_release_date: instant_view(self.first_release_date),
            franchise: self.franchise.deep_view(),
            genres: self.genres.deep_view(),
            game_modes: self.game_modes.deep_view(),
            supports_online_multiplayer: self.supports_online_multiplayer,
            platforms: self.platforms.deep_view(),
            cover_art_url: self.cover_art_url.deep_view(),
            artwork_url: self.artwork_url.deep_view(),
        }
    }
}

impl DeepView for Model {
    type V = GameRow;

    open spec fn deep_view(&self) -> GameRow {
        self@
    }
}

/// Whether `c` is a punctuation character of ASCII: one of
/// ``!"#$%&'()*+,-./``, `:;<=>?@`, ``[\]^_` `` and `{|}~`.
pub open spec fn is_punctuation(c: char) -> bool {
    ('!' <= c && c <= '/') || (':' <= c && c <= '@') || ('[' <= c && c <= '`') || ('{' <= c && c
        <= '~')
}

/// Whether `c` is white space: a tab, a line feed, a vertical tab, a form
/// feed, a carriage return, a space, or one of the spaces and line
/// separators beyond ASCII.
pub open spec fn is_whitespace(c: char) -> bool {
    ('\u{9}' <= c && c <= '\u{d}') || c == ' ' || c == '\u{85}' || c == '\u{a0}' || c
        == '\u{1680}' || ('\u{2000}' <= c && c <= '\u{200a}') || c == '\u{2028}' || c
        == '\u{2029}' || c == '\u{202f}' || c == '\u{205f}' || c == '\u{3000}'
}

/// Whether `c` is left out of searchable names: punctuation and white space
/// are.
pub open spec fn is_unsearchable(c: char) -> bool {
    is_punctuation(c) || is_whitespace(c)
}

/// Whether `c` is a character of ASCII.
pub open spec fn is_ascii_char(c: char) -> bool {
    c <= '\u{7f}'
}

/// `c` with the capital letters `A` to `Z` turned into `a` to `z`.
pub open spec fn ascii_lowercase(c: char) -> char {
    if 'A' <= c && c <= 'Z' {
        ((c as u32) + 32) as char
    } else {
        c
    }
}

/// The lower case of `c` as the standard library's `char::to_lowercase`
/// gives it: one character or more.
pub uninterp spec fn lowercase_of(c: char) -> Seq<char>;

/// The lower case of `c`, as one character. For a character of ASCII it is
/// the character with `A` to `Z` turned into `a` to `z`. For any other it is
/// the first character of what the standard library gives: the lower case
/// itself or, of the few that are written with several characters, the base
/// letter.
pub open spec fn lowercase_char(c: char) -> char {
    if is_ascii_char(c) {
        ascii_lowercase(c)
    } else if lowercase_of(c).len() > 0 {
        lowercase_of(c)[0]
    } else {
        c
    }
}

/// `text` in lower case: the lower case of each of its characters, in order.
pub open spec fn lowercased(text: Seq<char>) -> Seq<char> {
    text.map_values(|c: char| lowercase_char(c))
}

/// `text` without punctuation and white space: the other characters, in
/// order.
pub open spec fn stripped(text: Seq<char>) -> Seq<char> {
    text.filter(|c: char| !is_unsearchable(c))
}

/// The searchable form of `name`: the name in lower case, without
/// punctuation and white space.
pub open spec fn searchable_name(name: Seq<char>) -> Seq<char> {
    stripped(lowercased(name))
}

/// The tags of `list` as one text, if there is a list.
pub open spec fn tags_joined(list: Option<Seq<Seq<char>>>) -> Option<Seq<char>> {
    match list {
        Some(tags) => Some(encoded(tags)),
        None => None,
    }
}

/// The tags that the text `joined` holds, if there is a text.
pub open spec fn tags_split(joined: Option<Seq<char>>) -> Option<Seq<Seq<char>>> {
    match joined {
        Some(text) => Some(decoded(text)),
        None => None,
    }
}

impl GameRow {
    /// The row that stands for the catalog record `game`.
    pub open spec fn of(game: CatalogGame) -> GameRow {
        GameRow {
            id: game.id,
            name: game.name,
            searchable_name: searchable_name(game.name),
            summary: game.summary,
            aggregated_rating: game.aggregated_rating,
            themes: tags_joined(game.themes),
            igdb_url: game.url,
            first_release_date: game.first_release_date,
            franchise: game.franchise,
            genres: tags_joined(game.genres),
            game_modes: tags_joined(game.game_modes),
            supports_online_multiplayer: game.supports_online_multiplayer,
            platforms: tags_joined(game.platforms),
            cover_art_url: game.cover,
            artwork_url: game.artworks,
        }
    }

    /// The row as a client of the service sees it.
    pub open spec fn to_json(self) -> GameCard {
        GameCard {
            id: self.id,
            name: self.name,
            summary: self.summary,
            aggregated_rating: self.aggregated_rating,
            themes: tags_split(self.themes),
            url: self.igdb_url,
            artwork_url: self.artwork_url,
            cover_art_url: self.cover_art_url,
            first_release_date: self.first_release_date,
            franchise: self.franchise,
            genres: tags_split(self.genres),
            game_modes: tags_split(self.game_modes),
            supports_online_multiplayer: self.supports_online_multiplayer,
            platforms: tags_split(self.platforms),
        }
    }
}

/// What is written to the table of games.
#[derive(Debug, PartialEq)]
pub enum GameWrite {
    /// A row for a game that the table does not hold yet.
    Insert(Model),
    /// The new content of the row with the same identifier.
    Update(Model),
}

/// A write to the table of games, as mathematical values.
pub enum RowWrite {
    Insert(GameRow),
    Update(GameRow),
}

impl View for GameWrite {
    type V = RowWrite;

    open spec fn view(&self) -> RowWrite {
        match self {
            GameWrite::Insert(row) => RowWrite::Insert(row@),
            GameWrite::Update(row) => RowWrite::Update(row@),
        }
    }
}

impl RowWrite {
    /// The row that is written.
    pub open spec fn row(self) -> GameRow {
        match self {
            RowWrite::Insert(row) => row,
            RowWrite::Update(row) => row,
        }
    }

    /// The write that brings the catalog record `game` into a table that
    /// holds `existing` under the game's identifier.
    pub open spec fn upsert(existing: Option<GameRow>, game: CatalogGame) -> RowWrite {
        match existing {
            Some(_) => RowWrite::Update(GameRow::of(game)),
            None => RowWrite::Insert(GameRow::of(game)),
        }
    }
}

/// The table of games: its rows by their identifiers.
pub type GameTable = Map<int, GameRow>;

/// The row that `table` holds under `id`, if any.
pub open spec fn row_of(table: GameTable, id: int) -> Option<GameRow> {
    if table.contains_key(id) {
        Some(table[id])
    } else {
        None
    }
}

/// The table after `write`: the written row stands under its identifier,
/// the other rows are as they were.
pub open spec fn written(table: GameTable, write: RowWrite) -> GameTable {
    table.insert(write.row().id, write.row())
}

/// The table after the catalog record `game` was brought into it.
pub open spec fn upserted(table: GameTable, game: CatalogGame) -> GameTable {
    written(table, RowWrite::upsert(row_of(table, game.id), game))
}

/// A search in the table of games by the beginning of the searchable name.
#[derive(Debug, PartialEq)]
pub struct NameSearch {
    /// The pattern that a searchable name has to match: a literal beginning
    /// and, after it, `%` for whatever follows.
    pub pattern: String,
    /// How many rows are wanted at most.
    pub limit: u64,
}

fn is_unsearchable_char(c: char) -> (unsearchable: bool)
    ensures
        unsearchable == is_unsearchable(c),
{
    let punctuation = ('!' <= c && c <= '/') || (':' <= c && c <= '@') || ('[' <= c && c <= '`')
        || ('{' <= c && c <= '~');
    let whitespace = ('\u{9}' <= c && c <= '\u{d}') || c == ' ' || c == '\u{85}' || c
        == '\u{a0}' || c == '\u{1680}' || ('\u{2000}' <= c && c <= '\u{200a}') || c
        == '\u{2028}' || c == '\u{2029}' || c == '\u{202f}' || c == '\u{205f}' || c
        == '\u{3000}';
    punctuation || whitespace
}

fn to_ascii_lowercase(c: char) -> (lower: char)
    ensures
        lower == ascii_lowercase(c),
{
    if c >= 'A' && c <= 'Z' {
        let code: u8 = c as u8;
        (code + 32) as char
    } else {
        c
    }
}

/// `char::to_lowercase` of the standard library: the characters that the
/// lower case of `c` is written with, in order. Which characters they are
/// is left to the library; the same character always gives the same.
#[verifier::external_body]
fn to_lowercase(c: char) -> (lower: Vec<char>)
    ensures
        lower@ == lowercase_of(c),
{
    c.to_lowercase().collect()
}

/// The one character that stands for the lower case `mapped` of `c`: the
/// first of `mapped`, or `c` itself where `mapped` is empty.
pub fn first_or(mapped: &Vec<char>, c: char) -> (lower: char)
    ensures
        lower == if mapped.len() > 0 {
            mapped[0]
        } else {
            c
        },
{
    if mapped.len() > 0 {
        mapped[0]
    } else {
        c
    }
}

fn to_lowercase_char(c: char) -> (lower: char)
    ensures
        lower == lowercase_char(c),
{
    if c <= '\u{7f}' {
        to_ascii_lowercase(c)
    } else {
        let mapped = to_lowercase(c);
        first_or(&mapped, c)
    }
}

/// Writes `text` in lower case.
pub fn lowercase(text: &str) -> (lower: String)
    ensures
        lower@ == lowercased(text@),
{
    let mut lower = String::new();
    for c in it: text.chars()
        invariant
            it.seq() == text@,
            lower@ == lowercased(text@.take(it.index())),
    {
        lower.push(to_lowercase_char(c));
        assert(lower@ =~= lowercased(text@.take(it.index() + 1)));
    }
    assert(text@.take(text@.len() as int) =~= text@);
    lower
}

/// Leaves punctuation and white space out of `text`.
pub fn strip_unsearchable(text: &str) -> (kept: String)
    ensures
        kept@ == stripped(text@),
{
    let mut kept = String::new();
    let ghost keep = |c: char| !is_unsearchable(c);
    proof {
        reveal(Seq::filter);
    }
    for c in it: text.chars()
        invariant
            it.seq() == text@,
            keep == |c: char| !is_unsearchable(c),
            kept@ == text@.take(it.index()).filter(keep),
    {
        proof {
            reveal(Seq::filter);
            let grown = text@.take(it.index() + 1);
            assert(grown.drop_last() =~= text@.take(it.index()));
            assert(grown.last() == c);
        }
        if !is_unsearchable_char(c) {
            kept.push(c);
        }
    }
    assert(text@.take(text@.len() as int) =~= text@);
    kept
}

fn join_tags(list: Option<Vec<String>>) -> (text: Option<String>)
    ensures
        text.deep_view() == tags_joined(list.deep_view()),
{
    match list {
        Some(tags) => Some(encode_tags(&tags)),
        None => None,
    }
}

fn split_tags(text: Option<String>) -> (list: Option<Vec<String>>)
    ensures
        list.deep_view() == tags_split(text.deep_view()),
{
    match text {
        Some(text) => Some(decode_tags(text.as_str())),
        None => None,
    }
}

/// The table of games.
pub struct Entity;

impl Entity {
    /// The search for the games whose searchable name begins with the
    /// searchable form of `query`, `limit` of them at most.
    pub fn find_by_query(query: String, limit: usize) -> (search: NameSearch)
        ensures
            search.pattern@ == searchable_name(query@).push('%'),
            search.limit == limit,
    {
        let mut pattern = Self::make_searchable_name(query);
        pattern.push('%');
        NameSearch { pattern, limit: limit as u64 }
    }

    /// What to write so that the table holds the catalog record `json`:
    /// where the table has a row for the game, `existing`, that row gets the
    /// record's content; where it has none, a row is inserted.
    pub fn create_or_update(existing: Option<Model>, json: IgdbGame) -> (write: GameWrite)
        ensures
            write@ == RowWrite::upsert(existing.deep_view(), json@),
    {
        match existing {
            Some(_) => GameWrite::Update(Self::create(json)),
            None => GameWrite::Insert(Self::create(json)),
        }
    }

    /// The row that stands for the catalog record `json`.
    pub fn create(json: IgdbGame) -> (row: Model)
        ensures
            row@ == GameRow::of(json@),
    {
        let searchable_name = Self::make_searchable_name(json.name.clone());
        Model {
            id: json.id,
            name: json.name,
            searchable_name,
            summary: json.summary,
            aggregated_rating: json.aggregated_rating,
            themes: join_tags(json.themes),
            igdb_url: json.url,
            first_release_date: json.first_release_date,
            franchise: json.franchise,
            genres: join_tags(json.genres),
            game_modes: join_tags(json.game_modes),
            supports_online_multiplayer: json.supports_online_multiplayer,
            platforms: join_tags(json.platforms),
            cover_art_url: json.cover,
            artwork_url: json.artworks,
        }
    }

    /// The searchable form of `name`: the name in lower case, without
    /// punctuation and white space.
    pub fn make_searchable_name(name: String) -> (searchable: String)
        ensures
            searchable@ == searchable_name(name@),
    {
        let lower = lowercase(name.as_str());
        strip_unsearchable(lower.as_str())
    }
}

impl Model {
    /// The game as a client of the service sees it: the lists of tags are
    /// read back from their texts.
    pub fn to_json(self) -> (json: GameJson)
        ensures
            json@ == self@.to_json(),
    {
        GameJson {
            id: self.id,
            name: self.name,
            summary: self.summary,
            aggregated_rating: self.aggregated_rating,
            themes: split_tags(self.themes),
            url: self.igdb_url,
            artwork_url: self.artwork_url,
            cover_art_url: self.cover_art_url,
            first_release_date: self.first_release_date,
            franchise: self.franchise,
            genres: split_tags(self.genres),
            game_modes: split_tags(self.game_modes),
            supports_online_multiplayer: self.supports_online_multiplayer,
            platforms: split_tags(self.platforms),
        }
    }
}

/// Bringing the same catalog record into the table twice leaves the table
/// as it was after the first time.
pub proof fn upsert_is_idempotent(table: GameTable, game: CatalogGame)
    ensures
        upserted(upserted(table, game), game) == upserted(table, game),
{
    assert(upserted(upserted(table, game), game) =~= upserted(table, game));
}

/// Bringing a catalog record into a table that holds its game already
/// updates the row in place: the row has the record's name and the
/// searchable form of that name, whatever it held before, it keeps its
/// identifier, and no other row changes or appears.
pub proof fn upsert_overwrites(table: GameTable, game: CatalogGame)
    requires
        table.contains_key(game.id),
    ensures
        RowWrite::upsert(row_of(table, game.id), game) is Update,
        upserted(table, game)[game.id].id == game.id,
        upserted(table, game)[game.id].name == game.name,
        upserted(table, game)[game.id].searchable_name == searchable_name(game.name),
        upserted(table, game)[game.id] == GameRow::of(game),
        upserted(table, game).dom() == table.dom(),
        forall|id: int|
            id != game.id && table.contains_key(id) ==> #[trigger] upserted(table, game)[id]
                == table[id],
{
    assert(upserted(table, game).dom() =~= table.dom());
}

/// Bringing in a catalog record whose game the table does not hold inserts
/// one row, under the game's identifier, and leaves the others alone.
pub proof fn upsert_inserts(table: GameTable, game: CatalogGame)
    requires
        !table.contains_key(game.id),
    ensures
        RowWrite::upsert(row_of(table, game.id), game) is Insert,
        upserted(table, game)[game.id] == GameRow::of(game),
        upserted(table, game).dom() == table.dom().insert(game.id),
        forall|id: int|
            table.contains_key(id) ==> #[trigger] upserted(table, game)[id] == table[id],
{
    assert(upserted(table, game).dom() =~= table.dom().insert(game.id));
}

/// A searchable name is no longer than the name, and no character of it is
/// punctuation or white space.
pub proof fn searchable_name_is_clean(name: Seq<char>)
    ensures
        searchable_name(name).len() <= name.len(),
        forall|i: int|
            0 <= i < searchable_name(name).len() ==> !is_punctuation(
                #[trigger] searchable_name(name)[i],
            ) && !is_whitespace(searchable_name(name)[i]),
{
    let keep = |c: char| !is_unsearchable(c);
    lowercased(name).lemma_filter_len(keep);
    assert forall|i: int| 0 <= i < searchable_name(name).len() implies !is_punctuation(
        #[trigger] searchable_name(name)[i],
    ) && !is_whitespace(searchable_name(name)[i]) by {
        lowercased(name).lemma_filter_pred(keep, i);
    }
}

/// Whether `from` says where the characters of `kept` come from in `name`:
/// each is the lower case of the character of `name` at its place in
/// `from`, and the places go upwards.
pub open spec fn comes_from(kept: Seq<char>, name: Seq<char>, from: Seq<int>) -> bool {
    &&& from.len() == kept.len()
    &&& forall|i: int|
        0 <= i < from.len() ==> 0 <= #[trigger] from[i] < name.len() && kept[i] == lowercase_char(
            name[from[i]],
        )
    &&& forall|i: int, j: int| 0 <= i < j < from.len() ==> from[i] < from[j]
}

/// Every character of a searchable name is the lower case of a character of
/// the name, and the characters stand in the order in which the name has
/// them.
pub proof fn searchable_name_keeps_the_order(name: Seq<char>)
    ensures
        exists|from: Seq<int>| #[trigger] comes_from(searchable_name(name), name, from),
    decreases name.len(),
{
    let keep = |c: char| !is_unsearchable(c);
    reveal(Seq::filter);
    if name.len() == 0 {
        assert(comes_from(searchable_name(name), name, Seq::<int>::empty()));
    } else {
        let front = name.drop_last();
        searchable_name_keeps_the_order(front);
        let before = choose|from: Seq<int>| #[trigger]
            comes_from(searchable_name(front), front, from);
        assert(lowercased(name).drop_last() =~= lowercased(front));
        let last = lowercase_char(name.last());
        assert(lowercased(name).last() == last);
        let from = if keep(last) {
            before.push(name.len() - 1)
        } else {
            before
        };
        let kept = searchable_name(name);
        assert(from.len() == kept.len());
        assert forall|i: int| 0 <= i < from.len() implies 0 <= #[trigger] from[i] < name.len()
            && kept[i] == lowercase_char(name[from[i]]) by {
            if i < before.len() {
                assert(from[i] == before[i]);
                assert(front[before[i]] == name[before[i]]);
            }
        }
        assert forall|i: int, j: int| 0 <= i < j < from.len() implies from[i] < from[j] by {
            if j < before.len() {
                assert(from[i] == before[i] && from[j] == before[j]);
            } else {
                assert(from[i] == before[i]);
            }
        }
        assert(comes_from(kept, name, from));
    }
}

/// The searchable name of a name of ASCII holds characters of ASCII only,
/// and no capital letter.
pub proof fn ascii_name_has_no_capitals(name: Seq<char>)
    requires
        forall|i: int| 0 <= i < name.len() ==> is_ascii_char(#[trigger] name[i]),
    ensures
        forall|i: int|
            0 <= i < searchable_name(name).len() ==> is_ascii_char(
                #[trigger] searchable_name(name)[i],
            ) && !('A' <= searchable_name(name)[i] && searchable_name(name)[i] <= 'Z'),
{
    let keep = |c: char| !is_unsearchable(c);
    let lower = lowercased(name);
    assert forall|i: int| 0 <= i < searchable_name(name).len() implies is_ascii_char(
        #[trigger] searchable_name(name)[i],
    ) && !('A' <= searchable_name(name)[i] && searchable_name(name)[i] <= 'Z') by {
        let c = lower.filter(keep)[i];
        assert(lower.filter(keep).contains(c));
        lower.lemma_filter_contains_rev(keep, c);
        let k = choose|k: int| 0 <= k < lower.len() && lower[k] == c;
        assert(lower[k] == lowercase_char(name[k]));
        assert(is_ascii_char(name[k]));
    }
}

/// The pattern of a search by name is a literal beginning and one wildcard:
/// its last character is `%`, and none before it is `%`, `_` or a
/// backslash, the characters that a pattern reads as something other than
/// themselves.
pub proof fn search_pattern_is_literal(query: Seq<char>)
    ensures
        searchable_name(query).push('%').last() == '%',
        forall|i: int|
            0 <= i < searchable_name(query).len() ==> {
                let c = #[trigger] searchable_name(query).push('%')[i];
                c != '%' && c != '_' && c != '\\'
            },
{
    searchable_name_is_clean(query);
    assert forall|i: int| 0 <= i < searchable_name(query).len() implies {
        let c = #[trigger] searchable_name(query).push('%')[i];
        c != '%' && c != '_' && c != '\\'
    } by {
        let c = searchable_name(query)[i];
        assert(!is_punctuation(c));
    }
}

/// Every list of tags comes back from the store as it went in: no list
/// stays no list, and a list is read back as the same tags in the same
/// order.
pub proof fn tags_come_back(list: Option<Seq<Seq<char>>>)
    ensures
        tags_split(tags_joined(list)) == list,
{
    match list {
        Some(tags) => {
            decoding_undoes_encoding(tags);
        },
        None => {},
    }
}

/// A stored game is handed to clients with the fields that the catalog
/// gave, its lists of tags among them, and the pictures at the addresses
/// that the catalog gave.
pub proof fn stored_game_is_the_catalog_game(game: CatalogGame)
    ensures
        GameRow::of(game).to_json() == (GameCard {
            id: game.id,
            name: game.name,
            summary: game.summary,
            aggregated_rating: game.aggregated_rating,
            themes: game.themes,
            url: game.url,
            artwork_url: game.artworks,
            cover_art_url: game.cover,
            first_release_date: game.first_release_date,
            franchise: game.franchise,
            genres: game.genres,
            game_modes: game.game_modes,
            supports_online_multiplayer: game.supports_online_multiplayer,
            platforms: game.platforms,
        }),
{
    tags_come_back(game.themes);
    tags_come_back(game.genres);
    tags_come_back(game.game_modes);
    tags_come_back(game.platforms);
}

/// The table after the catalog records `games` were brought into it one
/// after the other.
pub open spec fn upserted_all(table: GameTable, games: Seq<CatalogGame>) -> GameTable
    decreases games.len(),
{
    if games.len() == 0 {
        table
    } else {
        upserted(upserted_all(table, games.drop_last()), games.last())
    }
}

/// After a batch of catalog records was brought into the table, the table
/// holds a row for every game of the batch; the row is that of the game's
/// last record in the batch; and the rows of the games that the batch does
/// not name are as they were.
pub proof fn batch_reaches_the_table(table: GameTable, games: Seq<CatalogGame>, k: int)
    requires
        0 <= k < games.len(),
        forall|j: int| k < j < games.len() ==> games[j].id != games[k].id,
    ensures
        upserted_all(table, games).contains_key(games[k].id),
        upserted_all(table, games)[games[k].id] == GameRow::of(games[k]),
        forall|id: int|
            (forall|j: int| 0 <= j < games.len() ==> (#[trigger] games[j]).id != id) ==> row_of(
                upserted_all(table, games),
                id,
            ) == row_of(table, id),
    decreases games.len(),
{
    let front = games.drop_last();
    if k < games.len() - 1 {
        assert forall|j: int| k < j < front.len() implies front[j].id != front[k].id by {
            assert(front[j] == games[j]);
        }
        batch_reaches_the_table(table, front, k);
        assert(games.last() == games[games.len() - 1]);
    }
    assert forall|id: int|
        (forall|j: int| 0 <= j < games.len() ==> (#[trigger] games[j]).id != id) implies row_of(
            upserted_all(table, games),
            id,
        ) == row_of(table, id) by {
        lemma_batch_leaves_the_rest(table, games, id);
    }
}

proof fn lemma_batch_leaves_the_rest(table: GameTable, games: Seq<CatalogGame>, id: int)
    requires
        forall|j: int| 0 <= j < games.len() ==> (#[trigger] games[j]).id != id,
    ensures
        row_of(upserted_all(table, games), id) == row_of(table, id),
    decreases games.len(),
{
    if games.len() > 0 {
        let front = games.drop_last();
        assert forall|j: int| 0 <= j < front.len() implies (#[trigger] front[j]).id != id by {
            assert(front[j] == games[j]);
        }
        lemma_batch_leaves_the_rest(table, front, id);
        assert(games.last() == games[games.len() - 1]);
    }
}

} // verus!
