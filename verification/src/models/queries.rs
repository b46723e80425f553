//! The table of query attempts: for each search term that was ever sent to
//! the catalog, the instant at which that last happened.

use crate::clock::{now, MAX_INSTANT, MILLIS_PER_WEEK};
use vstd::prelude::*;

verus! {

/// For how many weeks after an attempt a term is not sent to the catalog
/// again.
pub const RECENT_THRESHOLD_WEEKS: i64 = 4;

/// One query attempt.
#[derive(Debug, Clone, PartialEq)]
pub struct Model {
    /// The search term, letter for letter as it was submitted, and the key
    /// of the row.
    pub query: String,
    /// The instant of the last attempt.
    pub queried_at: i64,
}

/// A row of the table of query attempts, as mathematical values.
pub struct Attempt {
    pub query: Seq<char>,
    pub queried_at: int,
}

impl View for Model {
    type V = Attempt;

    open spec fn view(&self) -> Attempt {
        Attempt { query: self.query@, queried_at: self.queried_at as int }
    }
}

impl DeepView for Model {
    type V = Attempt;

    open spec fn deep_view(&self) -> Attempt {
        self@
    }
}

/// Whether an attempt at `queried_at` is recent at `now`: less than the
/// threshold lies between the two.
pub open spec fn recent(queried_at: int, now: int) -> bool {
    now - queried_at < RECENT_THRESHOLD_WEEKS * MILLIS_PER_WEEK
}

/// What is written to the table of query attempts.
#[derive(Debug, PartialEq)]
pub enum AttemptWrite {
    /// A row for a term that the table does not hold yet.
    Insert(Model),
    /// The new content of the row of the same term.
    Update(Model),
}

/// A write to the table of query attempts, as mathematical values.
pub enum AttemptRowWrite {
    Insert(Attempt),
    Update(Attempt),
}

impl View for AttemptWrite {
    type V = AttemptRowWrite;

    open spec fn view(&self) -> AttemptRowWrite {
        match self {
            AttemptWrite::Insert(row) => AttemptRowWrite::Insert(row@),
            AttemptWrite::Update(row) => AttemptRowWrite::Update(row@),
        }
    }
}

impl AttemptRowWrite {
    /// The row that is written.
    pub open spec fn row(self) -> Attempt {
        match self {
            AttemptRowWrite::Insert(row) => row,
            AttemptRowWrite::Update(row) => row,
        }
    }

    /// The write that records an attempt for `query` at `now` in a table
    /// that holds `existing` for the term: the first attempt makes a row,
    /// a later one moves the instant of the row that is there.
    pub open spec fn record(existing: Option<Attempt>, query: Seq<char>, now: int)
        -> AttemptRowWrite {
        match existing {
            Some(_) => AttemptRowWrite::Update(Attempt { query, queried_at: now }),
            None => AttemptRowWrite::Insert(Attempt { query, queried_at: now }),
        }
    }
}

/// The table of query attempts: its rows by their search terms.
pub type AttemptTable = Map<Seq<char>, Attempt>;

/// The table after `write`: the written row stands under its term, the
/// other rows are as they were.
pub open spec fn written(table: AttemptTable, write: AttemptRowWrite) -> AttemptTable {
    table.insert(write.row().query, write.row())
}

/// The table of query attempts.
pub struct Entity;

impl Entity {
    /// The row of an attempt for `query` at the present instant.
    pub fn create(query: String) -> (row: Model)
        ensures
            row.query == query,
            0 <= row.queried_at <= MAX_INSTANT,
    {
        Self::create_at(query, now())
    }

    /// The row of an attempt for `query` at `now`.
    pub fn create_at(query: String, now: i64) -> (row: Model)
        ensures
            row.query == query,
            row.queried_at == now,
    {
        Model { query, queried_at: now }
    }

    /// What to write so that the table holds an attempt for `query` at
    /// `now`, where it holds `existing` for the term so far.
    pub fn find_or_create(existing: Option<Model>, query: String, now: i64) -> (write:
        AttemptWrite)
        ensures
            write@ == AttemptRowWrite::record(existing.deep_view(), query@, now as int),
    {
        match existing {
            Some(_) => AttemptWrite::Update(Self::create_at(query, now)),
            None => AttemptWrite::Insert(Self::create_at(query, now)),
        }
    }
}

impl Model {
    /// Whether the attempt is recent at the present instant.
    pub fn queried_recently(&self) -> (is_recent: bool)
        ensures
            exists|now: int| 0 <= now <= MAX_INSTANT && is_recent == recent(
                self.queried_at as int,
                now,
            ),
    {
        let now = now();
        let is_recent = self.queried_recently_at(now);
        assert(is_recent == recent(self.queried_at as int, now as int));
        is_recent
    }

    /// Whether the attempt is recent at `now`.
    pub fn queried_recently_at(&self, now: i64) -> (is_recent: bool)
        ensures
            is_recent == recent(self.queried_at as int, now as int),
    {
        (now as i128) - (self.queried_at as i128) < (RECENT_THRESHOLD_WEEKS as i128) * (
        MILLIS_PER_WEEK as i128)
    }
}

} // verus!
