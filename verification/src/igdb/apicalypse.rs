//! Builder for the textual filter expressions of the upstream catalog.
//!
//! A query is a set of optional clauses. It is written out one clause per
//! line, always in the order search, fields, exclude, limit, offset, where;
//! a clause that was never set leaves no trace in the text.

use crate::text::{decimal, decimal_string, join, joined};
use itertools::Itertools;
use vstd::prelude::*;
use vstd::string::StringExecFns;

verus! {

/// What a `fields` or an `exclude` clause names.
pub enum Selection {
    /// The clause is absent.
    Unset,
    /// The clause names every column (`*`).
    All,
    /// The clause names these columns, in this order.
    Fields(Seq<Seq<char>>),
}

/// The clauses of a query, as mathematical values.
pub struct Clauses {
    pub search: Option<Seq<char>>,
    pub fields: Selection,
    pub exclude: Selection,
    pub limit: Option<nat>,
    pub offset: Option<nat>,
    pub where_clause: Option<Seq<char>>,
}

impl Selection {
    /// The line of a clause with keyword `keyword` for this selection.
    pub open spec fn line(self, keyword: Seq<char>) -> Seq<char> {
        match self {
            Selection::Unset => Seq::empty(),
            Selection::All => keyword + " *;\n"@,
            Selection::Fields(names) => keyword + " "@ + joined(names, ", "@) + ";\n"@,
        }
    }
}

impl Clauses {
    /// The query without any clause.
    pub open spec fn unset() -> Clauses {
        Clauses {
            search: None,
            fields: Selection::Unset,
            exclude: Selection::Unset,
            limit: None,
            offset: None,
            where_clause: None,
        }
    }

    pub open spec fn search_line(self) -> Seq<char> {
        match self.search {
            Some(term) => "search \""@ + term + "\";\n"@,
            None => Seq::empty(),
        }
    }

    pub open spec fn fields_line(self) -> Seq<char> {
        self.fields.line("fields"@)
    }

    pub open spec fn exclude_line(self) -> Seq<char> {
        self.exclude.line("exclude"@)
    }

    pub open spec fn limit_line(self) -> Seq<char> {
        match self.limit {
            Some(n) => "limit "@ + decimal(n) + ";\n"@,
            None => Seq::empty(),
        }
    }

    pub open spec fn offset_line(self) -> Seq<char> {
        match self.offset {
            Some(n) => "offset "@ + decimal(n) + ";\n"@,
            None => Seq::empty(),
        }
    }

    pub open spec fn where_line(self) -> Seq<char> {
        match self.where_clause {
            Some(filter) => "where "@ + filter + ";\n"@,
            None => Seq::empty(),
        }
    }

    /// The text of the query: its lines in the fixed order.
    pub open spec fn rendered(self) -> Seq<char> {
        self.search_line() + self.fields_line() + self.exclude_line() + self.limit_line()
            + self.offset_line() + self.where_line()
    }

    /// The query with its filter replaced by `filter`.
    pub open spec fn with_where(self, filter: Seq<char>) -> Clauses {
        Clauses { where_clause: Some(filter), ..self }
    }

    /// The query whose filter also demands `condition`: the old filter, `" & "`
    /// and the condition, or the condition alone where there was no filter.
    pub open spec fn and_where(self, condition: Seq<char>) -> Clauses {
        match self.where_clause {
            Some(filter) => self.with_where(filter + " & "@ + condition),
            None => self.with_where(condition),
        }
    }
}

enum SearchOptions {
    Unset,
    Search(String),
}

enum FieldOptions {
    Unset,
    All,
    Fields(Vec<String>),
}

enum ExcludeOptions {
    Unset,
    All,
    Fields(Vec<String>),
}

enum LimitOptions {
    Unset,
    Limit(usize),
}

enum OffsetOptions {
    Unset,
    Offset(usize),
}

enum WhereOptions {
    Unset,
    Where(String),
}

/// A query for the upstream catalog, built clause by clause.
pub struct ApicalypseQuery {
    search: SearchOptions,
    fields: FieldOptions,
    exclude: ExcludeOptions,
    limit: LimitOptions,
    offset: OffsetOptions,
    where_clause: WhereOptions,
}

impl View for ApicalypseQuery {
    type V = Clauses;

    closed spec fn view(&self) -> Clauses {
        Clauses {
            search: match self.search {
                SearchOptions::Search(term) => Some(term@),
                SearchOptions::Unset => None,
            },
            fields: match self.fields {
                FieldOptions::Unset => Selection::Unset,
                FieldOptions::All => Selection::All,
                FieldOptions::Fields(names) => Selection::Fields(names.deep_view()),
            },
            exclude: match self.exclude {
                ExcludeOptions::Unset => Selection::Unset,
                ExcludeOptions::All => Selection::All,
                ExcludeOptions::Fields(names) => Selection::Fields(names.deep_view()),
            },
            limit: match self.limit {
                LimitOptions::Limit(n) => Some(n as nat),
                LimitOptions::Unset => None,
            },
            offset: match self.offset {
                OffsetOptions::Offset(n) => Some(n as nat),
                OffsetOptions::Unset => None,
            },
            where_clause: match self.where_clause {
                WhereOptions::Where(filter) => Some(filter@),
                WhereOptions::Unset => None,
            },
        }
    }
}

/// `Itertools::collect_vec` on the items of a vector: the items that the
/// iterator yields are gathered, in the order in which it yields them, in a
/// new vector. The iterator of a vector yields its items from first to last.
#[verifier::external_body]
fn collect_vec(names: Vec<String>) -> (out: Vec<String>)
    ensures
        out@ == names@,
{
    names.into_iter().collect_vec()
}

/// Appends the line of a `fields` or `exclude` clause that names `names`.
fn append_names_line(out: &mut String, keyword: &str, names: &Vec<String>)
    ensures
        final(out)@ == old(out)@ + Selection::Fields(names.deep_view()).line(keyword@),
{
    let list = join(names, ", ");
    out.append(keyword);
    out.append(" ");
    out.append(list.as_str());
    out.append(";\n");
    assert(out@ =~= old(out)@ + (keyword@ + " "@ + joined(names.deep_view(), ", "@) + ";\n"@));
}

/// Appends the line of a `fields` or `exclude` clause that names everything.
fn append_all_line(out: &mut String, keyword: &str)
    ensures
        final(out)@ == old(out)@ + Selection::All.line(keyword@),
{
    out.append(keyword);
    out.append(" *;\n");
    assert(out@ =~= old(out)@ + (keyword@ + " *;\n"@));
}

/// Appends a line made of `keyword`, the number `n` and the line's end.
fn append_number_line(out: &mut String, keyword: &str, n: usize)
    ensures
        final(out)@ == old(out)@ + (keyword@ + decimal(n as nat) + ";\n"@),
{
    let digits = decimal_string(n as u64);
    out.append(keyword);
    out.append(digits.as_str());
    out.append(";\n");
    assert(out@ =~= old(out)@ + (keyword@ + decimal(n as nat) + ";\n"@));
}

/// Appends a line made of `opening`, `text` and `closing`.
fn append_text_line(out: &mut String, opening: &str, text: &str, closing: &str)
    ensures
        final(out)@ == old(out)@ + (opening@ + text@ + closing@),
{
    out.append(opening);
    out.append(text);
    out.append(closing);
    assert(out@ =~= old(out)@ + (opening@ + text@ + closing@));
}

impl ApicalypseQuery {
    /// A query without any clause.
    pub fn builder() -> (query: Self)
        ensures
            query@ == Clauses::unset(),
    {
        Self {
            fields: FieldOptions::Unset,
            exclude: ExcludeOptions::Unset,
            limit: LimitOptions::Unset,
            where_clause: WhereOptions::Unset,
            offset: OffsetOptions::Unset,
            search: SearchOptions::Unset,
        }
    }

    /// Asks for the columns `fields`, in this order.
    pub fn fields(self, fields: Vec<String>) -> (query: Self)
        ensures
            query@ == (Clauses { fields: Selection::Fields(fields.deep_view()), ..self@ }),
    {
        let mut query = self;
        let names = collect_vec(fields);
        assert(names.deep_view() =~= fields.deep_view());
        query.fields = FieldOptions::Fields(names);
        query
    }

    /// Asks for every column.
    pub fn fields_all(self) -> (query: Self)
        ensures
            query@ == (Clauses { fields: Selection::All, ..self@ }),
    {
        let mut query = self;
        query.fields = FieldOptions::All;
        query
    }

    /// Leaves the columns `excluded_fields` out of the answer.
    pub fn exclude(self, excluded_fields: Vec<String>) -> (query: Self)
        ensures
            query@ == (Clauses {
                exclude: Selection::Fields(excluded_fields.deep_view()),
                ..self@
            }),
    {
        let mut query = self;
        let names = collect_vec(excluded_fields);
        assert(names.deep_view() =~= excluded_fields.deep_view());
        query.exclude = ExcludeOptions::Fields(names);
        query
    }

    /// Leaves every column out of the answer.
    pub fn exclude_all(self) -> (query: Self)
        ensures
            query@ == (Clauses { exclude: Selection::All, ..self@ }),
    {
        let mut query = self;
        query.exclude = ExcludeOptions::All;
        query
    }

    /// Asks for at most `limit` records.
    pub fn limit(self, limit: usize) -> (query: Self)
        ensures
            query@ == (Clauses { limit: Some(limit as nat), ..self@ }),
    {
        let mut query = self;
        query.limit = LimitOptions::Limit(limit);
        query
    }

    /// Skips the first `offset` records.
    pub fn offset(self, offset: usize) -> (query: Self)
        ensures
            query@ == (Clauses { offset: Some(offset as nat), ..self@ }),
    {
        let mut query = self;
        query.offset = OffsetOptions::Offset(offset);
        query
    }

    /// Sets the filter to `where_clause`, whatever it was before.
    pub fn where_clause(self, where_clause: String) -> (query: Self)
        ensures
            query@ == self@.with_where(where_clause@),
    {
        let mut query = self;
        query.where_clause = WhereOptions::Where(where_clause);
        query
    }

    /// Searches for the term `search`.
    pub fn search(self, search: String) -> (query: Self)
        ensures
            query@ == (Clauses { search: Some(search@), ..self@ }),
    {
        let mut query = self;
        query.search = SearchOptions::Search(search);
        query
    }

    /// Demands `and_where` on top of the filter that is set; where none is
    /// set, `and_where` becomes the filter.
    pub fn and_where(self, and_where: &str) -> (query: Self)
        ensures
            query@ == self@.and_where(and_where@),
    {
        let mut query = self;
        let filter = match query.where_clause {
            WhereOptions::Where(mut filter) => {
                filter.append(" & ");
                filter.append(and_where);
                filter
            },
            WhereOptions::Unset => String::from_str(and_where),
        };
        query.where_clause = WhereOptions::Where(filter);
        query
    }

    /// Writes the query out: one line per clause that is set, in the order
    /// search, fields, exclude, limit, offset, where.
    pub fn to_string(&self) -> (out: String)
        ensures
            out@ == self@.rendered(),
    {
        let mut out = String::new();
        match &self.search {
            SearchOptions::Search(term) => {
                append_text_line(&mut out, "search \"", term.as_str(), "\";\n");
            },
            SearchOptions::Unset => {},
        }
        assert(out@ =~= self@.search_line());
        match &self.fields {
            FieldOptions::All => append_all_line(&mut out, "fields"),
            FieldOptions::Fields(names) => append_names_line(&mut out, "fields", names),
            FieldOptions::Unset => {},
        }
        assert(out@ =~= self@.search_line() + self@.fields_line());
        match &self.exclude {
            ExcludeOptions::All => append_all_line(&mut out, "exclude"),
            ExcludeOptions::Fields(names) => append_names_line(&mut out, "exclude", names),
            ExcludeOptions::Unset => {},
        }
        assert(out@ =~= self@.search_line() + self@.fields_line() + self@.exclude_line());
        match &self.limit {
            LimitOptions::Limit(n) => append_number_line(&mut out, "limit ", *n),
            LimitOptions::Unset => {},
        }
        assert(out@ =~= self@.search_line() + self@.fields_line() + self@.exclude_line()
            + self@.limit_line());
        match &self.offset {
            OffsetOptions::Offset(n) => append_number_line(&mut out, "offset ", *n),
            OffsetOptions::Unset => {},
        }
        assert(out@ =~= self@.search_line() + self@.fields_line() + self@.exclude_line()
            + self@.limit_line() + self@.offset_line());
        match &self.where_clause {
            WhereOptions::Where(filter) => {
                append_text_line(&mut out, "where ", filter.as_str(), ";\n");
            },
            WhereOptions::Unset => {},
        }
        assert(out@ =~= self@.rendered());
        out
    }
}

/// On a query without a filter, `and_where` does what `where_clause` does.
pub proof fn and_where_without_filter_sets_it(query: Clauses, condition: Seq<char>)
    requires
        query.where_clause is None,
    ensures
        query.and_where(condition) == query.with_where(condition),
{
}

/// The text of a query is made of the lines of its clauses in the order
/// search, fields, exclude, limit, offset, where, and a clause that is not
/// set contributes nothing to it: no line, not even an empty one.
pub proof fn clauses_render_in_fixed_order(query: Clauses)
    ensures
        query.rendered() == query.search_line() + query.fields_line() + query.exclude_line()
            + query.limit_line() + query.offset_line() + query.where_line(),
        query.search is None ==> query.search_line() == Seq::<char>::empty(),
        query.fields is Unset ==> query.fields_line() == Seq::<char>::empty(),
        query.exclude is Unset ==> query.exclude_line() == Seq::<char>::empty(),
        query.limit is None ==> query.limit_line() == Seq::<char>::empty(),
        query.offset is None ==> query.offset_line() == Seq::<char>::empty(),
        query.where_clause is None ==> query.where_line() == Seq::<char>::empty(),
        Clauses::unset().rendered() == Seq::<char>::empty(),
{
    assert(Clauses::unset().rendered() =~= Seq::<char>::empty());
}

} // verus!
