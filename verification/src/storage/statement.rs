//! SQL statements as values: the text, the parameters, and what is expected back.
use vstd::prelude::*;
use vstd::string::*;

use crate::id::Uuid;
use crate::text::number;

verus! {

/// A parameter of a statement.
#[derive(Debug)]
pub enum Bind {
    /// An identifier.
    Uuid(Uuid),
    /// An identifier or null.
    OptionalUuid(Option<Uuid>),
    /// A text.
    Text(String),
    /// A text or null.
    OptionalText(Option<String>),
    /// A JSON value.
    Json(serde_json::Value),
    /// A 64-bit integer.
    Long(i64),
    /// A 32-bit integer.
    Int(i32),
    /// A 32-bit integer or null.
    OptionalInt(Option<i32>),
    /// A boolean.
    Flag(bool),
}

/// A parameter of a statement, with its text as a sequence.
pub enum BindView {
    /// An identifier.
    Uuid(Uuid),
    /// An identifier or null.
    OptionalUuid(Option<Uuid>),
    /// A text.
    Text(Seq<char>),
    /// A text or null.
    OptionalText(Option<Seq<char>>),
    /// A JSON value.
    Json(serde_json::Value),
    /// A 64-bit integer.
    Long(i64),
    /// A 32-bit integer.
    Int(i32),
    /// A 32-bit integer or null.
    OptionalInt(Option<i32>),
    /// A boolean.
    Flag(bool),
}

impl View for Bind {
    type V = BindView;

    open spec fn view(&self) -> BindView {
        match *self {
            Bind::Uuid(id) => BindView::Uuid(id),
            Bind::OptionalUuid(id) => BindView::OptionalUuid(id),
            Bind::Text(s) => BindView::Text(s@),
            Bind::OptionalText(s) => BindView::OptionalText(optional_text(s)),
            Bind::Json(value) => BindView::Json(value),
            Bind::Long(n) => BindView::Long(n),
            Bind::Int(n) => BindView::Int(n),
            Bind::OptionalInt(n) => BindView::OptionalInt(n),
            Bind::Flag(b) => BindView::Flag(b),
        }
    }
}

/// What an optional string holds.
pub open spec fn optional_text(s: Option<String>) -> Option<Seq<char>> {
    match s {
        Some(t) => Some(t@),
        None => None,
    }
}

/// What an optional string slice holds.
pub open spec fn optional_str(s: Option<&str>) -> Option<Seq<char>> {
    match s {
        Some(t) => Some(t@),
        None => None,
    }
}

/// How a statement is run.
#[derive(Debug, Clone, Copy, PartialEq, Eq, Structural)]
pub enum Fetch {
    /// For its effect and the number of rows that it touched.
    Execute,
    /// For exactly one row; none is an error.
    One,
    /// For one row, if there is one.
    Optional,
    /// For all rows.
    All,
}

/// A statement that is ready to be run.
#[derive(Debug)]
pub struct Statement {
    /// The text, with numbered placeholders.
    pub sql: String,
    /// The parameters, in the order of their placeholders.
    pub binds: Vec<Bind>,
    /// How it is run.
    pub fetch: Fetch,
}

/// A statement as sequences.
#[verifier::ext_equal]
pub struct StatementView {
    /// The text.
    pub sql: Seq<char>,
    /// The parameters.
    pub binds: Seq<BindView>,
    /// How it is run.
    pub fetch: Fetch,
}

/// The parameters of a statement.
pub open spec fn parameters(binds: Seq<Bind>) -> Seq<BindView> {
    binds.map_values(|b: Bind| b@)
}

impl View for Statement {
    type V = StatementView;

    open spec fn view(&self) -> StatementView {
        StatementView { sql: self.sql@, binds: parameters(self.binds@), fetch: self.fetch }
    }
}

/// A numbered placeholder.
pub open spec fn placeholder(n: nat) -> Seq<char> {
    "$"@ + number::decimal(n)
}

/// A statement without parameters yet.
pub(crate) fn statement(sql: String, fetch: Fetch) -> (r: Statement)
    ensures
        r@ == (StatementView { sql: sql@, binds: Seq::empty(), fetch }),
{
    let binds: Vec<Bind> = Vec::new();
    assert(parameters(binds@) =~= Seq::empty());
    Statement { sql, binds, fetch }
}

impl Statement {
    /// Adds the next parameter.
    pub(crate) fn bind(self, value: Bind) -> (r: Statement)
        ensures
            r@.sql == self@.sql,
            r@.binds == self@.binds.push(value@),
            r@.fetch == self@.fetch,
    {
        let mut binds = self.binds;
        binds.push(value);
        assert(parameters(binds@) =~= parameters(self.binds@).push(value@));
        Statement { sql: self.sql, binds, fetch: self.fetch }
    }
}

/// A parameter is seen as it was bound.
pub proof fn law_parameters_are_seen_as_bound(
    id: Uuid,
    optional_id: Option<Uuid>,
    text: String,
    value: serde_json::Value,
    long: i64,
    short: i32,
    optional: Option<i32>,
    flag: bool,
)
    ensures
        Bind::Uuid(id)@ == BindView::Uuid(id),
        Bind::OptionalUuid(optional_id)@ == BindView::OptionalUuid(optional_id),
        Bind::Text(text)@ == BindView::Text(text@),
        Bind::OptionalText(Some(text))@ == BindView::OptionalText(Some(text@)),
        Bind::OptionalText(None)@ == BindView::OptionalText(None),
        Bind::Json(value)@ == BindView::Json(value),
        Bind::Long(long)@ == BindView::Long(long),
        Bind::Int(short)@ == BindView::Int(short),
        Bind::OptionalInt(optional)@ == BindView::OptionalInt(optional),
        Bind::Flag(flag)@ == BindView::Flag(flag),
{
}

/// A statement is seen as its text, its parameters in their order, and how it is run.
pub proof fn law_statements_are_seen_whole(query: Statement, i: int)
    ensures
        query@.sql == query.sql@,
        query@.fetch == query.fetch,
        query@.binds.len() == query.binds@.len(),
        0 <= i < query.binds@.len() ==> query@.binds[i] == query.binds@[i]@,
{
}

} // verus!
