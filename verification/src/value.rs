//! The value that a subject shows under a label, before it is rendered.
use vstd::prelude::*;
use crate::text::{bool_text, decimal, decimal_string, bool_string};

verus! {

/// A value shown under a label, with the way it should be rendered.
#[derive(Debug, PartialEq)]
pub enum Value {
    /// Text shown as is.
    Plain(String),
    /// The identifier of the shown subject or of another subject.
    Target(String),
    /// Text that deserves attention.
    Warning(String),
    /// Text that reports an error.
    Error(String),
    /// Text for a value that is deliberately not shown.
    Ignore(String),
    /// A distinguished name, shown attribute by attribute.
    DistinguishedName(String),
    /// Rows of a key and a value, shown as a table.
    Table(Vec<(String, String)>),
    /// Rows of a key and some lines, shown as a table.
    Rows(Vec<(String, Vec<String>)>),
    /// A moment in seconds since the epoch after which something expires,
    /// with the number of days ahead in which expiry is warned for.
    TimestampExpired { seconds: i64, days: Option<u64> },
    /// A moment in seconds since the epoch before which something is not valid.
    TimestampNotBefore { seconds: i64 },
    /// No value.
    Empty,
    /// The label and its value are left out.
    Hide,
    /// The label does not apply to the subject.
    NotApplicable,
    /// The label never applies in this context.
    Unreachable,
    /// The value is not provided yet.
    Todo,
}

/// How the values under a label are aligned in a column.
#[derive(Debug, PartialEq, Eq, Structural, Clone, Copy)]
pub enum ColumnAlignment {
    Left,
    Right,
}

/// The mathematical view of a [`Value`].
pub enum ValueView {
    Plain(Seq<char>),
    Target(Seq<char>),
    Warning(Seq<char>),
    Error(Seq<char>),
    Ignore(Seq<char>),
    DistinguishedName(Seq<char>),
    Table(Seq<(Seq<char>, Seq<char>)>),
    Rows(Seq<(Seq<char>, Seq<Seq<char>>)>),
    TimestampExpired { seconds: i64, days: Option<u64> },
    TimestampNotBefore { seconds: i64 },
    Empty,
    Hide,
    NotApplicable,
    Unreachable,
    Todo,
}

impl View for Value {
    type V = ValueView;

    open spec fn view(&self) -> ValueView {
        match self {
            Value::Plain(s) => ValueView::Plain(s@),
            Value::Target(s) => ValueView::Target(s@),
            Value::Warning(s) => ValueView::Warning(s@),
            Value::Error(s) => ValueView::Error(s@),
            Value::Ignore(s) => ValueView::Ignore(s@),
            Value::DistinguishedName(s) => ValueView::DistinguishedName(s@),
            Value::Table(rows) => ValueView::Table(rows@.map_values(|r: (String, String)| (r.0@, r.1@))),
            Value::Rows(rows) => ValueView::Rows(rows@.map_values(|r: (String, Vec<String>)| (r.0@, crate::text::views(r.1@)))),
            Value::TimestampExpired { seconds, days } => ValueView::TimestampExpired { seconds: *seconds, days: *days },
            Value::TimestampNotBefore { seconds } => ValueView::TimestampNotBefore { seconds: *seconds },
            Value::Empty => ValueView::Empty,
            Value::Hide => ValueView::Hide,
            Value::NotApplicable => ValueView::NotApplicable,
            Value::Unreachable => ValueView::Unreachable,
            Value::Todo => ValueView::Todo,
        }
    }
}

/// `Some` text is plain, `None` hides the label.
pub open spec fn some_or_hide_view(o: Option<Seq<char>>) -> ValueView {
    match o {
        Some(s) => ValueView::Plain(s),
        None => ValueView::Hide,
    }
}

/// `Some` text is plain, `None` is empty.
pub open spec fn some_or_empty_view(o: Option<Seq<char>>) -> ValueView {
    match o {
        Some(s) => ValueView::Plain(s),
        None => ValueView::Empty,
    }
}

impl Value {
    /// Plain text.
    pub fn plain(s: &str) -> (v: Value)
        ensures
            v@ == ValueView::Plain(s@),
    {
        Value::Plain(String::from_str(s))
    }

    /// A boolean, shown as `true` or `false`.
    pub fn plain_bool(b: bool) -> (v: Value)
        ensures
            v@ == ValueView::Plain(bool_text(b)),
    {
        Value::Plain(bool_string(b))
    }

    /// A number, shown in decimal notation.
    pub fn plain_number(n: u64) -> (v: Value)
        ensures
            v@ == ValueView::Plain(decimal(n as nat)),
    {
        Value::Plain(decimal_string(n))
    }

    /// An identifier.
    pub fn target(s: &str) -> (v: Value)
        ensures
            v@ == ValueView::Target(s@),
    {
        Value::Target(String::from_str(s))
    }

    /// Text that deserves attention.
    pub fn warn(s: &str) -> (v: Value)
        ensures
            v@ == ValueView::Warning(s@),
    {
        Value::Warning(String::from_str(s))
    }

    /// Text that reports an error.
    pub fn error(s: &str) -> (v: Value)
        ensures
            v@ == ValueView::Error(s@),
    {
        Value::Error(String::from_str(s))
    }

    /// A value that is deliberately not shown, with the reason.
    pub fn ignore(s: &str) -> (v: Value)
        ensures
            v@ == ValueView::Ignore(s@),
    {
        Value::Ignore(String::from_str(s))
    }

    /// A distinguished name.
    pub fn distinguished_name(s: &str) -> (v: Value)
        ensures
            v@ == ValueView::DistinguishedName(s@),
    {
        Value::DistinguishedName(String::from_str(s))
    }

    /// Plain text when there is some, otherwise the label is hidden.
    pub fn some_or_hide(o: Option<&str>) -> (v: Value)
        ensures
            v@ == some_or_hide_view(match o { Some(s) => Some(s@), None => None }),
    {
        match o {
            Some(s) => Value::plain(s),
            None => Value::Hide,
        }
    }

    /// Plain text when there is some, otherwise empty.
    pub fn some_or_empty(o: Option<&str>) -> (v: Value)
        ensures
            v@ == some_or_empty_view(match o { Some(s) => Some(s@), None => None }),
    {
        match o {
            Some(s) => Value::plain(s),
            None => Value::Empty,
        }
    }

    /// Plain text when there is some, otherwise `alternative`.
    pub fn some_or(o: Option<&str>, alternative: Value) -> (v: Value)
        ensures
            v@ == match o { Some(s) => ValueView::Plain(s@), None => alternative@ },
    {
        match o {
            Some(s) => Value::plain(s),
            None => alternative,
        }
    }
}

} // verus!
