//! What a command shows: a list of output records that the program prints in
//! the format the user chose.
use vstd::prelude::*;
use crate::text::views;

verus! {

/// One thing a command shows.
#[derive(Debug)]
pub enum Output {
    /// A single labelled value.
    Value { key: String, value: String },
    /// A status line.
    Status(String),
    /// An error line.
    Error(String),
    /// A warning line.
    Warning(String),
    /// Labelled values, in order.
    Pairs(Vec<(String, String)>),
    /// A table with a header row.
    Table { headers: Vec<String>, rows: Vec<Vec<String>> },
    /// A structured record of named string fields, in order.
    Object(Vec<(String, String)>),
}

/// The mathematical content of an [`Output`].
pub enum OutputView {
    Value { key: Seq<char>, value: Seq<char> },
    Status(Seq<char>),
    Error(Seq<char>),
    Warning(Seq<char>),
    Pairs(Seq<(Seq<char>, Seq<char>)>),
    Table { headers: Seq<Seq<char>>, rows: Seq<Seq<Seq<char>>> },
    Object(Seq<(Seq<char>, Seq<char>)>),
}

pub open spec fn rows_view(rows: Seq<Vec<String>>) -> Seq<Seq<Seq<char>>> {
    rows.map_values(|r: Vec<String>| views(r@))
}

pub open spec fn pairs_view(p: Seq<(String, String)>) -> Seq<(Seq<char>, Seq<char>)> {
    p.map_values(|kv: (String, String)| (kv.0@, kv.1@))
}

impl View for Output {
    type V = OutputView;

    open spec fn view(&self) -> OutputView {
        match self {
            Output::Value { key, value } => OutputView::Value { key: key@, value: value@ },
            Output::Status(s) => OutputView::Status(s@),
            Output::Error(s) => OutputView::Error(s@),
            Output::Warning(s) => OutputView::Warning(s@),
            Output::Pairs(p) => OutputView::Pairs(pairs_view(p@)),
            Output::Table { headers, rows } => OutputView::Table {
                headers: views(headers@),
                rows: rows_view(rows@),
            },
            Output::Object(p) => OutputView::Object(pairs_view(p@)),
        }
    }
}

/// The views of a list of outputs.
pub open spec fn outputs_view(v: Seq<Output>) -> Seq<OutputView> {
    v.map_values(|o: Output| o@)
}

/// The view of a command's result: what it shows, or its error message.
pub open spec fn result_view(r: Result<Vec<Output>, String>) -> Result<Seq<OutputView>, Seq<char>> {
    match r {
        Ok(out) => Ok(outputs_view(out@)),
        Err(e) => Err(e@),
    }
}

/// A labelled value.
pub fn value(key: &str, val: &str) -> (o: Output)
    ensures
        o@ == (OutputView::Value { key: key@, value: val@ }),
{
    Output::Value { key: key.to_string(), value: val.to_string() }
}

} // verus!
