//! The source position at which an error was created or propagated.

use vstd::prelude::*;
use vstd::string::StringExecFns;

use crate::display::{dec_text, u32_text};

verus! {

/// A source position: file, line and column.
///
/// Callers pass the position of each creation or propagation site
/// explicitly; the tracer only carries and renders it.
#[derive(Debug)]
pub struct Location {
    pub file: String,
    pub line: u32,
    pub col: u32,
}

impl Clone for Location {
    fn clone(&self) -> (r: Self)
        ensures
            r == *self,
    {
        Location { file: self.file.clone(), line: self.line, col: self.col }
    }
}

impl Location {
    pub fn new(file: &str, line: u32, col: u32) -> (r: Self)
        ensures
            r.file@ == file@,
            r.line == line,
            r.col == col,
    {
        Location { file: file.to_owned(), line, col }
    }

    /// The name of the source file.
    pub fn file(&self) -> (r: &str)
        ensures
            r@ == self.file@,
    {
        self.file.as_str()
    }

    /// The line number of the position.
    pub fn line(&self) -> (r: u32)
        ensures
            r == self.line,
    {
        self.line
    }

    /// The column number of the position.
    pub fn column(&self) -> (r: u32)
        ensures
            r == self.col,
    {
        self.col
    }

    /// The rendered position, `file:line:col`.
    pub open spec fn text(&self) -> Seq<char> {
        self.file@ + ":"@ + dec_text(self.line as nat) + ":"@ + dec_text(self.col as nat)
    }

    /// Renders the position as `file:line:col`.
    pub fn render(&self) -> (r: String)
        ensures
            r@ == self.text(),
    {
        let mut s = self.file.clone();
        s.append(":");
        s.append(u32_text(self.line).as_str());
        s.append(":");
        s.append(u32_text(self.col).as_str());
        s
    }

    /// Whether two positions name the same place.
    pub open spec fn same(a: Location, b: Location) -> bool {
        a.file@ == b.file@ && a.line == b.line && a.col == b.col
    }

    /// Compares two positions.
    pub fn eq_loc(&self, other: &Location) -> (r: bool)
        ensures
            r == Location::same(*self, *other),
    {
        self.line == other.line && self.col == other.col && self.file.eq(&other.file)
    }
}

} // verus!
