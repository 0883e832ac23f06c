//! Where in the source an error was noticed.
use crate::text::{decimal, push_decimal};
use vstd::prelude::*;
use vstd::std_specs::cmp::PartialEqSpecImpl;
use vstd::string::StringExecFns;

verus! {

/// A line of a source file.
#[derive(Clone, Copy, Eq)]
pub struct Location {
    pub file: &'static str,
    pub line: u32,
}

impl Location {
    /// The location in words: the file, a colon, the line in decimal.
    pub open spec fn text(self) -> Seq<char> {
        self.file@ + seq![':'] + decimal(self.line as nat)
    }

    /// Appends the location in words to `out`.
    pub(crate) fn write(&self, out: &mut String)
        ensures
            final(out)@ == old(out)@ + self.text(),
    {
        proof {
            reveal_strlit(":");
        }
        out.append(self.file);
        out.append(":");
        push_decimal(out, self.line);
    }

    /// The location as it is displayed.
    pub fn render(&self) -> (text: String)
        ensures
            text@ == self.text(),
    {
        let mut text = String::new();
        self.write(&mut text);
        text
    }
}

impl PartialEq for Location {
    fn eq(&self, other: &Location) -> (equal: bool) {
        self.file.eq(other.file) && self.line == other.line
    }
}

impl PartialEqSpecImpl for Location {
    open spec fn obeys_eq_spec() -> bool {
        true
    }

    /// Two locations are equal when they name the same file and the same line.
    open spec fn eq_spec(&self, other: &Location) -> bool {
        self.file@ == other.file@ && self.line == other.line
    }
}

} // verus!
