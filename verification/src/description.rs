//! The sentence that describes an error.
use vstd::prelude::*;
use vstd::std_specs::convert::FromSpecImpl;
use vstd::string::StringExecFns;

verus! {

/// An error's description: either text known when the program was built, which
/// costs nothing to hold, or text put together when the error occurred.
pub enum Description {
    Static(&'static str),
    Owned(String),
}

impl View for Description {
    type V = Seq<char>;

    /// The text, whichever way it is held.
    open spec fn view(&self) -> Seq<char> {
        match self {
            Description::Static(text) => text@,
            Description::Owned(text) => text@,
        }
    }
}

/// What `Debug` writes for a `str` that holds `text`: the text between double
/// quotes, with the characters that cannot stand there as they are escaped.
pub uninterp spec fn quoted(text: Seq<char>) -> Seq<char>;

/// `Debug::fmt` of `str`, through `format!`. What it writes depends on the
/// text alone, and `quoted` is the name of it.
#[verifier::external_body]
fn quote(text: &str) -> (shown: String)
    ensures
        shown@ == quoted(text@),
{
    format!("{:?}", text)
}

impl Description {
    /// The whole description as a string slice.
    pub fn as_str(&self) -> (text: &str)
        ensures
            text@ == self@,
    {
        match self {
            Description::Static(description) => description,
            Description::Owned(description) => description.as_str(),
        }
    }

    /// The description as it is displayed: the text itself.
    pub fn render(&self) -> (text: String)
        ensures
            text@ == self@,
    {
        String::from_str(self.as_str())
    }

    /// The description as it is shown for debugging: the text, quoted.
    pub fn render_debug(&self) -> (text: String)
        ensures
            text@ == quoted(self@),
    {
        quote(self.as_str())
    }
}

impl Clone for Description {
    fn clone(&self) -> (copy: Description)
        ensures
            copy == *self,
    {
        match self {
            Description::Static(description) => Description::Static(*description),
            Description::Owned(description) => Description::Owned(description.clone()),
        }
    }
}

impl From<&'static str> for Description {
    fn from(description: &'static str) -> (made: Description) {
        Description::Static(description)
    }
}

impl FromSpecImpl<&'static str> for Description {
    open spec fn obeys_from_spec() -> bool {
        true
    }

    open spec fn from_spec(description: &'static str) -> Description {
        Description::Static(description)
    }
}

impl From<String> for Description {
    fn from(description: String) -> (made: Description) {
        Description::Owned(description)
    }
}

impl FromSpecImpl<String> for Description {
    open spec fn obeys_from_spec() -> bool {
        true
    }

    open spec fn from_spec(description: String) -> Description {
        Description::Owned(description)
    }
}

} // verus!
