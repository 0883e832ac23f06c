//! The archived record of one error.
use crate::description::Description;
use crate::doom::{archives, Doom};
use crate::location::Location;
use crate::original::Original;
use vstd::prelude::*;
use vstd::string::StringExecFns;

verus! {

/// What a record holds.
pub struct EntryView {
    /// The tag of the error that was archived.
    pub tag: Seq<char>,
    /// Its description.
    pub description: Seq<char>,
    /// Where the record was last spotted, if it ever was.
    pub location: Option<Location>,
    /// The error itself, where the record kept it.
    pub original: Option<Original>,
}

impl EntryView {
    /// The same record, spotted at `location`.
    pub open spec fn spotted(self, location: Location) -> EntryView {
        EntryView { location: Some(location), ..self }
    }

    /// The record on one line.
    pub open spec fn line(self) -> Seq<char> {
        line(self.tag, self.location, self.description)
    }
}

/// The line that shows an error with this tag and description:
/// `[tag @ file:line] description` where it was spotted at a location, and
/// `[tag] description` where it was not.
pub open spec fn line(tag: Seq<char>, location: Option<Location>, description: Seq<char>) -> Seq<
    char,
> {
    match location {
        Some(location) => seq!['['] + tag + seq![' ', '@', ' '] + location.text() + seq![']', ' ']
            + description,
        None => seq!['['] + tag + seq![']', ' '] + description,
    }
}

/// Appends to `out` the line that shows an error with this tag and
/// description.
pub(crate) fn push_line(
    out: &mut String,
    tag: &str,
    location: Option<Location>,
    description: &str,
)
    ensures
        final(out)@ == old(out)@ + line(tag@, location, description@),
{
    proof {
        reveal_strlit("[");
        reveal_strlit(" @ ");
        reveal_strlit("] ");
    }
    out.append("[");
    out.append(tag);
    match location {
        Some(location) => {
            out.append(" @ ");
            location.write(out);
        },
        None => {},
    }
    out.append("] ");
    out.append(description);
}

/// One error of a chain in its archived form: its tag and description as text,
/// the place where it was last spotted, and the error itself where its type
/// asks for that.
pub struct Entry {
    tag: &'static str,
    description: Description,
    location: Option<Location>,
    original: Option<Original>,
}

impl View for Entry {
    type V = EntryView;

    closed spec fn view(&self) -> EntryView {
        EntryView {
            tag: self.tag@,
            description: self.description@,
            location: self.location,
            original: self.original,
        }
    }
}

impl Entry {
    /// The record of an error with this tag and description, not yet spotted.
    /// It keeps `doom` if `keep` says so, and lets go of it otherwise.
    pub fn from_parts<T: 'static + Send + Sync>(
        tag: &'static str,
        description: Description,
        keep: bool,
        doom: T,
    ) -> (entry: Entry)
        ensures
            entry@.tag == tag@,
            entry@.description == description@,
            entry@.location is None,
            entry@.original is Some <==> keep,
            entry@.original matches Some(original) ==> original.holds(doom),
    {
        let original = if keep {
            Some(Original::retain(doom))
        } else {
            None
        };
        Entry { tag, description, location: None, original }
    }

    /// Archives `doom`: takes down its tag and description, and keeps `doom`
    /// itself if its type asks for that.
    pub fn archive<D: Doom>(doom: D) -> (entry: Entry)
        ensures
            archives(doom, None, entry@),
    {
        let tag = doom.tag();
        let description = doom.description();
        let keep = D::keep_original();
        Entry::from_parts(tag, description, keep, doom)
    }

    /// The tag of the error that was archived.
    pub fn tag(&self) -> (tag: &'static str)
        ensures
            tag@ == self@.tag,
    {
        self.tag
    }

    /// The description of the error that was archived.
    pub fn description(&self) -> (text: &str)
        ensures
            text@ == self@.description,
    {
        self.description.as_str()
    }

    /// Where the record was last spotted, if it ever was.
    pub fn location(&self) -> (location: Option<Location>)
        ensures
            location == self@.location,
    {
        self.location
    }

    /// The error itself, where the record kept it.
    pub fn original(&self) -> (original: Option<&Original>)
        ensures
            (match original {
                Some(kept) => self@.original == Some(*kept),
                None => self@.original is None,
            }),
    {
        self.original.as_ref()
    }

    /// Marks the record as spotted at `location`. An earlier location is
    /// forgotten; nothing else changes.
    pub fn spot(&mut self, location: Location)
        ensures
            final(self)@ == old(self)@.spotted(location),
    {
        self.location = Some(location);
    }

    /// The record as it is displayed: its tag.
    pub fn render(&self) -> (text: String)
        ensures
            text@ == self@.tag,
    {
        String::from_str(self.tag)
    }

    /// The record as it is shown for debugging: on one line, with its location
    /// where it has one.
    pub fn render_debug(&self) -> (text: String)
        ensures
            text@ == self@.line(),
    {
        let mut text = String::new();
        push_line(&mut text, self.tag, self.location, self.description.as_str());
        text
    }
}

impl Clone for Entry {
    /// A record that holds the same; an error that was kept is shared, not
    /// copied.
    fn clone(&self) -> (copy: Entry)
        ensures
            copy@ == self@,
    {
        let original = match &self.original {
            Some(original) => Some(original.clone()),
            None => None,
        };
        Entry {
            tag: self.tag,
            description: self.description.clone(),
            location: self.location,
            original,
        }
    }
}

} // verus!
