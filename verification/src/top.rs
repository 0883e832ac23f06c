//! A chain of errors whose most recent error still has its own type.
use crate::doom::{described, pushed, tagged, Doom};
use crate::entry::{line, push_line, EntryView};
use crate::location::Location;
use crate::stack::{banner, trace, Stack};
use vstd::prelude::*;
use vstd::std_specs::convert::FromSpecImpl;
use vstd::string::StringExecFns;

verus! {

/// What a chain with a typed top holds.
pub struct TopView<D> {
    /// The most recent error, not archived.
    pub doom: D,
    /// Where that error was spotted, if it was.
    pub location: Option<Location>,
    /// The records of the older errors, oldest first.
    pub stack: Seq<EntryView>,
}

/// A chain of errors whose most recent error is held as it is, with all its
/// fields, on top of the archived records of the older ones. Only turning the
/// chain into a `Stack` archives that error, and then its type is given up.
pub struct Top<D> {
    doom: D,
    location: Option<Location>,
    stack: Stack,
}

impl<D> View for Top<D> {
    type V = TopView<D>;

    closed spec fn view(&self) -> TopView<D> {
        TopView { doom: self.doom, location: self.location, stack: self.stack@ }
    }
}

impl<D> Top<D> {
    /// The chain with `doom`, not yet spotted, on top of `stack`. To be held,
    /// `doom` need not describe itself yet.
    pub fn from_parts(doom: D, stack: Stack) -> (top: Top<D>)
        ensures
            top@ == (TopView { doom, location: None, stack: stack@ }),
    {
        Top { doom, location: None, stack }
    }
}

impl<D: Doom> Top<D> {
    /// The most recent error.
    pub fn doom(&self) -> (doom: &D)
        ensures
            *doom == self@.doom,
    {
        &self.doom
    }

    /// Where the most recent error was spotted, if it was.
    pub fn location(&self) -> (location: Option<Location>)
        ensures
            location == self@.location,
    {
        self.location
    }

    /// The chain of the older errors.
    pub fn stack(&self) -> (stack: &Stack)
        ensures
            stack@ == self@.stack,
    {
        &self.stack
    }

    /// Marks the most recent error as spotted at `location`. The location
    /// goes into the error's record when the error is archived.
    pub fn spot(self, location: Location) -> (top: Top<D>)
        ensures
            top@ == (TopView { location: Some(location), ..self@ }),
    {
        let mut top = self;
        top.location = Some(location);
        top
    }

    /// Archives the most recent error and puts `doom` on top in its own type.
    pub fn push<P: Doom>(self, doom: P) -> (top: Top<P>)
        ensures
            top@.doom == doom,
            top@.location is None,
            pushed(self@.stack, self@.doom, self@.location, top@.stack),
    {
        Stack::from(self).push(doom)
    }

    /// Archives the most recent error, then `doom` on top of it.
    pub fn push_as_stack<P: Doom>(self, doom: P) -> (stack: Stack)
        ensures
            pushed(self@.stack, self@.doom, self@.location, stack@.drop_last()),
            pushed(stack@.drop_last(), doom, None, stack@),
    {
        Stack::from(self).push_as_stack(doom)
    }

    /// Archives the most recent error and puts `doom` on top in its own type,
    /// spotted at `location`.
    pub fn pot<P: Doom>(self, doom: P, location: Location) -> (top: Top<P>)
        ensures
            top@.doom == doom,
            top@.location == Some(location),
            pushed(self@.stack, self@.doom, self@.location, top@.stack),
    {
        self.push(doom).spot(location)
    }

    /// The chain as it is displayed: the tag of its most recent error.
    pub fn render(&self) -> (text: String)
        ensures
            exists|tag: Seq<char>| #[trigger] tagged(self@.doom, tag) && text@ == banner(tag),
    {
        proof {
            reveal_strlit("<top: ");
            reveal_strlit(">");
        }
        let tag = self.doom.tag();
        let mut text = String::from_str("<top: ");
        text.append(tag);
        text.append(">");
        assert(tagged(self@.doom, tag@) && text@ =~= banner(tag@));
        text
    }

    /// The chain as it is shown for debugging: the line of its most recent
    /// error, then those of the records below, the most recent first.
    pub fn render_debug(&self) -> (text: String)
        ensures
            exists|tag: Seq<char>, description: Seq<char>|
                #![trigger tagged(self@.doom, tag), described(self@.doom, description)]
                tagged(self@.doom, tag) && described(self@.doom, description) && text@ == line(
                    tag,
                    self@.location,
                    description,
                ) + seq!['\n'] + trace(self@.stack),
    {
        proof {
            reveal_strlit("\n");
        }
        let tag = self.doom.tag();
        let description = self.doom.description();
        let mut text = String::new();
        push_line(&mut text, tag, self.location, description.as_str());
        text.append("\n");
        self.stack.write_trace(&mut text);
        assert(tagged(self@.doom, tag@) && described(self@.doom, description@) && text@ =~= line(
            tag@,
            self@.location,
            description@,
        ) + seq!['\n'] + trace(self@.stack));
        text
    }
}

impl<D: Doom> From<Top<D>> for Stack {
    /// Archives the most recent error of `top`, with the location it was
    /// spotted at, on top of the records below it.
    fn from(top: Top<D>) -> (stack: Stack)
        ensures
            pushed(top@.stack, top@.doom, top@.location, stack@),
    {
        let Top { doom, location, stack: below } = top;
        let stack = below.push_as_stack(doom);
        if let Some(location) = location {
            let spotted = stack.spot(location);
            assert(spotted@.drop_last() =~= stack@.drop_last());
            spotted
        } else {
            stack
        }
    }
}

impl<D: Doom> FromSpecImpl<Top<D>> for Stack {
    /// The record that archiving makes holds a handle of its own where it
    /// keeps the error, so no one `Stack` can be named as the result.
    open spec fn obeys_from_spec() -> bool {
        false
    }

    open spec fn from_spec(top: Top<D>) -> Stack {
        choose|stack: Stack| pushed(top@.stack, top@.doom, top@.location, stack@)
    }
}

impl<D: Clone> Clone for Top<D> {
    /// A chain with a copy of the most recent error on top of the same
    /// records.
    fn clone(&self) -> (copy: Top<D>)
        ensures
            cloned(self@.doom, copy@.doom),
            copy@.location == self@.location,
            copy@.stack == self@.stack,
    {
        Top { doom: self.doom.clone(), location: self.location, stack: self.stack.clone() }
    }
}

} // verus!
