//! A chain of errors, all of them archived.
use crate::doom::{pushed, Doom};
use crate::entry::{push_line, Entry, EntryView};
use crate::location::Location;
use crate::top::{Top, TopView};
use std::iter::Rev;
use std::slice::Iter;
use vstd::prelude::*;
use vstd::std_specs::iter::IteratorSpec;
use vstd::string::StringExecFns;

verus! {

/// What is displayed for a chain whose most recent error has this tag:
/// `<top: tag>`.
pub open spec fn banner(tag: Seq<char>) -> Seq<char> {
    seq!['<', 't', 'o', 'p', ':', ' '] + tag + seq!['>']
}

/// What is displayed for a chain without errors, which has no top to name:
/// `<empty>`.
pub open spec fn blank() -> Seq<char> {
    seq!['<', 'e', 'm', 'p', 't', 'y', '>']
}

/// What is shown for debugging of a chain with these records, oldest first:
/// one line for each record, the most recent first, each closed by a newline.
pub open spec fn trace(entries: Seq<EntryView>) -> Seq<char>
    decreases entries.len(),
{
    if entries.len() == 0 {
        Seq::empty()
    } else {
        entries.last().line() + seq!['\n'] + trace(entries.drop_last())
    }
}

/// A chain of errors in their archived form, from the first that occurred to
/// the most recent, which is the top of the chain.
///
/// Every operation takes the chain and gives back a chain: none changes a
/// chain that somebody else still holds.
pub struct Stack {
    entries: Vec<Entry>,
}

impl View for Stack {
    type V = Seq<EntryView>;

    /// The records of the chain, oldest first.
    closed spec fn view(&self) -> Seq<EntryView> {
        self.entries@.map_values(|entry: Entry| entry@)
    }
}

impl Stack {
    /// A chain without errors.
    pub fn new() -> (stack: Stack)
        ensures
            stack@ == Seq::<EntryView>::empty(),
    {
        Stack { entries: Vec::new() }
    }

    /// The records of the chain, the most recent first. Nothing is copied:
    /// the iterator walks the chain itself.
    ///
    /// `remaining` is what the iterator will give, in order; the other
    /// clauses are what a `for` loop asks of an iterator it walks.
    pub fn entries(&self) -> (entries: Rev<Iter<'_, Entry>>)
        ensures
            entries.obeys_prophetic_iter_laws(),
            entries.initial_value_relation(&entries),
            entries.decrease() is Some,
            entries.remaining().len() == self@.len(),
            forall|i: int|
                0 <= i < self@.len() ==> (#[trigger] entries.remaining()[i])@ == self@[self@.len()
                    - 1 - i],
    {
        self.entries.iter().rev()
    }

    /// The chain with `entry` on top.
    pub(crate) fn push_entry(self, entry: Entry) -> (stack: Stack)
        ensures
            stack@ == self@.push(entry@),
    {
        let mut stack = self;
        stack.entries.push(entry);
        stack
    }

    /// Puts `doom` on top of the chain in its own type, without archiving it.
    pub fn push<D: Doom>(self, doom: D) -> (top: Top<D>)
        ensures
            top@ == (TopView { doom, location: None, stack: self@ }),
    {
        Top::from_parts(doom, self)
    }

    /// Archives `doom` and puts its record on top of the chain.
    pub fn push_as_stack<D: Doom>(self, doom: D) -> (stack: Stack)
        ensures
            pushed(self@, doom, None, stack@),
    {
        let stack = self.push_entry(Entry::archive(doom));
        assert(stack@.drop_last() =~= self@);
        stack
    }

    /// Marks the most recent record of the chain as spotted at `location`;
    /// an earlier location of that record is forgotten. The records below it
    /// stay as they are.
    ///
    /// A chain without errors has no record to mark: to spot one is a mistake
    /// of the caller.
    pub fn spot(self, location: Location) -> (stack: Stack)
        requires
            self@.len() > 0,
        ensures
            stack@.len() == self@.len(),
            stack@.last() == self@.last().spotted(location),
            forall|i: int| 0 <= i < self@.len() - 1 ==> stack@[i] == self@[i],
    {
        let mut stack = self;
        stack.entries.last_mut().unwrap().spot(location);
        stack
    }

    /// Puts `doom` on top of the chain in its own type, spotted at `location`.
    pub fn pot<P: Doom>(self, doom: P, location: Location) -> (top: Top<P>)
        ensures
            top@ == (TopView { doom, location: Some(location), stack: self@ }),
    {
        self.push(doom).spot(location)
    }

    /// The chain as it is displayed: the tag of its most recent record, and
    /// for a chain without errors a text that says so. Every chain can be
    /// displayed.
    pub fn render(&self) -> (text: String)
        ensures
            self@.len() > 0 ==> text@ == banner(self@.last().tag),
            self@.len() == 0 ==> text@ == blank(),
    {
        proof {
            reveal_strlit("<top: ");
            reveal_strlit(">");
            reveal_strlit("<empty>");
        }
        match self.entries.last() {
            Some(entry) => {
                let mut text = String::from_str("<top: ");
                text.append(entry.tag());
                text.append(">");
                text
            },
            None => String::from_str("<empty>"),
        }
    }

    /// Appends to `out` what is shown for debugging of the chain.
    pub(crate) fn write_trace(&self, out: &mut String)
        ensures
            final(out)@ == old(out)@ + trace(self@),
    {
        let entries = self.entries();
        assert(self@.take(self@.len() as int) =~= self@);
        for entry in shown: entries
            invariant
                shown.seq().len() == self@.len(),
                forall|i: int|
                    0 <= i < self@.len() ==> (#[trigger] shown.seq()[i])@ == self@[self@.len() - 1
                        - i],
                out@ + trace(self@.take(self@.len() - shown.index())) == old(out)@ + trace(self@),
        {
            let ghost rest = self@.take(self@.len() - shown.index());
            push_line(out, entry.tag(), entry.location(), entry.description());
            out.append("\n");
            proof {
                reveal_strlit("\n");
            }
            assert(rest.drop_last() =~= self@.take(self@.len() - shown.index() - 1));
        }
    }

    /// The chain as it is shown for debugging: a line for each record, the
    /// most recent first.
    pub fn render_debug(&self) -> (text: String)
        ensures
            text@ == trace(self@),
    {
        let mut text = String::new();
        self.write_trace(&mut text);
        text
    }
}

impl Default for Stack {
    /// A chain without errors.
    fn default() -> (stack: Stack)
        ensures
            stack@ == Seq::<EntryView>::empty(),
    {
        Stack::new()
    }
}

impl Clone for Stack {
    /// A chain with the same records. The errors that records kept are shared,
    /// not copied.
    fn clone(&self) -> (copy: Stack)
        ensures
            copy@ == self@,
    {
        Stack { entries: self.entries.clone() }
    }
}

} // verus!
