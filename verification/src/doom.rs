//! What a type has to offer to be an error of a chain.
use crate::description::Description;
use crate::entry::{Entry, EntryView};
use crate::location::Location;
use crate::stack::Stack;
use crate::top::{Top, TopView};
use vstd::prelude::*;

verus! {

/// An error that can stand in a chain. It names its kind with a tag, describes
/// itself in a sentence, and says for its whole type whether an archived
/// record keeps the error itself.
///
/// Nothing is asked of what `tag`, `description` and `keep_original` answer:
/// the contracts of this crate speak of whatever they do answer. The other
/// operations are the same for every error, and a type that writes one of them
/// anew has to keep its contract.
pub trait Doom: 'static + Sized + Send + Sync {
    /// A short, one-word name for this kind of error.
    fn tag(&self) -> (tag: &'static str);

    /// One sentence about this error.
    fn description(&self) -> (description: Description);

    /// Whether a record that archives an error of this type keeps the error
    /// itself. Unless a type says otherwise, it does not.
    fn keep_original() -> (keep: bool)
        default_ensures
            !keep,
    {
        false
    }

    /// A chain that holds `self` alone, in its own type.
    fn into_top(self) -> (top: Top<Self>)
        ensures
            top@ == (TopView { doom: self, location: None, stack: Seq::<EntryView>::empty() }),
    {
        Top::from_parts(self, Stack::new())
    }

    /// A chain that holds `self` alone, archived.
    fn into_stack(self) -> (stack: Stack)
        ensures
            stack@.len() == 1,
            exists|tag: &'static str| #[trigger]
                call_ensures(Self::tag, (&self,), tag) && tag@ == stack@[0].tag,
            exists|description: Description| #[trigger]
                call_ensures(Self::description, (&self,), description) && description@
                    == stack@[0].description,
            stack@[0].location is None,
            call_ensures(Self::keep_original, (), stack@[0].original is Some),
            stack@[0].original matches Some(original) ==> original.holds(self),
    {
        let tag = self.tag();
        let description = self.description();
        let keep = Self::keep_original();
        Stack::new().push_entry(Entry::from_parts(tag, description, keep, self))
    }

    /// The failure of a computation on `self`: its chain is one that
    /// `into_top` gives for `self`.
    fn fail<O>(self) -> (failed: Result<O, Top<Self>>)
        ensures
            failed matches Err(top) && call_ensures(Self::into_top, (self,), top),
    {
        Err(self.into_top())
    }

    /// The failure of a computation on `self`: its chain is one that
    /// `into_stack` gives for `self`.
    fn fail_as_stack<O>(self) -> (failed: Result<O, Stack>)
        ensures
            failed matches Err(stack) && call_ensures(Self::into_stack, (self,), stack),
    {
        Err(self.into_stack())
    }
}

/// Whether `doom.tag()` can answer `tag`.
pub open spec fn tagged<D: Doom>(doom: D, tag: Seq<char>) -> bool {
    exists|answer: &'static str| #[trigger]
        call_ensures(D::tag, (&doom,), answer) && answer@ == tag
}

/// Whether `doom.description()` can answer `description`.
pub open spec fn described<D: Doom>(doom: D, description: Seq<char>) -> bool {
    exists|answer: Description| #[trigger]
        call_ensures(D::description, (&doom,), answer) && answer@ == description
}

/// Whether `D::keep_original()` can answer `keep`.
pub open spec fn keeps<D: Doom>(keep: bool) -> bool {
    call_ensures(D::keep_original, (), keep)
}

/// Whether `entry` is a record that archiving `doom` can give, once it has
/// been spotted at `location` where there is one: its tag and description are
/// answers of `doom`, it has an original as `D::keep_original()` answered, and
/// that original is `doom`.
pub open spec fn archives<D: Doom>(doom: D, location: Option<Location>, entry: EntryView) -> bool {
    &&& tagged(doom, entry.tag)
    &&& described(doom, entry.description)
    &&& entry.location == location
    &&& keeps::<D>(entry.original is Some)
    &&& entry.original matches Some(original) ==> original.holds(doom)
}

/// Whether `stack` is `below` with one more record on top of it, and that
/// record archives `doom`, spotted at `location` where there is one.
pub open spec fn pushed<D: Doom>(
    below: Seq<EntryView>,
    doom: D,
    location: Option<Location>,
    stack: Seq<EntryView>,
) -> bool {
    &&& stack.len() == below.len() + 1
    &&& stack.drop_last() == below
    &&& archives(doom, location, stack.last())
}

} // verus!
