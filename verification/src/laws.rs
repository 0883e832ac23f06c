//! What holds of chains however they are built.
//!
//! A law speaks of the values that calls of this crate's functions can give:
//! `call_ensures(f, args, result)` says that `result` is one of them.
use crate::doom::{archives, described, keeps, tagged, Doom};
use crate::entry::{Entry, EntryView};
use crate::original::Original;
use crate::stack::Stack;
use crate::top::Top;
use std::iter::Rev;
use std::slice::Iter;
use vstd::prelude::*;
use vstd::std_specs::iter::IteratorSpec;

verus! {

/// Whether `doom.tag()` has one answer only.
pub open spec fn one_tag<D: Doom>(doom: D) -> bool {
    forall|a: Seq<char>, b: Seq<char>|
        #![trigger tagged(doom, a), tagged(doom, b)]
        tagged(doom, a) && tagged(doom, b) ==> a == b
}

/// Whether `doom.description()` has one answer only.
pub open spec fn one_description<D: Doom>(doom: D) -> bool {
    forall|a: Seq<char>, b: Seq<char>|
        #![trigger described(doom, a), described(doom, b)]
        described(doom, a) && described(doom, b) ==> a == b
}

/// Whether `D::keep_original()` has one answer only.
pub open spec fn one_keeping<D: Doom>() -> bool {
    forall|a: bool, b: bool|
        #![trigger keeps::<D>(a), keeps::<D>(b)]
        keeps::<D>(a) && keeps::<D>(b) ==> a == b
}

/// Whether `doom` always answers the same: it has one tag and one
/// description, and its type has one answer to whether it is kept.
pub open spec fn settled<D: Doom>(doom: D) -> bool {
    &&& one_tag(doom)
    &&& one_description(doom)
    &&& one_keeping::<D>()
}

/// Whether two records agree as far as `doom`, which both archive, lets
/// them: on the location always, and on the tag, on the description and on
/// having an original wherever `doom` has one answer to that.
pub open spec fn agree<D: Doom>(doom: D, a: EntryView, b: EntryView) -> bool {
    &&& a.location == b.location
    &&& one_tag(doom) ==> a.tag == b.tag
    &&& one_description(doom) ==> a.description == b.description
    &&& one_keeping::<D>() ==> (a.original is Some <==> b.original is Some)
}

/// Whether two records read the same: same tag, description and location, and
/// an original in both or in neither.
pub open spec fn alike(a: EntryView, b: EntryView) -> bool {
    &&& a.tag == b.tag
    &&& a.description == b.description
    &&& a.location == b.location
    &&& a.original is Some <==> b.original is Some
}

/// Whether `copy` comes from `stack` by cloning `times` times over.
pub open spec fn cloned_over(stack: Stack, copy: Stack, times: nat) -> bool
    decreases times,
{
    if times == 0 {
        copy == stack
    } else {
        exists|between: Stack|
            cloned_over(stack, between, (times - 1) as nat) && #[trigger] cloned(between, copy)
    }
}

/// A chain cloned any number of times over has the records of the chain it
/// came from, with the very originals that those records kept.
pub proof fn law_clones_keep_the_records(stack: Stack, copy: Stack, times: nat)
    requires
        cloned_over(stack, copy, times),
    ensures
        copy@ == stack@,
    decreases times,
{
    if times > 0 {
        let between = choose|between: Stack|
            cloned_over(stack, between, (times - 1) as nat) && #[trigger] cloned(between, copy);
        law_clones_keep_the_records(stack, between, (times - 1) as nat);
    }
}

/// Where an error's type never asks to be kept, the record that archives the
/// error has no original, on the chain it was pushed on and on every clone of
/// that chain.
pub proof fn law_nothing_kept_unasked<D: Doom>(
    below: Stack,
    doom: D,
    stack: Stack,
    copy: Stack,
    times: nat,
)
    requires
        !keeps::<D>(true),
        call_ensures(Stack::push_as_stack::<D>, (below, doom), stack),
        cloned_over(stack, copy, times),
    ensures
        copy@.len() == below@.len() + 1,
        copy@.last().original is None,
{
    law_clones_keep_the_records(stack, copy, times);
}

/// Where an error's type always asks to be kept, the record that archives the
/// error has an original, and asking that original for the error's type gives
/// the error that was archived.
pub proof fn law_kept_original_is_the_error<D: Doom>(
    doom: D,
    entry: Entry,
    kept: Option<&Original>,
    found: Option<&D>,
)
    requires
        !keeps::<D>(false),
        call_ensures(Entry::archive::<D>, (doom,), entry),
        call_ensures(Entry::original, (&entry,), kept),
        kept matches Some(original) ==> call_ensures(
            Original::downcast_ref::<D>,
            (original,),
            found,
        ),
    ensures
        kept is Some,
        found == Some(&doom),
{
}

/// The records of a chain come out the most recent first: after three errors
/// were pushed, the third, the second, the first.
pub proof fn law_entries_newest_first<'a, A: Doom, B: Doom, C: Doom>(
    first: A,
    second: B,
    third: C,
    none: Stack,
    one: Stack,
    two: Stack,
    three: &'a Stack,
    entries: Rev<Iter<'a, Entry>>,
)
    requires
        call_ensures(Stack::new, (), none),
        call_ensures(Stack::push_as_stack::<A>, (none, first), one),
        call_ensures(Stack::push_as_stack::<B>, (one, second), two),
        call_ensures(Stack::push_as_stack::<C>, (two, third), *three),
        call_ensures(Stack::entries, (three,), entries),
    ensures
        entries.remaining().len() == 3,
        archives(third, None, entries.remaining()[0]@),
        archives(second, None, entries.remaining()[1]@),
        archives(first, None, entries.remaining()[2]@),
{
}

/// Pushing errors through a chain with a typed top archives what pushing them
/// straight onto a chain archives. Both chains hold a record of the first
/// error, then of the second, then of the third, none of them spotted, and
/// an original that either chain keeps holds the error it was made for. The
/// records of the two chains have the same tag, the same description, and an
/// original in both or in neither, each wherever the error has one answer to
/// it; an error can answer differently each time it is asked, and then the
/// two chains hold two of its answers.
pub proof fn law_typed_top_archives_the_same<A: Doom, B: Doom, C: Doom>(
    first: A,
    second: B,
    third: C,
    top_one: Top<A>,
    top_two: Top<B>,
    through: Stack,
    none: Stack,
    one: Stack,
    two: Stack,
    straight: Stack,
)
    requires
        call_ensures(A::into_top, (first,), top_one),
        call_ensures(Top::<A>::push::<B>, (top_one, second), top_two),
        call_ensures(Top::<B>::push_as_stack::<C>, (top_two, third), through),
        call_ensures(Stack::new, (), none),
        call_ensures(Stack::push_as_stack::<A>, (none, first), one),
        call_ensures(Stack::push_as_stack::<B>, (one, second), two),
        call_ensures(Stack::push_as_stack::<C>, (two, third), straight),
    ensures
        through@.len() == 3 && straight@.len() == 3,
        archives(first, None, through@[0]) && archives(first, None, straight@[0]),
        archives(second, None, through@[1]) && archives(second, None, straight@[1]),
        archives(third, None, through@[2]) && archives(third, None, straight@[2]),
        agree(first, through@[0], straight@[0]),
        agree(second, through@[1], straight@[1]),
        agree(third, through@[2], straight@[2]),
        settled(first) && settled(second) && settled(third) ==> forall|i: int|
            0 <= i < 3 ==> alike(#[trigger] through@[i], straight@[i]),
{
}

} // verus!
