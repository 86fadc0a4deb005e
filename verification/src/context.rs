//! The lookup context of one conversion: the identifiers of the embedded
//! binaries, and the anchors of the footnotes and of the comments.

use vstd::prelude::*;
use crate::source;

verus! {

/// The map that a list of entries stands for: a later entry for a key
/// replaces an earlier one.
pub open spec fn map_of(entries: Seq<(String, u128)>) -> Map<Seq<char>, u128>
    decreases entries.len(),
{
    if entries.len() == 0 {
        Map::empty()
    } else {
        map_of(entries.drop_last()).insert(entries.last().0@, entries.last().1)
    }
}

proof fn lemma_map_of_found(entries: Seq<(String, u128)>, key: Seq<char>, i: int)
    requires
        0 <= i < entries.len(),
        entries[i].0@ == key,
        forall|j: int| i < j < entries.len() ==> entries[j].0@ != key,
    ensures
        map_of(entries).contains_key(key),
        map_of(entries)[key] == entries[i].1,
    decreases entries.len(),
{
    if i < entries.len() - 1 {
        lemma_map_of_found(entries.drop_last(), key, i);
    }
}

proof fn lemma_map_of_absent(entries: Seq<(String, u128)>, key: Seq<char>)
    requires
        forall|j: int| 0 <= j < entries.len() ==> entries[j].0@ != key,
    ensures
        !map_of(entries).contains_key(key),
    decreases entries.len(),
{
    if entries.len() > 0 {
        lemma_map_of_absent(entries.drop_last(), key);
    }
}

/// From the id of an embedded binary to the identifier that the caller gave
/// it: the 128 bits of a UUID.
#[derive(Clone, Debug)]
pub struct BinaryIds {
    entries: Vec<(String, u128)>,
}

impl View for BinaryIds {
    type V = Map<Seq<char>, u128>;

    closed spec fn view(&self) -> Map<Seq<char>, u128> {
        map_of(self.entries@)
    }
}

impl BinaryIds {
    pub fn new() -> (r: BinaryIds)
        ensures
            r@ == Map::<Seq<char>, u128>::empty(),
    {
        BinaryIds { entries: Vec::new() }
    }

    /// Gives the binary `id` the identifier `uuid`, in place of an earlier
    /// one.
    pub fn insert(&mut self, id: String, uuid: u128)
        ensures
            final(self)@ == old(self)@.insert(id@, uuid),
    {
        self.entries.push((id, uuid));
        assert(self.entries@.drop_last() =~= old(self).entries@);
    }

    /// The identifier of the binary `id`.
    pub fn get(&self, id: &String) -> (r: Option<u128>)
        ensures
            r == if self@.contains_key(id@) { Some(self@[id@]) } else { None },
    {
        let mut i: usize = self.entries.len();
        while i > 0
            invariant
                i <= self.entries.len(),
                forall|j: int| i <= j < self.entries.len() ==> self.entries@[j].0@ != id@,
            decreases i,
        {
            i -= 1;
            if self.entries[i].0 == *id {
                proof {
                    lemma_map_of_found(self.entries@, id@, i as int);
                }
                return Some(self.entries[i].1);
            }
        }
        proof {
            lemma_map_of_absent(self.entries@, id@);
        }
        None
    }
}

/// Every binary in the list has an identifier in the map.
pub open spec fn covers_all(ids: Map<Seq<char>, u128>, binaries: Seq<source::Binary>) -> bool {
    forall|i: int| 0 <= i < binaries.len() ==> ids.contains_key((#[trigger] binaries[i]).id@)
}

impl BinaryIds {
    /// Whether every binary in the list has an identifier.
    pub fn covers(&self, binaries: &Vec<source::Binary>) -> (r: bool)
        ensures
            r == covers_all(self@, binaries@),
    {
        let n: usize = binaries.len();
        let mut i: usize = 0;
        while i < n
            invariant
                n == binaries.len(),
                i <= n,
                forall|j: int| 0 <= j < i ==> self@.contains_key((#[trigger] binaries@[j]).id@),
            decreases n - i,
        {
            if self.get(&binaries[i].id).is_none() {
                return false;
            }
            i += 1;
        }
        true
    }
}

/// A set of anchors.
#[derive(Clone, Debug)]
pub struct Anchors {
    ids: Vec<String>,
}

impl View for Anchors {
    type V = Set<Seq<char>>;

    closed spec fn view(&self) -> Set<Seq<char>> {
        Set::new(|a: Seq<char>| exists|i: int| 0 <= i < self.ids@.len() && self.ids@[i]@ == a)
    }
}

impl Anchors {
    pub fn new() -> (r: Anchors)
        ensures
            r@ == Set::<Seq<char>>::empty(),
    {
        let r = Anchors { ids: Vec::new() };
        assert(r@ =~= Set::<Seq<char>>::empty());
        r
    }

    pub fn insert(&mut self, anchor: String)
        ensures
            final(self)@ == old(self)@.insert(anchor@),
    {
        self.ids.push(anchor);
        assert forall|a: Seq<char>| final(self)@.contains(a) == old(self)@.insert(
            anchor@,
        ).contains(a) by {
            if final(self)@.contains(a) {
                let i = choose|i: int| 0 <= i < self.ids@.len() && self.ids@[i]@ == a;
                if i < old(self).ids@.len() {
                    assert(old(self).ids@[i]@ == a);
                }
            }
            if old(self)@.contains(a) {
                let i = choose|i: int| 0 <= i < old(self).ids@.len() && old(self).ids@[i]@ == a;
                assert(self.ids@[i]@ == a);
            }
            if a == anchor@ {
                assert(self.ids@[self.ids@.len() - 1]@ == a);
            }
        }
        assert(final(self)@ =~= old(self)@.insert(anchor@));
    }

    pub fn contains(&self, anchor: &String) -> (r: bool)
        ensures
            r == self@.contains(anchor@),
    {
        let n: usize = self.ids.len();
        let mut i: usize = 0;
        while i < n
            invariant
                n == self.ids.len(),
                i <= n,
                forall|j: int| 0 <= j < i ==> self.ids@[j]@ != anchor@,
            decreases n - i,
        {
            if self.ids[i] == *anchor {
                return true;
            }
            i += 1;
        }
        false
    }
}

/// What a converter looks references up in.
pub struct Context<'a> {
    pub binaries: &'a BinaryIds,
    pub notes: Anchors,
    pub comments: Anchors,
}

pub struct ContextView {
    pub binaries: Map<Seq<char>, u128>,
    pub notes: Set<Seq<char>>,
    pub comments: Set<Seq<char>>,
}

impl<'a> View for Context<'a> {
    type V = ContextView;

    open spec fn view(&self) -> ContextView {
        ContextView { binaries: self.binaries@, notes: self.notes@, comments: self.comments@ }
    }
}

impl<'a> Context<'a> {
    /// A context that knows the binaries and no footnote or comment.
    pub fn bare(binaries: &'a BinaryIds) -> (r: Context<'a>)
        ensures
            r@ == bare_context(binaries@),
    {
        Context { binaries, notes: Anchors::new(), comments: Anchors::new() }
    }
}

/// The view of a context that knows the binaries and no footnote or comment.
pub open spec fn bare_context(binaries: Map<Seq<char>, u128>) -> ContextView {
    ContextView { binaries, notes: Set::empty(), comments: Set::empty() }
}

} // verus!
