//! Named data sections of the guest image.

use vstd::prelude::*;
use vstd::utf8::{encode_utf8, encode_utf8_decode_utf8};

verus! {

/// A data section: a name with the offsets at which the section starts and
/// ends.
#[derive(Debug, PartialEq, Eq)]
pub struct Section {
    pub name: String,
    pub start: u32,
    pub end: u32,
}

/// What a section is in specifications.
pub struct SectionView {
    pub name: Seq<char>,
    pub start: u32,
    pub end: u32,
}

impl View for Section {
    type V = SectionView;

    open spec fn view(&self) -> SectionView {
        SectionView { name: self.name@, start: self.start, end: self.end }
    }
}

/// No two entries carry the same name.
pub open spec fn distinct_names(entries: Seq<SectionView>) -> bool {
    forall|i: int, j: int|
        0 <= i < entries.len() && 0 <= j < entries.len() && i != j ==> (#[trigger] entries[i]).name
            != (#[trigger] entries[j]).name
}

/// The position of the first entry of which `wanted` holds, or the number of
/// entries if it holds of none.
pub open spec fn first_match(entries: Seq<SectionView>, wanted: spec_fn(SectionView) -> bool) -> int
    decreases entries.len(),
{
    if entries.len() == 0 {
        0
    } else if wanted(entries[0]) {
        0
    } else {
        1 + first_match(entries.drop_first(), wanted)
    }
}

/// The entries called `name`.
pub open spec fn named(name: Seq<char>) -> spec_fn(SectionView) -> bool {
    |entry: SectionView| entry.name == name
}

/// The position of the entry called `name`, or the number of entries if there
/// is none.
pub open spec fn position_of(entries: Seq<SectionView>, name: Seq<char>) -> int {
    first_match(entries, named(name))
}

/// The range stored under `name`.
pub open spec fn lookup(entries: Seq<SectionView>, name: Seq<char>) -> Option<(u32, u32)> {
    let at = position_of(entries, name);
    if at < entries.len() {
        Some((entries[at].start, entries[at].end))
    } else {
        None
    }
}

/// `first_match` points at an entry of which `wanted` holds, and `wanted`
/// holds of none before it.
pub proof fn lemma_first_match(entries: Seq<SectionView>, wanted: spec_fn(SectionView) -> bool)
    ensures
        0 <= first_match(entries, wanted) <= entries.len(),
        first_match(entries, wanted) < entries.len() ==> wanted(
            entries[first_match(entries, wanted)],
        ),
        forall|k: int| 0 <= k < first_match(entries, wanted) ==> !wanted(#[trigger] entries[k]),
    decreases entries.len(),
{
    if entries.len() > 0 && !wanted(entries[0]) {
        let rest = entries.drop_first();
        lemma_first_match(rest, wanted);
        assert forall|k: int| 0 <= k < first_match(entries, wanted) implies !wanted(
            #[trigger] entries[k],
        ) by {
            if k > 0 {
                assert(entries[k] == rest[k - 1]);
            }
        }
    }
}

/// Where `wanted` holds of the entry at `at` and of none before it, there
/// `first_match` points.
pub proof fn lemma_first_match_at(
    entries: Seq<SectionView>,
    wanted: spec_fn(SectionView) -> bool,
    at: int,
)
    requires
        0 <= at < entries.len(),
        wanted(entries[at]),
        forall|k: int| 0 <= k < at ==> !wanted(#[trigger] entries[k]),
    ensures
        first_match(entries, wanted) == at,
    decreases entries.len(),
{
    if at > 0 {
        let rest = entries.drop_first();
        assert(!wanted(entries[0]));
        assert forall|k: int| 0 <= k < at - 1 implies !wanted(#[trigger] rest[k]) by {
            assert(rest[k] == entries[k + 1]);
        }
        lemma_first_match_at(rest, wanted, at - 1);
    }
}

/// Where `wanted` holds of no entry, `first_match` is the number of entries.
pub proof fn lemma_first_match_none(
    entries: Seq<SectionView>,
    wanted: spec_fn(SectionView) -> bool,
)
    requires
        forall|k: int| 0 <= k < entries.len() ==> !wanted(#[trigger] entries[k]),
    ensures
        first_match(entries, wanted) == entries.len(),
    decreases entries.len(),
{
    if entries.len() > 0 {
        let rest = entries.drop_first();
        assert(!wanted(entries[0]));
        assert forall|k: int| 0 <= k < rest.len() implies !wanted(#[trigger] rest[k]) by {
            assert(rest[k] == entries[k + 1]);
        }
        lemma_first_match_none(rest, wanted);
    }
}

/// The entries after a range was stored under a name: an entry of that name
/// keeps its place and takes the range, and a new name goes last.
pub open spec fn inserted(entries: Seq<SectionView>, entry: SectionView) -> Seq<SectionView> {
    let at = position_of(entries, entry.name);
    if at < entries.len() {
        entries.update(at, entry)
    } else {
        entries.push(entry)
    }
}

/// The entries after each entry of a list was stored, the first one first.
pub open spec fn collected(list: Seq<SectionView>) -> Seq<SectionView>
    decreases list.len(),
{
    if list.len() == 0 {
        Seq::<SectionView>::empty()
    } else {
        inserted(collected(list.drop_last()), list.last())
    }
}

/// A list in which no name occurs twice is collected as it stands.
pub proof fn lemma_collected_distinct(list: Seq<SectionView>)
    requires
        distinct_names(list),
    ensures
        collected(list) == list,
    decreases list.len(),
{
    if list.len() > 0 {
        let front = list.drop_last();
        assert forall|i: int, j: int|
            0 <= i < front.len() && 0 <= j < front.len() && i != j implies (
        #[trigger] front[i]).name != (#[trigger] front[j]).name by {
            assert(front[i] == list[i]);
            assert(front[j] == list[j]);
        }
        lemma_collected_distinct(front);
        assert forall|k: int| 0 <= k < front.len() implies !named(list.last().name)(
            #[trigger] front[k],
        ) by {
            assert(front[k] == list[k]);
            assert(list[list.len() - 1] == list.last());
        }
        lemma_first_match_none(front, named(list.last().name));
        assert(front.push(list.last()) =~= list);
    }
}

/// Whether two texts are the same, decided on their bytes.
pub fn text_eq(a: &str, b: &str) -> (same: bool)
    ensures
        same == (a@ == b@),
{
    let x = a.as_bytes();
    let y = b.as_bytes();
    proof {
        encode_utf8_decode_utf8(a@);
        encode_utf8_decode_utf8(b@);
    }
    if x.len() != y.len() {
        return false;
    }
    let mut i: usize = 0;
    while i < x.len()
        invariant
            i <= x.len(),
            x.len() == y.len(),
            x@ == encode_utf8(a@),
            y@ == encode_utf8(b@),
            forall|k: int| 0 <= k < i ==> x@[k] == y@[k],
        decreases x.len() - i,
    {
        if x[i] != y[i] {
            return false;
        }
        i = i + 1;
    }
    assert(x@ =~= y@);
    true
}

/// The data sections of a guest image: ranges under pairwise distinct names,
/// in the order in which the names were first inserted.
#[derive(Debug)]
pub struct Sections {
    entries: Vec<Section>,
}

impl View for Sections {
    type V = Seq<SectionView>;

    closed spec fn view(&self) -> Seq<SectionView> {
        Seq::new(self.entries@.len(), |i: int| self.entries@[i]@)
    }
}

impl Sections {
    /// No two sections carry the same name. This holds of every value.
    #[verifier::type_invariant]
    pub closed spec fn wf(&self) -> bool {
        distinct_names(self@)
    }

    /// The names of a well-formed value are pairwise distinct.
    pub proof fn lemma_wf(&self)
        requires
            self.wf(),
        ensures
            distinct_names(self@),
    {
    }

    /// No sections.
    pub fn new() -> (sections: Sections)
        ensures
            sections@ == Seq::<SectionView>::empty(),
            sections.wf(),
    {
        let sections = Sections { entries: Vec::new() };
        assert(sections@ =~= Seq::<SectionView>::empty());
        sections
    }

    /// The sections that hold each entry of a list, stored one after the other
    /// as by `insert`.
    pub fn from_entries(entries: Vec<Section>) -> (sections: Sections)
        ensures
            sections@ == collected(Seq::new(entries@.len(), |i: int| entries@[i]@)),
            sections.wf(),
    {
        let ghost list = Seq::new(entries@.len(), |i: int| entries@[i]@);
        let mut sections = Sections::new();
        let mut i: usize = 0;
        while i < entries.len()
            invariant
                i <= entries@.len(),
                list == Seq::new(entries@.len(), |i: int| entries@[i]@),
                sections@ == collected(list.take(i as int)),
                sections.wf(),
            decreases entries.len() - i,
        {
            let entry = &entries[i];
            let ghost before = sections@;
            let previous = sections.insert(entry.name.clone(), entry.start, entry.end);
            proof {
                let upto = list.take(i as int + 1);
                assert(upto.drop_last() =~= list.take(i as int));
                assert(upto.last() == entry@);
                assert(sections@ == inserted(before, entry@));
            }
            i = i + 1;
        }
        assert(list.take(i as int) =~= list);
        sections
    }

    /// The number of sections.
    pub fn len(&self) -> (n: usize)
        ensures
            n == self@.len(),
    {
        self.entries.len()
    }

    pub fn is_empty(&self) -> (empty: bool)
        ensures
            empty == (self@.len() == 0),
    {
        self.entries.len() == 0
    }

    /// The section at a position, in insertion order.
    pub fn entry(&self, at: usize) -> (section: Option<&Section>)
        ensures
            at < self@.len() ==> section is Some && section->Some_0@ == self@[at as int],
            at >= self@.len() ==> section is None,
    {
        if at < self.entries.len() {
            Some(&self.entries[at])
        } else {
            None
        }
    }

    fn find(&self, name: &str) -> (at: usize)
        ensures
            at == position_of(self@, name@),
            at <= self@.len(),
    {
        let mut i: usize = 0;
        while i < self.entries.len()
            invariant
                i <= self.entries@.len(),
                self@.len() == self.entries@.len(),
                forall|k: int| 0 <= k < i ==> !named(name@)(#[trigger] self@[k]),
            decreases self.entries.len() - i,
        {
            if text_eq(self.entries[i].name.as_str(), name) {
                proof {
                    lemma_first_match_at(self@, named(name@), i as int);
                }
                return i;
            }
            i = i + 1;
        }
        proof {
            lemma_first_match_none(self@, named(name@));
        }
        i
    }

    /// The range stored under `name`, if any.
    pub fn get(&self, name: &str) -> (range: Option<(u32, u32)>)
        ensures
            range == lookup(self@, name@),
    {
        let at = self.find(name);
        if at < self.entries.len() {
            Some((self.entries[at].start, self.entries[at].end))
        } else {
            None
        }
    }

    /// Stores a range under `name`. A name already present keeps its place,
    /// takes the new range and hands back the old one; a new name goes last.
    pub fn insert(&mut self, name: String, start: u32, end: u32) -> (previous: Option<(u32, u32)>)
        ensures
            previous == lookup(old(self)@, name@),
            final(self).wf(),
            previous is Some ==> final(self)@ == old(self)@.update(
                position_of(old(self)@, name@),
                SectionView { name: name@, start, end },
            ),
            previous is None ==> final(self)@ == old(self)@.push(
                SectionView { name: name@, start, end },
            ),
            lookup(final(self)@, name@) == Some((start, end)),
    {
        proof {
            use_type_invariant(&*self);
            lemma_first_match(self@, named(name@));
        }
        let ghost before = self@;
        let ghost key = name@;
        let ghost added = SectionView { name: key, start, end };
        let at = self.find(name.as_str());
        let mut entries: Vec<Section> = Vec::new();
        std::mem::swap(&mut self.entries, &mut entries);
        assert(before =~= Seq::new(entries@.len(), |i: int| entries@[i]@));
        let previous = if at < entries.len() {
            let range = (entries[at].start, entries[at].end);
            entries.set(at, Section { name, start, end });
            Some(range)
        } else {
            entries.push(Section { name, start, end });
            None
        };
        let ghost after = Seq::new(entries@.len(), |i: int| entries@[i]@);
        proof {
            if previous is Some {
                assert(after =~= before.update(at as int, added));
            } else {
                assert(after =~= before.push(added));
            }
            assert forall|i: int, j: int|
                0 <= i < after.len() && 0 <= j < after.len() && i != j implies (
            #[trigger] after[i]).name != (#[trigger] after[j]).name by {
                if i != at {
                    assert(after[i] == before[i]);
                }
                if j != at {
                    assert(after[j] == before[j]);
                }
                if i == at && at < before.len() {
                    assert(after[i].name == before[i].name);
                }
                if j == at && at < before.len() {
                    assert(after[j].name == before[j].name);
                }
            }
            assert forall|k: int| 0 <= k < at implies !named(key)(#[trigger] after[k]) by {
                assert(after[k] == before[k]);
            }
            lemma_first_match_at(after, named(key), at as int);
        }
        self.entries = entries;
        assert(self@ =~= after);
        previous
    }
}

} // verus!
