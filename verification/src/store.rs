//! The in-memory fortune store: a mapping from id to message, held as a list of
//! fortunes in which no id occurs twice.

use crate::fortune::{views, Fortune, FortuneView};
use vstd::prelude::*;

verus! {

/// The mapping from id to message that a store models.
pub type Fortunes = Map<Seq<char>, Seq<char>>;

/// No two entries share an id.
pub open spec fn distinct_ids(entries: Seq<FortuneView>) -> bool {
    forall|i: int, j: int| 0 <= i < j < entries.len() ==> entries[i].id != entries[j].id
}

/// The ids that occur in `entries`.
pub open spec fn ids_of(entries: Seq<FortuneView>) -> Set<Seq<char>> {
    Set::new(|id: Seq<char>| exists|i: int| 0 <= i < entries.len() && #[trigger] entries[i].id == id)
}

/// The mapping that is left when `entries` are written onto `base` one after
/// the other: a later write to an id replaces an earlier one.
pub open spec fn overlaid(base: Fortunes, entries: Seq<FortuneView>) -> Fortunes
    decreases entries.len(),
{
    if entries.len() == 0 {
        base
    } else {
        overlaid(base, entries.drop_last()).insert(entries.last().id, entries.last().message)
    }
}

/// `entries` lists `fortunes` exactly: every id of the mapping once, each with
/// its message, and nothing else.
pub open spec fn enumerates(entries: Seq<FortuneView>, fortunes: Fortunes) -> bool {
    &&& distinct_ids(entries)
    &&& fortunes.dom().finite()
    &&& entries.len() == fortunes.dom().len()
    &&& forall|i: int|
        0 <= i < entries.len() ==> fortunes.contains_key(#[trigger] entries[i].id)
            && fortunes[entries[i].id] == entries[i].message
    &&& forall|id: Seq<char>|
        fortunes.contains_key(id) ==> exists|i: int|
            0 <= i < entries.len() && #[trigger] entries[i].id == id
}

/// The fortunes that every store starts with.
pub open spec fn default_fortunes() -> Fortunes {
    Map::<Seq<char>, Seq<char>>::empty().insert(
        "1"@,
        "A new voyage will fill your life with untold memories."@,
    ).insert(
        "2"@,
        "The measure of time to your next goal is the measure of your discipline."@,
    ).insert("3"@, "The only way to do well is to do better each day."@).insert(
        "4"@,
        "It ain't over till it's EOF."@,
    )
}

/// Writing onto a mapping touches the ids written and no others.
pub proof fn lemma_overlaid_dom(base: Fortunes, entries: Seq<FortuneView>)
    ensures
        overlaid(base, entries).dom() =~= base.dom().union(ids_of(entries)),
    decreases entries.len(),
{
    if entries.len() > 0 {
        let front = entries.drop_last();
        lemma_overlaid_dom(base, front);
        assert forall|id: Seq<char>| ids_of(entries).contains(id) <==> (ids_of(front).contains(id)
            || id == entries.last().id) by {
            if ids_of(entries).contains(id) {
                let i = choose|i: int| 0 <= i < entries.len() && #[trigger] entries[i].id == id;
                if i < front.len() {
                    assert(front[i].id == id);
                }
            }
            if ids_of(front).contains(id) {
                let i = choose|i: int| 0 <= i < front.len() && #[trigger] front[i].id == id;
                assert(entries[i].id == id);
            }
            if id == entries.last().id {
                assert(entries[entries.len() - 1].id == id);
            }
        }
    }
}

/// One more write is one more insert.
pub proof fn lemma_overlaid_push(base: Fortunes, entries: Seq<FortuneView>, entry: FortuneView)
    ensures
        overlaid(base, entries.push(entry)) == overlaid(base, entries).insert(
            entry.id,
            entry.message,
        ),
{
    assert(entries.push(entry).drop_last() =~= entries);
}

/// Writing one series and then another is writing the two in a row.
pub proof fn lemma_overlaid_append(
    base: Fortunes,
    first: Seq<FortuneView>,
    second: Seq<FortuneView>,
)
    ensures
        overlaid(overlaid(base, first), second) == overlaid(base, first + second),
    decreases second.len(),
{
    if second.len() == 0 {
        assert(first + second =~= first);
    } else {
        lemma_overlaid_append(base, first, second.drop_last());
        assert((first + second).drop_last() =~= first + second.drop_last());
    }
}

/// Last write wins: the entry after which no other writes the same id decides
/// the message of that id.
pub proof fn lemma_overlaid_last_write_wins(base: Fortunes, entries: Seq<FortuneView>, i: int)
    requires
        0 <= i < entries.len(),
        forall|j: int| i < j < entries.len() ==> entries[j].id != entries[i].id,
    ensures
        overlaid(base, entries).contains_key(entries[i].id),
        overlaid(base, entries)[entries[i].id] == entries[i].message,
    decreases entries.len(),
{
    if i < entries.len() - 1 {
        let front = entries.drop_last();
        assert(front[i] == entries[i]);
        assert forall|j: int| i < j < front.len() implies front[j].id != front[i].id by {
            assert(front[j] == entries[j]);
        }
        lemma_overlaid_last_write_wins(base, front, i);
        assert(entries.last().id != entries[i].id);
    }
}

/// An id that no entry writes keeps what the base held for it.
pub proof fn lemma_overlaid_keeps_untouched(
    base: Fortunes,
    entries: Seq<FortuneView>,
    id: Seq<char>,
)
    requires
        forall|j: int| 0 <= j < entries.len() ==> entries[j].id != id,
    ensures
        overlaid(base, entries).contains_key(id) == base.contains_key(id),
        overlaid(base, entries)[id] == base[id],
    decreases entries.len(),
{
    if entries.len() > 0 {
        let front = entries.drop_last();
        assert forall|j: int| 0 <= j < front.len() implies front[j].id != id by {
            assert(front[j] == entries[j]);
        }
        lemma_overlaid_keeps_untouched(base, front, id);
        assert(entries[entries.len() - 1].id != id);
    }
}

/// A list without repeated ids lists exactly the mapping that its writes leave
/// on an empty one.
pub proof fn lemma_distinct_enumerates(entries: Seq<FortuneView>)
    requires
        distinct_ids(entries),
    ensures
        enumerates(entries, overlaid(Map::empty(), entries)),
    decreases entries.len(),
{
    let all = overlaid(Map::empty(), entries);
    lemma_overlaid_dom(Map::empty(), entries);
    assert(all.dom() =~= ids_of(entries));
    assert forall|i: int| 0 <= i < entries.len() implies all.contains_key(
        #[trigger] entries[i].id,
    ) && all[entries[i].id] == entries[i].message by {
        lemma_overlaid_last_write_wins(Map::empty(), entries, i);
    }
    if entries.len() == 0 {
        assert(all.dom() =~= Set::<Seq<char>>::empty());
    } else {
        let front = entries.drop_last();
        assert forall|i: int, j: int| 0 <= i < j < front.len() implies front[i].id
            != front[j].id by {
            assert(front[i] == entries[i] && front[j] == entries[j]);
        }
        lemma_distinct_enumerates(front);
        let before = overlaid(Map::empty(), front);
        if before.contains_key(entries.last().id) {
            let i = choose|i: int| 0 <= i < front.len() && #[trigger] front[i].id
                == entries.last().id;
            assert(front[i] == entries[i]);
            assert(false);
        }
        assert(all.dom() =~= before.dom().insert(entries.last().id));
    }
}

/// The in-memory mapping from id to fortune. It is created once, seeded with
/// the defaults, and only ever grows or has messages replaced.
pub struct FortuneStore {
    entries: Vec<Fortune>,
}

impl View for FortuneStore {
    type V = Fortunes;

    closed spec fn view(&self) -> Fortunes {
        overlaid(Map::empty(), views(self.entries@))
    }
}

impl FortuneStore {
    #[verifier::type_invariant]
    spec fn no_id_twice(self) -> bool {
        distinct_ids(views(self.entries@))
    }

    /// The current entries in the order in which `list` hands them out. The
    /// order is the store's own business: nothing but `list` and `id_at`
    /// reveals it.
    pub closed spec fn snapshot(&self) -> Seq<FortuneView> {
        views(self.entries@)
    }

    /// A store without entries.
    pub fn new() -> (store: Self)
        ensures
            store@ == Map::<Seq<char>, Seq<char>>::empty(),
            store.snapshot() == Seq::<FortuneView>::empty(),
    {
        let store = FortuneStore { entries: Vec::new() };
        assert(views(store.entries@) =~= Seq::<FortuneView>::empty());
        store
    }

    /// A store that holds the default fortunes and nothing else.
    pub fn seed_defaults() -> (store: Self)
        ensures
            store@ == default_fortunes(),
    {
        let mut store = FortuneStore::new();
        store.put(Fortune::new("1", "A new voyage will fill your life with untold memories."));
        store.put(
            Fortune::new(
                "2",
                "The measure of time to your next goal is the measure of your discipline.",
            ),
        );
        store.put(Fortune::new("3", "The only way to do well is to do better each day."));
        store.put(Fortune::new("4", "It ain't over till it's EOF."));
        store
    }

    /// The number of entries, which is the number of distinct ids.
    pub fn len(&self) -> (count: usize)
        ensures
            self@.dom().finite(),
            count == self@.dom().len(),
            count == self.snapshot().len(),
    {
        proof {
            use_type_invariant(self);
            lemma_distinct_enumerates(views(self.entries@));
        }
        self.entries.len()
    }

    /// Whether the store holds no entry at all.
    pub fn is_empty(&self) -> (empty: bool)
        ensures
            empty == (self@ == Map::<Seq<char>, Seq<char>>::empty()),
            empty == (self.snapshot().len() == 0),
    {
        proof {
            use_type_invariant(self);
            lemma_distinct_enumerates(views(self.entries@));
            if self.entries@.len() > 0 {
                assert(self@.contains_key(views(self.entries@)[0].id));
            } else {
                assert(self@ =~= Map::<Seq<char>, Seq<char>>::empty());
            }
        }
        self.entries.len() == 0
    }

    fn position(&self, id: &String) -> (at: Option<usize>)
        ensures
            at matches Some(i) ==> i < self.entries@.len() && self.entries@[i as int]@.id == id@,
            at is None ==> forall|j: int|
                0 <= j < self.entries@.len() ==> self.entries@[j]@.id != id@,
    {
        let mut i: usize = 0;
        while i < self.entries.len()
            invariant
                i <= self.entries@.len(),
                forall|j: int| 0 <= j < i ==> self.entries@[j]@.id != id@,
            decreases self.entries@.len() - i,
        {
            if self.entries[i].id == *id {
                return Some(i);
            }
            i += 1;
        }
        None
    }

    /// Point lookup: the fortune stored under `id`, if there is one.
    pub fn get(&self, id: &str) -> (found: Option<&Fortune>)
        ensures
            found is Some <==> self@.contains_key(id@),
            found matches Some(fortune) ==> fortune@.id == id@ && fortune@.message == self@[id@],
    {
        let key = id.to_owned();
        proof {
            use_type_invariant(self);
            lemma_distinct_enumerates(views(self.entries@));
        }
        match self.position(&key) {
            Some(i) => {
                assert(views(self.entries@)[i as int].id == id@);
                Some(&self.entries[i])
            },
            None => {
                assert forall|j: int| 0 <= j < views(self.entries@).len() implies views(
                    self.entries@,
                )[j].id != id@ by {}
                None
            },
        }
    }

    /// Insert or replace: afterwards the store maps the fortune's id to its
    /// message, and every other id to what it held before.
    pub fn put(&mut self, fortune: Fortune)
        ensures
            final(self)@ == old(self)@.insert(fortune@.id, fortune@.message),
    {
        proof {
            use_type_invariant(&*self);
        }
        let ghost before = views(self.entries@);
        let ghost entry = fortune@;
        let found = self.position(&fortune.id);
        let mut entries: Vec<Fortune> = Vec::new();
        std::mem::swap(&mut entries, &mut self.entries);
        match found {
            Some(i) => {
                entries.set(i, fortune);
                proof {
                    assert(views(entries@) =~= before.update(i as int, entry));
                    lemma_replace(before, i as int, entry);
                }
            },
            None => {
                entries.push(fortune);
                proof {
                    let after = views(entries@);
                    assert(after =~= before.push(entry));
                    assert(after.drop_last() =~= before);
                    assert(distinct_ids(after));
                }
            },
        }
        self.entries = entries;
    }

    /// Bulk insert from an outside source: each entry is put in turn, so a
    /// later entry replaces an earlier one with the same id, and any entry
    /// replaces a default with its id.
    pub fn overlay(&mut self, entries: Vec<Fortune>)
        ensures
            final(self)@ == overlaid(old(self)@, views(entries@)),
    {
        let ghost all = views(entries@);
        let mut i: usize = 0;
        while i < entries.len()
            invariant
                i <= entries@.len(),
                all == views(entries@),
                self@ == overlaid(old(self)@, all.take(i as int)),
            decreases entries@.len() - i,
        {
            let next = entries[i].clone();
            proof {
                assert(all.take(i + 1).drop_last() =~= all.take(i as int));
                assert(all.take(i + 1).last() == all[i as int]);
            }
            self.put(next);
            i += 1;
        }
        proof {
            assert(all.take(i as int) =~= all);
        }
    }

    /// A copy of every entry. Each id of the store occurs exactly once; the
    /// order carries no meaning.
    pub fn list(&self) -> (all: Vec<Fortune>)
        ensures
            views(all@) == self.snapshot(),
            enumerates(views(all@), self@),
    {
        proof {
            use_type_invariant(self);
            lemma_distinct_enumerates(views(self.entries@));
        }
        let mut all: Vec<Fortune> = Vec::new();
        let mut i: usize = 0;
        while i < self.entries.len()
            invariant
                i <= self.entries@.len(),
                views(all@) =~= views(self.entries@).take(i as int),
            decreases self.entries@.len() - i,
        {
            let ghost listed = views(all@);
            all.push(self.entries[i].clone());
            i += 1;
            assert(views(all@) =~= listed.push(views(self.entries@)[i - 1]));
        }
        proof {
            assert(views(self.entries@).take(i as int) =~= views(self.entries@));
        }
        all
    }

    /// The id of the entry at `index` of the snapshot.
    pub fn id_at(&self, index: usize) -> (id: String)
        requires
            index < self.snapshot().len(),
        ensures
            id@ == self.snapshot()[index as int].id,
            self@.contains_key(id@),
    {
        proof {
            use_type_invariant(self);
            lemma_distinct_enumerates(views(self.entries@));
        }
        self.entries[index].id.clone()
    }
}

/// Replacing the entry that holds an id by another with the same id changes
/// the message of that id and nothing else.
proof fn lemma_replace(entries: Seq<FortuneView>, at: int, entry: FortuneView)
    requires
        distinct_ids(entries),
        0 <= at < entries.len(),
        entries[at].id == entry.id,
    ensures
        distinct_ids(entries.update(at, entry)),
        overlaid(Map::empty(), entries.update(at, entry)) == overlaid(
            Map::empty(),
            entries,
        ).insert(entry.id, entry.message),
{
    let after = entries.update(at, entry);
    assert forall|i: int, j: int| 0 <= i < j < after.len() implies after[i].id != after[j].id by {
        assert(entries[i].id != entries[j].id);
    }
    lemma_distinct_enumerates(entries);
    lemma_distinct_enumerates(after);
    let old_map = overlaid(Map::empty(), entries);
    let new_map = overlaid(Map::empty(), after);
    assert forall|id: Seq<char>| new_map.contains_key(id) <==> old_map.insert(
        entry.id,
        entry.message,
    ).contains_key(id) by {
        if new_map.contains_key(id) {
            let i = choose|i: int| 0 <= i < after.len() && #[trigger] after[i].id == id;
            assert(entries[i].id == id);
        }
        if old_map.contains_key(id) {
            let i = choose|i: int| 0 <= i < entries.len() && #[trigger] entries[i].id == id;
            assert(after[i].id == id);
        }
        if id == entry.id {
            assert(after[at].id == id);
        }
    }
    assert forall|id: Seq<char>| new_map.contains_key(id) implies new_map[id] == old_map.insert(
        entry.id,
        entry.message,
    )[id] by {
        let i = choose|i: int| 0 <= i < after.len() && #[trigger] after[i].id == id;
        assert(new_map[after[i].id] == after[i].message);
        assert(old_map[entries[i].id] == entries[i].message);
    }
    assert(new_map =~= old_map.insert(entry.id, entry.message));
}

} // verus!
