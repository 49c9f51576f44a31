use crate::handle::Handle;
use crate::keyed::{lemma_keyed_lookup, lemma_keyed_place};
use crate::scene::{entity_ids, entity_views, Scene};
use crate::scene_manager::{scene_ids, scene_views, SceneManager};
use crate::text::{
    chars_less, lemma_lex_irreflexive, lemma_lex_total, lemma_lex_transitive, lex_less, lowercase,
    lowercase_chars,
};
use vstd::prelude::*;
use vstd::string::*;

verus! {

/// One line of a listing: a scene or an entity by its handle and its name.
#[derive(Debug, PartialEq, Eq)]
pub struct ListEntry {
    pub id: Handle,
    pub name: String,
}

/// What a `ListEntry` stands for.
pub struct ListEntryView {
    pub id: Handle,
    pub name: Seq<char>,
}

impl View for ListEntry {
    type V = ListEntryView;

    open spec fn view(&self) -> ListEntryView {
        ListEntryView { id: self.id, name: self.name@ }
    }
}

impl ListEntryView {
    /// The order of a listing: by name, letter case set aside, and among
    /// equal names by handle. No two lines with different handles are equal
    /// in it, so the storage order never shows.
    pub open spec fn before(self, other: ListEntryView) -> bool {
        lex_less(lowercase(self.name), lowercase(other.name)) || (lowercase(self.name)
            == lowercase(other.name) && self.id.raw < other.id.raw)
    }
}

/// What a listing stands for, line by line.
pub open spec fn entry_views(list: Seq<ListEntry>) -> Seq<ListEntryView> {
    list.map_values(|e: ListEntry| e@)
}

/// The handles of a listing, line by line.
pub open spec fn entry_ids(list: Seq<ListEntryView>) -> Seq<Handle> {
    list.map_values(|e: ListEntryView| e.id)
}

/// Each line of the listing stands before every later line.
pub open spec fn is_sorted(list: Seq<ListEntryView>) -> bool {
    forall|i: int, j: int| 0 <= i < j < list.len() ==> (#[trigger] list[i]).before(#[trigger] list[j])
}

/// The order of a listing is transitive.
pub proof fn lemma_before_transitive(a: ListEntryView, b: ListEntryView, c: ListEntryView)
    requires
        a.before(b),
        b.before(c),
    ensures
        a.before(c),
{
    let (ka, kb, kc) = (lowercase(a.name), lowercase(b.name), lowercase(c.name));
    if lex_less(ka, kb) && lex_less(kb, kc) {
        lemma_lex_transitive(ka, kb, kc);
    }
}

/// Of two lines with different handles, one stands before the other.
pub proof fn lemma_before_total(a: ListEntryView, b: ListEntryView)
    requires
        a.id != b.id,
    ensures
        a.before(b) || b.before(a),
{
    lemma_lex_total(lowercase(a.name), lowercase(b.name));
}

/// Whether the line (`key_a`, `a`) stands before the line (`key_b`, `b`),
/// the keys being the names in lowercase.
fn entry_before(a: &ListEntry, key_a: &Vec<char>, b: &ListEntry, key_b: &Vec<char>) -> (r: bool)
    requires
        key_a@ == lowercase(a.name@),
        key_b@ == lowercase(b.name@),
    ensures
        r == a@.before(b@),
{
    if chars_less(key_a, key_b) {
        true
    } else if chars_less(key_b, key_a) {
        proof {
            lemma_lex_irreflexive(key_a@);
        }
        false
    } else {
        proof {
            lemma_lex_total(key_a@, key_b@);
        }
        a.id.raw < b.id.raw
    }
}

/// The lines of `entries` in the order of a listing.
fn sort_entries(entries: Vec<ListEntry>) -> (r: Vec<ListEntry>)
    requires
        entry_ids(entry_views(entries@)).no_duplicates(),
    ensures
        is_sorted(entry_views(r@)),
        r@.len() == entries@.len(),
        forall|i: int|
            0 <= i < r@.len() ==> entry_views(entries@).contains(#[trigger] entry_views(r@)[i]),
        forall|j: int|
            0 <= j < entries@.len() ==> entry_views(r@).contains(#[trigger] entry_views(entries@)[j]),
{
    let ghost input = entry_views(entries@);
    let mut out: Vec<ListEntry> = Vec::new();
    let mut keys: Vec<Vec<char>> = Vec::new();
    let mut k: usize = 0;
    while k < entries.len()
        invariant
            k <= entries.len(),
            input == entry_views(entries@),
            entry_ids(input).no_duplicates(),
            out@.len() == k,
            keys@.len() == k,
            forall|i: int| 0 <= i < k ==> (#[trigger] keys@[i])@ == lowercase(out@[i].name@),
            is_sorted(entry_views(out@)),
            forall|i: int|
                0 <= i < k ==> exists|j: int|
                    0 <= j < k && input[j] == #[trigger] entry_views(out@)[i],
            forall|j: int| 0 <= j < k ==> entry_views(out@).contains(#[trigger] input[j]),
        decreases entries.len() - k,
    {
        let item = ListEntry { id: entries[k].id, name: entries[k].name.clone() };
        let key = lowercase_chars(item.name.as_str());
        assert(item@ == input[k as int]);
        let ghost before = entry_views(out@);
        let mut p: usize = 0;
        while p < out.len() && !entry_before(&item, &key, &out[p], &keys[p])
            invariant
                p <= out@.len(),
                out@.len() == keys@.len(),
                key@ == lowercase(item.name@),
                before == entry_views(out@),
                forall|i: int|
                    0 <= i < out@.len() ==> (#[trigger] keys@[i])@ == lowercase(out@[i].name@),
                forall|i: int| 0 <= i < p ==> !item@.before(#[trigger] before[i]),
            decreases out@.len() - p,
        {
            p += 1;
        }
        out.insert(p, item);
        keys.insert(p, key);
        proof {
            let after = entry_views(out@);
            let x = input[k as int];
            assert(after =~= before.insert(p as int, x));
            assert forall|i: int| 0 <= i < before.len() implies (#[trigger] before[i]).id
                != x.id by {
                let j = choose|j: int| 0 <= j < k && input[j] == before[i];
                assert(entry_ids(input)[j] == before[i].id);
                assert(entry_ids(input)[k as int] == x.id);
            }
            assert forall|i: int, j: int| 0 <= i < j < after.len() implies (#[trigger] after[i]).before(
                #[trigger] after[j],
            ) by {
                let i0 = if i < p { i } else { i - 1 };
                let j0 = if j < p { j } else { j - 1 };
                if i == p as int {
                    assert(after[j] == before[j0]);
                    if j0 > p as int {
                        assert(before[p as int].before(before[j0]));
                        lemma_before_transitive(x, before[p as int], before[j0]);
                    }
                } else if j == p as int {
                    assert(after[i] == before[i0]);
                    lemma_before_total(x, before[i0]);
                } else {
                    assert(after[i] == before[i0] && after[j] == before[j0]);
                    assert(before[i0].before(before[j0]));
                }
            }
            assert forall|i: int| 0 <= i < k + 1 implies exists|j: int|
                0 <= j < k + 1 && input[j] == #[trigger] after[i] by {
                if i == p as int {
                    assert(input[k as int] == after[i]);
                } else {
                    let i0 = if i < p { i } else { i - 1 };
                    assert(after[i] == before[i0]);
                    let j = choose|j: int| 0 <= j < k && input[j] == before[i0];
                    assert(input[j] == after[i]);
                }
            }
            assert forall|j: int| 0 <= j < k + 1 implies after.contains(#[trigger] input[j]) by {
                if j == k as int {
                    assert(after[p as int] == input[j]);
                } else {
                    let i0 = before.index_of(input[j]);
                    assert(before[i0] == input[j]);
                    let i = if i0 < p { i0 } else { i0 + 1 };
                    assert(after[i] == input[j]);
                }
            }
        }
        k += 1;
    }
    proof {
        let after = entry_views(out@);
        assert forall|i: int| 0 <= i < out@.len() implies input.contains(#[trigger] after[i]) by {
            let j = choose|j: int| 0 <= j < k && input[j] == after[i];
            assert(input[j] == after[i]);
        }
    }
    out
}

impl Scene {
    /// The entities of the scene, one line each, in the order of a listing.
    pub fn list_entities(&self) -> (r: Vec<ListEntry>)
        requires
            self.wf(),
        ensures
            is_sorted(entry_views(r@)),
            r@.len() == self@.entities.dom().len(),
            forall|i: int|
                0 <= i < r@.len() ==> self@.entities.contains_key((#[trigger] r@[i]).id)
                    && r@[i].name@ == self@.entities[r@[i].id].name,
            forall|h: Handle|
                self@.entities.contains_key(h) ==> #[trigger] entry_ids(entry_views(r@)).contains(
                    h,
                ),
    {
        let list = self.entities();
        let ghost ids = entity_ids(list@);
        let ghost views = entity_views(list@);
        let mut entries: Vec<ListEntry> = Vec::new();
        let mut i: usize = 0;
        proof {
            crate::keyed::lemma_keyed_len(ids, views);
        }
        while i < list.len()
            invariant
                i <= list.len(),
                entries@.len() == i,
                forall|j: int|
                    0 <= j < i ==> (#[trigger] entries@[j])@ == (ListEntryView {
                        id: list@[j]@.id,
                        name: list@[j]@.name,
                    }),
            decreases list.len() - i,
        {
            entries.push(ListEntry { id: list[i].id(), name: list[i].name().clone() });
            i += 1;
        }
        let ghost input = entry_views(entries@);
        assert(entry_ids(input) =~= ids);
        let r = sort_entries(entries);
        proof {
            let out = entry_views(r@);
            assert forall|i: int| 0 <= i < r@.len() implies self@.entities.contains_key(
                (#[trigger] r@[i]).id,
            ) && r@[i].name@ == self@.entities[r@[i].id].name by {
                assert(input.contains(out[i]));
                let j = input.index_of(out[i]);
                assert(input[j] == out[i]);
                lemma_keyed_lookup(ids, views, j);
            }
            assert forall|h: Handle| self@.entities.contains_key(h) implies #[trigger] entry_ids(
                out,
            ).contains(h) by {
                lemma_keyed_place(ids, views, h);
                let j = ids.index_of(h);
                assert(out.contains(input[j]));
                let i = out.index_of(input[j]);
                assert(entry_ids(out)[i] == h);
            }
        }
        r
    }
}

impl SceneManager {
    /// The scenes of the manager, one line each, in the order of a listing.
    pub fn list_scene(&self) -> (r: Vec<ListEntry>)
        requires
            self.wf(),
        ensures
            is_sorted(entry_views(r@)),
            r@.len() == self@.scenes.dom().len(),
            forall|i: int|
                0 <= i < r@.len() ==> self@.scenes.contains_key((#[trigger] r@[i]).id)
                    && r@[i].name@ == self@.scenes[r@[i].id].name,
            forall|h: Handle|
                self@.scenes.contains_key(h) ==> #[trigger] entry_ids(entry_views(r@)).contains(h),
    {
        let list = self.scenes();
        let ghost ids = scene_ids(list@);
        let ghost views = scene_views(list@);
        let mut entries: Vec<ListEntry> = Vec::new();
        let mut i: usize = 0;
        proof {
            crate::keyed::lemma_keyed_len(ids, views);
        }
        while i < list.len()
            invariant
                i <= list.len(),
                entries@.len() == i,
                forall|j: int|
                    0 <= j < i ==> (#[trigger] entries@[j])@ == (ListEntryView {
                        id: list@[j]@.id,
                        name: list@[j]@.name,
                    }),
            decreases list.len() - i,
        {
            entries.push(ListEntry { id: list[i].id(), name: list[i].name().clone() });
            i += 1;
        }
        let ghost input = entry_views(entries@);
        assert(entry_ids(input) =~= ids);
        let r = sort_entries(entries);
        proof {
            let out = entry_views(r@);
            assert forall|i: int| 0 <= i < r@.len() implies self@.scenes.contains_key(
                (#[trigger] r@[i]).id,
            ) && r@[i].name@ == self@.scenes[r@[i].id].name by {
                assert(input.contains(out[i]));
                let j = input.index_of(out[i]);
                assert(input[j] == out[i]);
                lemma_keyed_lookup(ids, views, j);
            }
            assert forall|h: Handle| self@.scenes.contains_key(h) implies #[trigger] entry_ids(
                out,
            ).contains(h) by {
                lemma_keyed_place(ids, views, h);
                let j = ids.index_of(h);
                assert(out.contains(input[j]));
                let i = out.index_of(input[j]);
                assert(entry_ids(out)[i] == h);
            }
        }
        r
    }
}

} // verus!
