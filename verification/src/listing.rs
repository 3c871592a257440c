//! The ordered entries of one directory snapshot.

use vstd::multiset::Multiset;
use vstd::prelude::*;
use vstd::relations::sorted_by;
use vstd::seq_lib::{lemma_sorted_unique, to_multiset_build, to_multiset_insert};

use crate::entry::{
    entry_le, entry_order, lemma_entry_le_connected, lemma_entry_le_transitive,
    lemma_entry_order_total, DirectoryEntry, EntryView,
};

verus! {

/// The models of a sequence of entries, position by position.
pub open spec fn entry_views(entries: Seq<DirectoryEntry>) -> Seq<EntryView> {
    entries.map_values(|e: DirectoryEntry| e@)
}

/// The entries are in listing order: directories first, then by name.
pub open spec fn in_listing_order(entries: Seq<EntryView>) -> bool {
    sorted_by(entries, entry_order())
}

/// The entries of `raw` put in listing order.
pub open spec fn arrange(raw: Seq<EntryView>) -> Seq<EntryView> {
    raw.sort_by(entry_order())
}

/// The filter that keeps an entry iff it is not hidden or hidden entries
/// are shown.
pub open spec fn shown(show_hidden: bool) -> spec_fn(EntryView) -> bool {
    |e: EntryView| !e.is_hidden || show_hidden
}

/// The entries of `entries` that pass the hidden-items filter, in order.
pub open spec fn visible(entries: Seq<EntryView>, show_hidden: bool) -> Seq<EntryView> {
    entries.filter(shown(show_hidden))
}

/// `arrange` yields the one sequence in listing order that holds exactly
/// the entries of its argument, each as often as there.
pub proof fn lemma_arrange(raw: Seq<EntryView>)
    ensures
        in_listing_order(arrange(raw)),
        arrange(raw).to_multiset() == raw.to_multiset(),
        arrange(raw).len() == raw.len(),
{
    lemma_entry_order_total();
    raw.lemma_sort_by_ensures(entry_order());
    vstd::seq_lib::to_multiset_len(raw);
    vstd::seq_lib::to_multiset_len(arrange(raw));
}

/// A sequence in listing order with the entries of `raw` is `arrange(raw)`.
pub proof fn lemma_arrange_unique(raw: Seq<EntryView>, ordered: Seq<EntryView>)
    requires
        in_listing_order(ordered),
        ordered.to_multiset() == raw.to_multiset(),
    ensures
        ordered == arrange(raw),
{
    lemma_arrange(raw);
    lemma_entry_order_total();
    lemma_sorted_unique(ordered, arrange(raw), entry_order());
}

/// A sequence without entries holds no entry at all.
proof fn lemma_empty_has_no_entries(entries: Seq<EntryView>)
    requires
        entries.len() == 0,
    ensures
        entries.to_multiset() == Multiset::<EntryView>::empty(),
{
    vstd::seq_lib::to_multiset_len(entries);
}

/// Filtering keeps the listing order.
pub proof fn lemma_filter_keeps_order(entries: Seq<EntryView>, keep: spec_fn(EntryView) -> bool)
    requires
        in_listing_order(entries),
    ensures
        in_listing_order(entries.filter(keep)),
    decreases entries.len(),
{
    reveal(Seq::filter);
    if entries.len() > 0 {
        let front = entries.drop_last();
        lemma_filter_keeps_order(front, keep);
        let kept = front.filter(keep);
        if keep(entries.last()) {
            let out = kept.push(entries.last());
            assert forall|i: int, j: int| 0 <= i < j < out.len() implies #[trigger] entry_order()(
                out[i],
                out[j],
            ) by {
                if j == kept.len() {
                    front.lemma_filter_contains_rev(keep, kept[i]);
                }
            }
        }
    }
}

/// Filtering a sequence keeps of each entry as many as the sequence holds,
/// or none.
pub proof fn lemma_filter_to_multiset(
    entries: Seq<EntryView>,
    keep: spec_fn(EntryView) -> bool,
)
    ensures
        entries.filter(keep).to_multiset() == entries.to_multiset().filter(keep),
    decreases entries.len(),
{
    broadcast use vstd::multiset::group_multiset_axioms;

    reveal(Seq::filter);
    if entries.len() == 0 {
        lemma_empty_has_no_entries(entries);
    } else {
        let front = entries.drop_last();
        let last = entries.last();
        lemma_filter_to_multiset(front, keep);
        assert(entries =~= front.push(last));
        to_multiset_build(front, last);
        if keep(last) {
            to_multiset_build(front.filter(keep), last);
        }
    }
}

/// Filtering and putting in order can be done in either order.
pub proof fn lemma_filter_commutes_with_arrange(
    raw: Seq<EntryView>,
    keep: spec_fn(EntryView) -> bool,
)
    ensures
        arrange(raw).filter(keep) == arrange(raw.filter(keep)),
{
    lemma_arrange(raw);
    lemma_filter_keeps_order(arrange(raw), keep);
    lemma_filter_to_multiset(arrange(raw), keep);
    lemma_filter_to_multiset(raw, keep);
    lemma_arrange_unique(raw.filter(keep), arrange(raw).filter(keep));
}

/// With hidden entries shown the filter keeps every entry.
pub proof fn lemma_show_all(entries: Seq<EntryView>)
    ensures
        visible(entries, true) == entries,
    decreases entries.len(),
{
    reveal(Seq::filter);
    if entries.len() > 0 {
        lemma_show_all(entries.drop_last());
    }
}

/// Hiding hidden entries leaves the sequence as it is exactly when it
/// keeps its length, and exactly when no entry is hidden.
pub proof fn lemma_hide_changes(entries: Seq<EntryView>)
    ensures
        visible(entries, false).len() <= entries.len(),
        visible(entries, false) == entries <==> visible(entries, false).len() == entries.len(),
        visible(entries, false) == entries <==> forall|i: int|
            0 <= i < entries.len() ==> !(#[trigger] entries[i]).is_hidden,
    decreases entries.len(),
{
    reveal(Seq::filter);
    if entries.len() > 0 {
        let front = entries.drop_last();
        lemma_hide_changes(front);
        assert(front.push(entries.last()) =~= entries);
    }
}

/// The ordered sequence of entries of one directory snapshot: directories
/// first, then by name.
#[derive(Debug)]
pub struct Listing {
    entries: Vec<DirectoryEntry>,
}

impl View for Listing {
    type V = Seq<EntryView>;

    closed spec fn view(&self) -> Seq<EntryView> {
        entry_views(self.entries@)
    }
}

/// The position at which `e` can be put into `entries` without breaking
/// the listing order.
fn insertion_point(entries: &Vec<DirectoryEntry>, e: &DirectoryEntry) -> (at: usize)
    requires
        in_listing_order(entry_views(entries@)),
    ensures
        at <= entries.len(),
        forall|i: int| 0 <= i < at ==> entry_le(#[trigger] entry_views(entries@)[i], e@),
        forall|i: int|
            at <= i < entries.len() ==> entry_le(e@, #[trigger] entry_views(entries@)[i]),
{
    let ghost views = entry_views(entries@);
    let mut low: usize = 0;
    let mut high: usize = entries.len();
    while low < high
        invariant
            low <= high <= entries.len(),
            views == entry_views(entries@),
            in_listing_order(views),
            forall|i: int| 0 <= i < low ==> entry_le(#[trigger] views[i], e@),
            forall|i: int| high <= i < views.len() ==> entry_le(e@, #[trigger] views[i]),
        decreases high - low,
    {
        let middle: usize = low + (high - low) / 2;
        if entries[middle].precedes(e) {
            proof {
                assert forall|i: int| 0 <= i < middle + 1 implies entry_le(
                    #[trigger] views[i],
                    e@,
                ) by {
                    if i < middle {
                        assert(entry_order()(views[i], views[middle as int]));
                        lemma_entry_le_transitive(views[i], views[middle as int], e@);
                    }
                }
            }
            low = middle + 1;
        } else {
            proof {
                lemma_entry_le_connected(views[middle as int], e@);
                assert forall|i: int| middle <= i < views.len() implies entry_le(
                    e@,
                    #[trigger] views[i],
                ) by {
                    if middle < i {
                        assert(entry_order()(views[middle as int], views[i]));
                        lemma_entry_le_transitive(e@, views[middle as int], views[i]);
                    }
                }
            }
            high = middle;
        }
    }
    low
}

impl Listing {
    /// Every listing is in listing order.
    #[verifier::type_invariant]
    pub open spec fn ordered(&self) -> bool {
        in_listing_order(self@)
    }

    /// The listing of an empty directory.
    pub fn new() -> (listing: Listing)
        ensures
            listing@ == Seq::<EntryView>::empty(),
    {
        let entries: Vec<DirectoryEntry> = Vec::new();
        Listing { entries }
    }

    /// The listing of the given entries, whatever order they come in.
    pub fn from_entries(raw: Vec<DirectoryEntry>) -> (listing: Listing)
        ensures
            listing@ == arrange(entry_views(raw@)),
            in_listing_order(listing@),
    {
        let ghost all = raw@;
        let ghost given = entry_views(raw@);
        let mut entries: Vec<DirectoryEntry> = Vec::new();
        proof {
            lemma_empty_has_no_entries(entry_views(entries@));
            lemma_empty_has_no_entries(given.take(0));
        }
        for e in scan: raw
            invariant
                scan.seq() == all,
                given == entry_views(all),
                in_listing_order(entry_views(entries@)),
                entry_views(entries@).to_multiset() == given.take(
                    scan.index() as int,
                ).to_multiset(),
        {
            let ghost done = scan.index() as int;
            let ghost before = entry_views(entries@);
            let at: usize = insertion_point(&entries, &e);
            entries.insert(at, e);
            proof {
                assert(given.take(done + 1) =~= given.take(done).push(e@));
                to_multiset_build(given.take(done), e@);
                assert(entry_views(entries@) =~= before.insert(at as int, e@));
                to_multiset_insert(before, at as int, e@);
            }
        }
        proof {
            assert(given.take(given.len() as int) =~= given);
            lemma_arrange_unique(given, entry_views(entries@));
        }
        Listing { entries }
    }

    /// The number of entries.
    pub fn len(&self) -> (n: usize)
        ensures
            n == self@.len(),
    {
        self.entries.len()
    }

    /// The entry at `index`, `None` where the listing is shorter.
    pub fn get(&self, index: usize) -> (entry: Option<&DirectoryEntry>)
        ensures
            entry is Some <==> index < self@.len(),
            entry matches Some(e) ==> e@ == self@[index as int],
    {
        if index < self.entries.len() {
            Some(&self.entries[index])
        } else {
            None
        }
    }

    /// The entries that pass the hidden-items filter, in the same order:
    /// an entry is kept iff it is not hidden or hidden entries are shown.
    pub fn visible(&self, show_hidden: bool) -> (listing: Listing)
        ensures
            listing@ == visible(self@, show_hidden),
            in_listing_order(listing@),
    {
        proof {
            use_type_invariant(self);
        }
        let mut kept: Vec<DirectoryEntry> = Vec::new();
        let mut i: usize = 0;
        while i < self.entries.len()
            invariant
                i <= self.entries.len(),
                entry_views(kept@) == visible(self@.take(i as int), show_hidden),
            decreases self.entries.len() - i,
        {
            let ghost seen = self@.take(i as int);
            let ghost before = entry_views(kept@);
            proof {
                reveal(Seq::filter);
                assert(self@.take(i as int + 1).drop_last() =~= seen);
            }
            if show_hidden || !self.entries[i].is_hidden() {
                kept.push(self.entries[i].clone());
            }
            i += 1;
        }
        proof {
            assert(self@.take(i as int) =~= self@);
            lemma_filter_keeps_order(self@, shown(show_hidden));
        }
        Listing { entries: kept }
    }
}

} // verus!
