//! What a bucket directory holds, as far as the mirror cares: the names of
//! its entries and which of them are directories.
//!
//! Completeness of an hour bucket is a property of such a listing. It is
//! never stored: the marker's presence and the count of data files decide it
//! each time the bucket is visited.

use crate::path::{is_data_file_name, is_data_name, join, joined, marker_file_name, marker_name};
use crate::product::Product;
use vstd::prelude::*;
use vstd::string::*;

verus! {

/// One entry of a directory listing.
#[derive(Clone, Debug)]
pub struct DirEntry {
    /// The entry's file name, without its directory.
    pub name: String,
    /// Whether the entry is itself a directory.
    pub is_dir: bool,
}

/// The mathematical content of a [`DirEntry`].
pub struct EntryView {
    /// The entry's file name.
    pub name: Seq<char>,
    /// Whether the entry is a directory.
    pub is_dir: bool,
}

impl View for DirEntry {
    type V = EntryView;

    open spec fn view(&self) -> EntryView {
        EntryView { name: self.name@, is_dir: self.is_dir }
    }
}

impl DeepView for DirEntry {
    type V = EntryView;

    open spec fn deep_view(&self) -> EntryView {
        self@
    }
}

/// Whether an entry is a data file: not a directory, and named with the
/// data-file extension.
pub open spec fn is_data_entry(entry: EntryView) -> bool {
    !entry.is_dir && is_data_name(entry.name)
}

/// [`is_data_entry`] as a predicate value.
pub open spec fn data_entry_pred() -> spec_fn(EntryView) -> bool {
    |entry: EntryView| is_data_entry(entry)
}

/// The data files of a listing, in listing order.
pub open spec fn data_entries(listing: Seq<EntryView>) -> Seq<EntryView> {
    listing.filter(data_entry_pred())
}

/// The number of data files in a listing.
pub open spec fn data_count(listing: Seq<EntryView>) -> nat {
    data_entries(listing).len()
}

/// The paths of the data files of the directory `dir`, in listing order.
pub open spec fn data_paths(dir: Seq<char>, listing: Seq<EntryView>) -> Seq<Seq<char>> {
    data_entries(listing).map_values(|entry: EntryView| joined(dir, entry.name))
}

/// Whether some entry of the listing is called `name`.
pub open spec fn has_name(listing: Seq<EntryView>, name: Seq<char>) -> bool {
    exists|i: int| 0 <= i < listing.len() && #[trigger] listing[i].name == name
}

/// Whether the listing holds the completion marker.
pub open spec fn has_marker(listing: Seq<EntryView>) -> bool {
    has_name(listing, marker_name())
}

/// Whether a bucket with this listing is complete for `product`: it is
/// marked, or it holds at least as many data files as the product delivers
/// in an hour.
pub open spec fn is_complete(listing: Seq<EntryView>, product: Product) -> bool {
    has_marker(listing) || data_count(listing) >= product.files_per_hour()
}

/// The listing of a directory after a file called `name` was saved into it:
/// an entry of that name is overwritten in place, a new one is appended.
pub open spec fn after_save(listing: Seq<EntryView>, name: Seq<char>) -> Seq<EntryView> {
    if has_name(listing, name) {
        listing
    } else {
        listing.push(EntryView { name, is_dir: false })
    }
}

/// Whether no two entries of the listing share a name, as in the listing
/// of any real directory.
pub open spec fn names_are_distinct(listing: Seq<EntryView>) -> bool {
    forall|i: int, j: int|
        0 <= i < j < listing.len() ==> (#[trigger] listing[i]).name != (#[trigger] listing[j]).name
}

/// Whether every entry of the listing has a relative name, one that does
/// not start with a separator.
pub open spec fn names_are_relative(listing: Seq<EntryView>) -> bool {
    forall|i: int|
        0 <= i < listing.len() ==> (#[trigger] listing[i]).name.len() == 0 || listing[i].name[0]
            != '/'
}

/// Pushing two different relative names onto one directory gives two
/// different paths.
pub proof fn lemma_joined_is_injective(dir: Seq<char>, a: Seq<char>, b: Seq<char>)
    requires
        a.len() == 0 || a[0] != '/',
        b.len() == 0 || b[0] != '/',
        joined(dir, a) == joined(dir, b),
    ensures
        a == b,
{
    let prefix = if dir.len() == 0 || dir.last() == '/' {
        dir
    } else {
        dir + seq!['/']
    };
    assert(joined(dir, a) =~= prefix + a);
    assert(joined(dir, b) =~= prefix + b);
    assert((prefix + a).subrange(prefix.len() as int, (prefix + a).len() as int) =~= a);
    assert((prefix + b).subrange(prefix.len() as int, (prefix + b).len() as int) =~= b);
}

/// Every data entry of a listing is an entry of the listing, and distinct
/// names stay distinct among the data entries.
pub proof fn lemma_data_entries_are_entries(listing: Seq<EntryView>)
    ensures
        forall|i: int|
            0 <= i < data_entries(listing).len() ==> listing.contains(
                #[trigger] data_entries(listing)[i],
            ),
        names_are_distinct(listing) ==> names_are_distinct(data_entries(listing)),
    decreases listing.len(),
{
    reveal(Seq::filter);
    if listing.len() > 0 {
        let shorter = listing.drop_last();
        let last = listing.last();
        lemma_data_entries_are_entries(shorter);
        assert(listing =~= shorter.push(last));
        assert forall|i: int| 0 <= i < data_entries(listing).len() implies listing.contains(
            #[trigger] data_entries(listing)[i],
        ) by {
            if i < data_entries(shorter).len() {
                let entry = data_entries(shorter)[i];
                assert(shorter.contains(entry));
                let j = choose|j: int| 0 <= j < shorter.len() && shorter[j] == entry;
                assert(listing[j] == entry);
            } else {
                assert(listing[listing.len() - 1] == last);
            }
        }
        if names_are_distinct(listing) {
            assert(names_are_distinct(shorter)) by {
                assert forall|i: int, j: int| 0 <= i < j < shorter.len() implies (
                #[trigger] shorter[i]).name != (#[trigger] shorter[j]).name by {
                    assert(listing[i].name != listing[j].name);
                }
            }
            assert forall|i: int, j: int|
                0 <= i < j < data_entries(listing).len() implies (#[trigger] data_entries(
                listing,
            )[i]).name != (#[trigger] data_entries(listing)[j]).name by {
                if j == data_entries(shorter).len() {
                    let entry = data_entries(shorter)[i];
                    assert(shorter.contains(entry));
                    let at = choose|at: int| 0 <= at < shorter.len() && shorter[at] == entry;
                    assert(listing[at].name != listing[listing.len() - 1].name);
                }
            }
        }
    }
}

/// The result holds no path twice: the data files of a directory whose
/// entries have distinct, relative names have distinct paths.
pub proof fn lemma_data_paths_are_distinct(dir: Seq<char>, listing: Seq<EntryView>)
    requires
        names_are_distinct(listing),
        names_are_relative(listing),
    ensures
        data_paths(dir, listing).no_duplicates(),
{
    lemma_data_entries_are_entries(listing);
    let entries = data_entries(listing);
    let paths = data_paths(dir, listing);
    assert forall|i: int, j: int| 0 <= i < paths.len() && 0 <= j < paths.len() && i != j implies paths[i]
        != paths[j] by {
        assert(listing.contains(entries[i]));
        assert(listing.contains(entries[j]));
        let a = choose|a: int| 0 <= a < listing.len() && listing[a] == entries[i];
        let b = choose|b: int| 0 <= b < listing.len() && listing[b] == entries[j];
        assert(listing[a].name.len() == 0 || listing[a].name[0] != '/');
        assert(listing[b].name.len() == 0 || listing[b].name[0] != '/');
        if i < j {
            assert(entries[i].name != entries[j].name);
        } else {
            assert(entries[j].name != entries[i].name);
        }
        if paths[i] == paths[j] {
            lemma_joined_is_injective(dir, entries[i].name, entries[j].name);
        }
    }
}

/// Whether some entry of the listing is called `name`.
pub fn contains_name(listing: &Vec<DirEntry>, name: &str) -> (found: bool)
    ensures
        found == has_name(listing.deep_view(), name@),
{
    let wanted: String = String::from_str(name);
    let mut i: usize = 0;
    while i < listing.len()
        invariant
            i <= listing.len(),
            wanted@ == name@,
            forall|j: int| 0 <= j < i ==> #[trigger] listing.deep_view()[j].name != name@,
        decreases listing.len() - i,
    {
        if listing[i].name == wanted {
            assert(listing.deep_view()[i as int].name == name@);
            return true;
        }
        i += 1;
    }
    false
}

/// Whether the listing holds the completion marker.
pub fn contains_marker(listing: &Vec<DirEntry>) -> (found: bool)
    ensures
        found == has_marker(listing.deep_view()),
{
    contains_name(listing, marker_file_name())
}

/// The number of data files in the listing.
pub fn count_data_files(listing: &Vec<DirEntry>) -> (count: usize)
    ensures
        count == data_count(listing.deep_view()),
{
    let ghost all = listing.deep_view();
    let mut count: usize = 0;
    let mut i: usize = 0;
    proof {
        reveal_with_fuel(Seq::filter, 1);
    }
    while i < listing.len()
        invariant
            i <= listing.len(),
            all == listing.deep_view(),
            count == data_count(all.take(i as int)),
            count <= i,
        decreases listing.len() - i,
    {
        proof {
            assert(all.take(i + 1) =~= all.take(i as int).push(all[i as int]));
            all.take(i as int).lemma_filter_push(all[i as int], data_entry_pred());
        }
        if !listing[i].is_dir && is_data_file_name(listing[i].name.as_str()) {
            count += 1;
        }
        i += 1;
    }
    assert(all.take(i as int) =~= all);
    count
}

/// The paths of the data files of the directory `dir`, in listing order.
pub fn collect_data_paths(dir: &str, listing: &Vec<DirEntry>) -> (paths: Vec<String>)
    ensures
        paths.deep_view() == data_paths(dir@, listing.deep_view()),
{
    let ghost all = listing.deep_view();
    let mut paths: Vec<String> = Vec::new();
    let mut i: usize = 0;
    proof {
        reveal_with_fuel(Seq::filter, 1);
    }
    while i < listing.len()
        invariant
            i <= listing.len(),
            all == listing.deep_view(),
            paths.deep_view() == data_paths(dir@, all.take(i as int)),
        decreases listing.len() - i,
    {
        let ghost before = paths.deep_view();
        proof {
            assert(all.take(i + 1) =~= all.take(i as int).push(all[i as int]));
            all.take(i as int).lemma_filter_push(all[i as int], data_entry_pred());
        }
        if !listing[i].is_dir && is_data_file_name(listing[i].name.as_str()) {
            let path: String = join(dir, listing[i].name.as_str());
            paths.push(path);
            assert(data_paths(dir@, all.take(i + 1)) =~= before.push(
                joined(dir@, all[i as int].name),
            ));
        }
        i += 1;
    }
    assert(all.take(i as int) =~= all);
    paths
}

} // verus!
