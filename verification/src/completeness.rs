//! What holds of a bucket's completeness across visits.
//!
//! The library asks for only two kinds of change to the local tree: the
//! creation of a missing bucket directory and the saving of a file. The
//! lemmas below follow a bucket's listing through those changes and show
//! that completeness, once reached, is never lost, that a complete bucket
//! never reaches the download workers again, and that marking obeys the
//! staleness threshold.

use crate::accumulate::{contribution, KindView};
use crate::archive::bucket_path;
use crate::bucket::{marker_request, routing_of, RoutingView};
use crate::download::DownloadView;
use crate::jobs::JobView;
use crate::listing::{
    after_save, data_count, data_entries, data_entry_pred, has_marker, has_name, is_complete,
    EntryView,
};
use crate::path::{is_data_name, marker_name};
use crate::product::Product;
use crate::satellite::Satellite;
use crate::timestamp::{civil_text, is_stale_at};
use vstd::prelude::*;

verus! {

/// The listing of a bucket directory after the producer's requests for it
/// were carried out: a missing directory was created empty, and a requested
/// marker was saved.
pub open spec fn after_routing(listing: Option<Seq<EntryView>>, routing: RoutingView) -> Seq<
    EntryView,
> {
    match listing {
        None => Seq::empty(),
        Some(entries) => if routing.marker is Some {
            after_save(entries, marker_name())
        } else {
            entries
        },
    }
}

/// Saving a file never removes an entry: every name in the listing is
/// still there afterwards, and so is the saved name.
pub proof fn lemma_save_keeps_names(listing: Seq<EntryView>, saved: Seq<char>, name: Seq<char>)
    ensures
        has_name(listing, name) ==> has_name(after_save(listing, saved), name),
        has_name(after_save(listing, saved), saved),
{
    let after = after_save(listing, saved);
    if has_name(listing, name) {
        let i = choose|i: int| 0 <= i < listing.len() && #[trigger] listing[i].name == name;
        assert(after[i].name == name);
    }
    if !has_name(listing, saved) {
        assert(after[listing.len() as int].name == saved);
    }
}

/// Saving is idempotent on the listing: saving a file of the same name a
/// second time changes nothing, so a bucket may be marked more than once.
pub proof fn lemma_save_is_idempotent(listing: Seq<EntryView>, saved: Seq<char>)
    ensures
        after_save(after_save(listing, saved), saved) == after_save(listing, saved),
{
    lemma_save_keeps_names(listing, saved, saved);
}

/// Saving a file never lowers the number of data files, and saving the
/// marker leaves the data files exactly as they were.
pub proof fn lemma_save_keeps_data(listing: Seq<EntryView>, saved: Seq<char>)
    ensures
        data_count(after_save(listing, saved)) >= data_count(listing),
        !is_data_name(saved) ==> data_entries(after_save(listing, saved)) == data_entries(listing),
{
    if !has_name(listing, saved) {
        listing.lemma_filter_push(EntryView { name: saved, is_dir: false }, data_entry_pred());
    }
}

/// Completeness is monotonic under saves: a complete bucket stays complete
/// whatever file is saved into it, and a marked bucket stays marked.
pub proof fn lemma_save_keeps_complete(listing: Seq<EntryView>, product: Product, saved: Seq<char>)
    ensures
        has_marker(listing) ==> has_marker(after_save(listing, saved)),
        is_complete(listing, product) ==> is_complete(after_save(listing, saved), product),
{
    lemma_save_keeps_names(listing, saved, marker_name());
    lemma_save_keeps_data(listing, saved);
}

/// The marker is authoritative: a marked bucket is complete whatever else
/// its directory holds (even no data file at all), it is handed to the
/// accumulator and never to the download workers, and nothing is created
/// or written for it.
pub proof fn lemma_marker_is_authoritative(
    dir: Seq<char>,
    hour: int,
    listing: Seq<EntryView>,
    product: Product,
    now: int,
)
    requires
        has_marker(listing),
    ensures
        is_complete(listing, product),
        routing_of(dir, hour, Some(listing), product, now) == (RoutingView {
            create_dir: false,
            marker: None,
            forward: JobView::PathReady { path: dir },
        }),
        after_routing(Some(listing), routing_of(dir, hour, Some(listing), product, now))
            == listing,
{
}

/// Marking obeys the staleness threshold, first half: while the hour is no
/// older than the threshold, neither the producer nor a download worker
/// requests a marker, whatever the directory holds and however many data
/// files there are.
pub proof fn lemma_recent_bucket_is_never_marked(
    dir: Seq<char>,
    hour: int,
    listing: Option<Seq<EntryView>>,
    product: Product,
    now: int,
    download: DownloadView,
)
    requires
        !is_stale_at(hour, now),
        download.hour == hour,
    ensures
        routing_of(dir, hour, listing, product, now).marker is None,
        download.completion(now) is None,
{
}

/// Marking obeys the staleness threshold, second half: once the hour is
/// older than the threshold, the producer marks an unmarked bucket exactly
/// when it holds all the files of its hour, and the bucket is marked and
/// complete from then on.
pub proof fn lemma_stale_bucket_is_marked_when_full(
    dir: Seq<char>,
    hour: int,
    listing: Seq<EntryView>,
    product: Product,
    now: int,
)
    requires
        is_stale_at(hour, now),
        !has_marker(listing),
    ensures
        ({
            let routing = routing_of(dir, hour, Some(listing), product, now);
            &&& routing.marker is Some <==> data_count(listing) >= product.files_per_hour()
            &&& routing.marker is Some ==> {
                &&& routing.marker == Some(marker_request(dir, civil_text(now)))
                &&& has_marker(after_routing(Some(listing), routing))
                &&& is_complete(after_routing(Some(listing), routing), product)
            }
        }),
{
    lemma_save_keeps_names(listing, marker_name(), marker_name());
}

/// Visiting a complete bucket is idempotent. The producer hands it to the
/// accumulator, not to the download workers, so no remote call is made for
/// it; and after the visit's requests are carried out, a second visit, at
/// whatever later reading of the clock, finds it complete again, hands it
/// to the accumulator again, and the accumulator adds the same paths.
pub proof fn lemma_complete_visit_is_idempotent(
    dir: Seq<char>,
    hour: int,
    listing: Seq<EntryView>,
    product: Product,
    now: int,
    later: int,
)
    requires
        is_complete(listing, product),
    ensures
        ({
            let first = routing_of(dir, hour, Some(listing), product, now);
            let revisited = after_routing(Some(listing), first);
            let second = routing_of(dir, hour, Some(revisited), product, later);
            &&& first.forward == JobView::PathReady { path: dir }
            &&& !first.create_dir
            &&& is_complete(revisited, product)
            &&& second.forward == JobView::PathReady { path: dir }
            &&& !second.create_dir
            &&& contribution(dir, KindView::Directory { entries: revisited }) == contribution(
                dir,
                KindView::Directory { entries: listing },
            )
        }),
{
    lemma_marker_is_no_data();
    lemma_save_keeps_complete(listing, product, marker_name());
    lemma_save_keeps_data(listing, marker_name());
}

/// The marker's name does not carry the data-file extension, so the marker
/// is never counted or returned as a data file.
pub proof fn lemma_marker_is_no_data()
    ensures
        !is_data_name(marker_name()),
{
}

/// The listing of the directory `dir` in a local tree, `None` where the
/// tree has no such directory. A tree maps each directory that exists to
/// its listing.
pub open spec fn listing_in(tree: Map<Seq<char>, Seq<EntryView>>, dir: Seq<char>) -> Option<
    Seq<EntryView>,
> {
    if tree.contains_key(dir) {
        Some(tree[dir])
    } else {
        None
    }
}

/// The tree after the directory `dir` was created: an existing directory
/// is left as it is.
pub open spec fn tree_after_create(tree: Map<Seq<char>, Seq<EntryView>>, dir: Seq<char>) -> Map<
    Seq<char>,
    Seq<EntryView>,
> {
    if tree.contains_key(dir) {
        tree
    } else {
        tree.insert(dir, Seq::empty())
    }
}

/// The tree after a file called `name` was saved into the directory `dir`.
/// A save into a directory that does not exist fails and changes nothing.
pub open spec fn tree_after_save(
    tree: Map<Seq<char>, Seq<EntryView>>,
    dir: Seq<char>,
    name: Seq<char>,
) -> Map<Seq<char>, Seq<EntryView>> {
    if tree.contains_key(dir) {
        tree.insert(dir, after_save(tree[dir], name))
    } else {
        tree
    }
}

/// The paths that the bucket directory `dir` adds to a result when the
/// accumulator finds it in `tree`.
pub open spec fn bucket_paths(tree: Map<Seq<char>, Seq<EntryView>>, dir: Seq<char>) -> Seq<
    Seq<char>,
> {
    match listing_in(tree, dir) {
        Some(entries) => contribution(dir, KindView::Directory { entries }),
        None => Seq::empty(),
    }
}

/// Whether the bucket of every one of `hours` exists and is complete in
/// `tree`.
pub open spec fn range_is_downloaded(
    tree: Map<Seq<char>, Seq<EntryView>>,
    root: Seq<char>,
    sat: Satellite,
    prod: Product,
    hours: Seq<int>,
) -> bool {
    forall|k: int|
        0 <= k < hours.len() ==> {
            let dir = #[trigger] bucket_path(root, sat, prod, hours[k]);
            tree.contains_key(dir) && is_complete(tree[dir], prod)
        }
}

/// A retrieval over a downloaded range makes no remote call: whatever the
/// clock reads, the producer hands every bucket of the range to the
/// accumulator and none to the download workers, creates no directory, and
/// the only write it may ask for is the bucket's marker.
pub proof fn lemma_downloaded_range_needs_no_download(
    tree: Map<Seq<char>, Seq<EntryView>>,
    root: Seq<char>,
    sat: Satellite,
    prod: Product,
    hours: Seq<int>,
    k: int,
    now: int,
)
    requires
        range_is_downloaded(tree, root, sat, prod, hours),
        0 <= k < hours.len(),
    ensures
        ({
            let dir = bucket_path(root, sat, prod, hours[k]);
            let routing = routing_of(dir, hours[k], listing_in(tree, dir), prod, now);
            &&& routing.forward == JobView::PathReady { path: dir }
            &&& !routing.create_dir
            &&& routing.marker is Some ==> routing.marker == Some(
                marker_request(dir, civil_text(now)),
            )
        }),
{
    let dir = bucket_path(root, sat, prod, hours[k]);
    assert(tree.contains_key(dir) && is_complete(tree[dir], prod));
}

/// A downloaded range stays downloaded: whatever directory is created and
/// whatever file is saved anywhere in the tree, every bucket of the range
/// is still complete afterwards. A save that is no data file, such as a
/// marker, leaves the paths of every bucket as they were, so that the next
/// retrieval returns the same paths.
pub proof fn lemma_downloaded_range_is_stable(
    tree: Map<Seq<char>, Seq<EntryView>>,
    root: Seq<char>,
    sat: Satellite,
    prod: Product,
    hours: Seq<int>,
    dir: Seq<char>,
    name: Seq<char>,
)
    requires
        range_is_downloaded(tree, root, sat, prod, hours),
    ensures
        range_is_downloaded(tree_after_create(tree, dir), root, sat, prod, hours),
        range_is_downloaded(tree_after_save(tree, dir, name), root, sat, prod, hours),
        forall|k: int|
            0 <= k < hours.len() ==> bucket_paths(
                tree_after_create(tree, dir),
                #[trigger] bucket_path(root, sat, prod, hours[k]),
            ) == bucket_paths(tree, bucket_path(root, sat, prod, hours[k])),
        !is_data_name(name) ==> forall|k: int|
            0 <= k < hours.len() ==> bucket_paths(
                tree_after_save(tree, dir, name),
                #[trigger] bucket_path(root, sat, prod, hours[k]),
            ) == bucket_paths(tree, bucket_path(root, sat, prod, hours[k])),
{
    let saved = tree_after_save(tree, dir, name);
    assert forall|k: int| 0 <= k < hours.len() implies {
        let bucket = #[trigger] bucket_path(root, sat, prod, hours[k]);
        &&& saved.contains_key(bucket)
        &&& is_complete(saved[bucket], prod)
        &&& !is_data_name(name) ==> bucket_paths(saved, bucket) == bucket_paths(tree, bucket)
    } by {
        let bucket = bucket_path(root, sat, prod, hours[k]);
        assert(tree.contains_key(bucket) && is_complete(tree[bucket], prod));
        if bucket == dir {
            lemma_save_keeps_complete(tree[bucket], prod, name);
            lemma_save_keeps_data(tree[bucket], name);
        }
    }
    let created = tree_after_create(tree, dir);
    assert forall|k: int| 0 <= k < hours.len() implies {
        let bucket = #[trigger] bucket_path(root, sat, prod, hours[k]);
        &&& created.contains_key(bucket)
        &&& is_complete(created[bucket], prod)
        &&& bucket_paths(created, bucket) == bucket_paths(tree, bucket)
    } by {
        let bucket = bucket_path(root, sat, prod, hours[k]);
        assert(tree.contains_key(bucket) && is_complete(tree[bucket], prod));
    }
}

} // verus!
