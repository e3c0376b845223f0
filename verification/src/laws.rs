//! What holds of the service whatever the store holds and whatever was asked
//! of it before. Every store is the defaults with a series of writes on top:
//! a create, a cached message that a lookup wrote back, and each entry of a
//! bulk load are one write each.

use crate::fortune::FortuneView;
use crate::reply::NOT_FOUND;
use crate::service::{found_view, lookup, refreshed, stored};
use crate::store::{
    default_fortunes, enumerates, ids_of, lemma_overlaid_dom, lemma_overlaid_keeps_untouched,
    lemma_overlaid_last_write_wins, overlaid, Fortunes,
};
use vstd::prelude::*;

verus! {

/// The ids of the defaults never leave the store: whatever is written, each
/// of them still has a fortune.
pub proof fn lemma_default_ids_stay(writes: Seq<FortuneView>, id: Seq<char>)
    requires
        default_fortunes().contains_key(id),
    ensures
        overlaid(default_fortunes(), writes).contains_key(id),
{
    lemma_overlaid_dom(default_fortunes(), writes);
}

/// A default whose id nothing has written since is what a lookup returns
/// when the cache gives nothing, and the lookup leaves the store as it is.
pub proof fn lemma_untouched_default_is_found(writes: Seq<FortuneView>, id: Seq<char>)
    requires
        default_fortunes().contains_key(id),
        forall|j: int| 0 <= j < writes.len() ==> writes[j].id != id,
    ensures
        lookup(overlaid(default_fortunes(), writes), id, None) == Some(
            FortuneView { id, message: default_fortunes()[id] },
        ),
        refreshed(overlaid(default_fortunes(), writes), id, None) == overlaid(
            default_fortunes(),
            writes,
        ),
{
    lemma_overlaid_keeps_untouched(default_fortunes(), writes, id);
}

/// A fortune that was created is in the store, and a lookup of its id
/// returns exactly that fortune when the cache gives nothing. The store
/// after a create does not depend on the cache, so this holds whether or not
/// the cache took the fortune.
pub proof fn lemma_created_is_found(store: Fortunes, fortune: FortuneView)
    ensures
        stored(store.insert(fortune.id, fortune.message), fortune.id) == Some(fortune),
        lookup(store.insert(fortune.id, fortune.message), fortune.id, None) == Some(fortune),
{
}

/// A listing of the store has as many entries as there are distinct ids among
/// the defaults and everything written since: an id written more than once
/// counts once.
pub proof fn lemma_listing_counts_distinct_ids(
    writes: Seq<FortuneView>,
    listing: Seq<FortuneView>,
)
    requires
        enumerates(listing, overlaid(default_fortunes(), writes)),
    ensures
        listing.len() == default_fortunes().dom().union(ids_of(writes)).len(),
{
    lemma_overlaid_dom(default_fortunes(), writes);
}

/// The id of a current entry, looked up, gives a fortune with that id: the
/// entry itself when the cache gives nothing, and the id with the cached
/// message when it gives one.
pub proof fn lemma_current_entry_is_found(
    store: Fortunes,
    id: Seq<char>,
    cached: Option<Seq<char>>,
)
    requires
        store.contains_key(id),
    ensures
        lookup(store, id, None) == Some(FortuneView { id, message: store[id] }),
        lookup(store, id, cached) is Some,
        lookup(store, id, cached)->0.id == id,
        cached is Some ==> lookup(store, id, cached)->0.message == cached->0,
{
}

/// A random fortune asked of an empty store is answered as a lookup of any
/// id in an empty store is when the cache gives nothing: not found.
pub proof fn lemma_empty_store_finds_nothing(id: Seq<char>)
    ensures
        lookup(Map::empty(), id, None) is None,
        found_view(lookup(Map::empty(), id, None)) == found_view(None),
        found_view(None).status == NOT_FOUND,
        refreshed(Map::empty(), id, None) == Map::<Seq<char>, Seq<char>>::empty(),
{
}

/// A write replaces a default with the same id: after a series of writes onto
/// the defaults, an id holds the message of the last write to it.
pub proof fn lemma_write_replaces_default(writes: Seq<FortuneView>, i: int)
    requires
        0 <= i < writes.len(),
        forall|j: int| i < j < writes.len() ==> writes[j].id != writes[i].id,
    ensures
        stored(overlaid(default_fortunes(), writes), writes[i].id) == Some(writes[i]),
{
    lemma_overlaid_last_write_wins(default_fortunes(), writes, i);
}

/// A message that the cache gave for an id stays in the store: a later
/// lookup of the id without the cache returns the same fortune.
pub proof fn lemma_cached_message_is_kept(store: Fortunes, id: Seq<char>, message: Seq<char>)
    ensures
        lookup(refreshed(store, id, Some(message)), id, None) == lookup(
            store,
            id,
            Some(message),
        ),
{
}

} // verus!
