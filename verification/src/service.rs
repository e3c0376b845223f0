//! The fortune service: list, get, random and create on the store, with the
//! cache taking precedence on point lookups and every cache failure falling
//! back to the store.
//!
//! The service does not talk to the cache itself. Whoever runs it asks the
//! cache, outside any access to the store, and hands in what the cache said.

use crate::fortune::{text_of, view_of, views, Fortune, FortuneView};
use crate::random::random_index;
use crate::redis_client;
use crate::redis_client::{read_command, write_command, CacheClient, Command};
use crate::reply::{
    Body, BodyView, Rejection, Reply, ReplyView, INTERNAL_SERVER_ERROR, NOT_FOUND, OK,
};
use crate::store::{default_fortunes, enumerates, FortuneStore, Fortunes};
use vstd::prelude::*;

verus! {

/// The fortune that the store holds under `id`, if any.
pub open spec fn stored(store: Fortunes, id: Seq<char>) -> Option<FortuneView> {
    if store.contains_key(id) {
        Some(FortuneView { id, message: store[id] })
    } else {
        None
    }
}

/// What a point lookup returns. `cached` is the message that the cache gave
/// for the id; it is `None` where the cache is unavailable or its lookup
/// failed. A cached message wins over the store; without one the store
/// answers.
pub open spec fn lookup(store: Fortunes, id: Seq<char>, cached: Option<Seq<char>>) -> Option<
    FortuneView,
> {
    match cached {
        Some(message) => Some(FortuneView { id, message }),
        None => stored(store, id),
    }
}

/// The store after a point lookup: a cached message is written back into it.
pub open spec fn refreshed(store: Fortunes, id: Seq<char>, cached: Option<Seq<char>>) -> Fortunes {
    match cached {
        Some(message) => store.insert(id, message),
        None => store,
    }
}

/// The cache command for a point lookup, with the client to send it through.
/// There is one exactly when the cache is connected: an unavailable cache is
/// never asked.
pub fn cache_lookup<'a, C>(cache: &'a CacheClient<C>, id: &str) -> (ask: Option<(&'a C, Command)>)
    ensures
        ask is Some <==> *cache is Connected,
        ask matches Some((client, command)) ==> *cache is Connected && cache->client == *client
            && command@ == read_command(id@),
{
    match cache.get_client() {
        Some(client) => Some((client, redis_client::get_fortune(id))),
        None => None,
    }
}

/// The cache command that writes a new fortune through, with the client to
/// send it through. There is one exactly when the cache is connected.
pub fn cache_store<'a, C>(cache: &'a CacheClient<C>, fortune: &Fortune) -> (tell: Option<
    (&'a C, Command),
>)
    ensures
        tell is Some <==> *cache is Connected,
        tell matches Some((client, command)) ==> *cache is Connected && cache->client == *client
            && command@ == write_command(fortune@.id, fortune@.message),
{
    match cache.get_client() {
        Some(client) => Some(
            (client, redis_client::set_fortune(fortune.id.as_str(), fortune.message.as_str())),
        ),
        None => None,
    }
}

/// The store that the service starts with.
pub fn create_default_store() -> (store: FortuneStore)
    ensures
        store@ == default_fortunes(),
{
    FortuneStore::seed_defaults()
}

/// Every fortune of the store. The cache is not consulted.
pub fn list_fortunes(store: &FortuneStore) -> (all: Vec<Fortune>)
    ensures
        views(all@) == store.snapshot(),
        enumerates(views(all@), store@),
{
    store.list()
}

/// Point lookup in the store alone, for when the cache gave nothing: the
/// store's fortune for the id, or `None`.
pub fn stored_fortune(id: &str, store: &FortuneStore) -> (found: Option<Fortune>)
    ensures
        view_of(found) == stored(store@, id@),
{
    match store.get(id) {
        Some(fortune) => Some(fortune.clone()),
        None => None,
    }
}

/// Point lookup. With a cached message the fortune is made of the id and
/// that message, written into the store, and returned. Without one the store
/// is left as it is and answers: its fortune for the id, or `None`.
pub fn get_fortune(id: &str, cached: Option<String>, store: &mut FortuneStore) -> (found: Option<
    Fortune,
>)
    ensures
        view_of(found) == lookup(old(store)@, id@, text_of(cached)),
        final(store)@ == refreshed(old(store)@, id@, text_of(cached)),
{
    match cached {
        Some(message) => {
            let fortune = Fortune { id: id.to_owned(), message };
            store.put(fortune.clone());
            Some(fortune)
        },
        None => stored_fortune(id, store),
    }
}

/// The id for a random fortune: the id of an entry drawn from the snapshot
/// by a random index below its length, to be looked up like any other. An
/// empty store gives no id: there is nothing to look up, the cache is not
/// asked, and the answer is that no fortune was found.
pub fn random_fortune(store: &FortuneStore) -> (id: Option<String>)
    ensures
        id is None <==> store@ == Map::<Seq<char>, Seq<char>>::empty(),
        id matches Some(i) ==> store@.contains_key(i@) && exists|index: int|
            0 <= index < store.snapshot().len() && i@ == #[trigger] store.snapshot()[index].id,
{
    if store.is_empty() {
        None
    } else {
        let index = random_index(store.len());
        Some(store.id_at(index))
    }
}

/// Stores the fortune under its id, replacing what was there, and returns
/// it. Whether the cache took the fortune has no part in this.
pub fn create_fortune(fortune: Fortune, store: &mut FortuneStore) -> (created: Fortune)
    ensures
        created@ == fortune@,
        final(store)@ == old(store)@.insert(fortune@.id, fortune@.message),
{
    store.put(fortune.clone());
    fortune
}

/// The reply that carries a listing.
pub open spec fn listed_view(fortunes: Seq<FortuneView>) -> ReplyView {
    ReplyView { status: OK, body: BodyView::Fortunes(fortunes) }
}

/// The reply that carries one fortune.
pub open spec fn fortune_view(fortune: FortuneView) -> ReplyView {
    ReplyView { status: OK, body: BodyView::Fortune(fortune) }
}

/// The reply to a point lookup.
pub open spec fn found_view(fortune: Option<FortuneView>) -> ReplyView {
    match fortune {
        Some(f) => fortune_view(f),
        None => ReplyView { status: NOT_FOUND, body: BodyView::JsonString("fortune not found"@) },
    }
}

/// The reply to a request that no handler took.
pub open spec fn rejection_view(rejection: Rejection) -> ReplyView {
    if rejection == Rejection::NotFound {
        ReplyView { status: NOT_FOUND, body: BodyView::JsonString("not found"@) }
    } else {
        ReplyView {
            status: INTERNAL_SERVER_ERROR,
            body: BodyView::JsonString("internal server error"@),
        }
    }
}

/// The reply to a listing.
pub fn listed(fortunes: Vec<Fortune>) -> (reply: Reply)
    ensures
        reply@ == listed_view(views(fortunes@)),
{
    Reply { status: OK, body: Body::Fortunes(fortunes) }
}

/// The reply to a point lookup: the fortune, or that there is none.
pub fn found(fortune: Option<Fortune>) -> (reply: Reply)
    ensures
        reply@ == found_view(view_of(fortune)),
{
    match fortune {
        Some(f) => Reply { status: OK, body: Body::Fortune(f) },
        None => Reply { status: NOT_FOUND, body: Body::JsonString("fortune not found".to_owned()) },
    }
}

/// The reply to a create.
pub fn created(fortune: Fortune) -> (reply: Reply)
    ensures
        reply@ == fortune_view(fortune@),
{
    Reply { status: OK, body: Body::Fortune(fortune) }
}

/// The reply to a request that no handler took: an unknown route is not
/// found, and everything else counts as a failure of the server.
pub fn handle_rejection(rejection: Rejection) -> (reply: Reply)
    ensures
        reply@ == rejection_view(rejection),
{
    match rejection {
        Rejection::NotFound => Reply {
            status: NOT_FOUND,
            body: Body::JsonString("not found".to_owned()),
        },
        _ => Reply {
            status: INTERNAL_SERVER_ERROR,
            body: Body::JsonString("internal server error".to_owned()),
        },
    }
}

} // verus!
