//! The cache adapter without its network: the handshake that settles once, at
//! startup, whether a cache client is at hand; the commands of the wire
//! contract; and the bulk load of cached fortunes into the store.

use crate::fortune::{views, Fortune, FortuneView};
use crate::store::{overlaid, FortuneStore, Fortunes};
use vstd::prelude::*;
use vstd::string::*;

verus! {

/// How often a connection is tried before the cache is given up for good.
pub const MAX_ATTEMPTS: u8 = 5;

/// The pause before each further attempt, in seconds.
pub const RETRY_DELAY_SECS: u64 = 2;

/// How long a single call to the cache may take before it counts as failed,
/// in seconds.
pub const CALL_TIMEOUT_SECS: u64 = 5;

/// What the caller has to do next to carry the handshake on.
#[derive(Debug, PartialEq, Eq)]
pub enum NextStep {
    /// Try to connect now, and report how it went.
    Attempt,
    /// Wait for so many seconds, then try to connect, and report how it went.
    AttemptAfter { seconds: u64 },
    /// The handshake is over: there is nothing left to do.
    Nothing,
}

/// The cache client handle. `C` is the connected client of whatever cache is
/// in use. `Connected` and `Unavailable` are final: a handle that has reached
/// one of them never changes again.
#[derive(Debug, PartialEq, Eq)]
pub enum CacheClient<C> {
    /// Nothing has been decided yet.
    Uninitialized,
    /// The attempt with this number, counted from 1, is under way.
    Connecting { attempt: u8 },
    /// The cache answers through this client.
    Connected { client: C },
    /// No cache: none is configured, or every attempt failed.
    Unavailable,
}

/// The handle while the attempt with this number is under way.
pub open spec fn connecting<C>(attempt: u8) -> CacheClient<C> {
    CacheClient::Connecting { attempt }
}

/// Where the handshake starts: with the first attempt if a cache address is
/// configured, and otherwise at once in `Unavailable`.
pub open spec fn begun<C>(configured: bool) -> (CacheClient<C>, NextStep) {
    if configured {
        (CacheClient::Connecting { attempt: 1 }, NextStep::Attempt)
    } else {
        (CacheClient::Unavailable, NextStep::Nothing)
    }
}

impl<C> CacheClient<C> {
    /// The handle will never change again.
    pub open spec fn is_final(self) -> bool {
        self is Connected || self is Unavailable
    }

    /// The handle and the next step after an attempt that ended with
    /// `outcome`: the client on success, `None` on failure. A success
    /// connects. A failure is followed by another attempt after the fixed
    /// pause, until the last permitted attempt has failed. A handle that is
    /// not connecting ignores the report.
    pub open spec fn after_attempt(self, outcome: Option<C>) -> (CacheClient<C>, NextStep) {
        match self {
            CacheClient::Connecting { attempt } => match outcome {
                Some(client) => (CacheClient::Connected { client }, NextStep::Nothing),
                None => if attempt < MAX_ATTEMPTS {
                    (
                        CacheClient::Connecting { attempt: (attempt + 1) as u8 },
                        NextStep::AttemptAfter { seconds: RETRY_DELAY_SECS },
                    )
                } else {
                    (CacheClient::Unavailable, NextStep::Nothing)
                },
            },
            _ => (self, NextStep::Nothing),
        }
    }

    /// The handle after a whole series of attempt reports, in order.
    pub open spec fn settled(self, outcomes: Seq<Option<C>>) -> CacheClient<C>
        decreases outcomes.len(),
    {
        if outcomes.len() == 0 {
            self
        } else {
            self.after_attempt(outcomes.first()).0.settled(outcomes.drop_first())
        }
    }

    /// Reports the end of the attempt that the last step asked for.
    pub fn attempt_finished(self, outcome: Option<C>) -> (next: (CacheClient<C>, NextStep))
        ensures
            next == self.after_attempt(outcome),
    {
        match self {
            CacheClient::Connecting { attempt } => match outcome {
                Some(client) => (CacheClient::Connected { client }, NextStep::Nothing),
                None => if attempt < MAX_ATTEMPTS {
                    (
                        CacheClient::Connecting { attempt: attempt + 1 },
                        NextStep::AttemptAfter { seconds: RETRY_DELAY_SECS },
                    )
                } else {
                    (CacheClient::Unavailable, NextStep::Nothing)
                },
            },
            other => (other, NextStep::Nothing),
        }
    }

    /// The connected client, if the handle is connected.
    pub fn get_client(&self) -> (client: Option<&C>)
        ensures
            client is Some <==> self is Connected,
            client matches Some(c) ==> self is Connected && self->client == *c,
    {
        match self {
            CacheClient::Connected { client } => Some(client),
            _ => None,
        }
    }
}

/// Starts the handshake. `configured` says whether a cache address is set.
pub fn init<C>(configured: bool) -> (start: (CacheClient<C>, NextStep))
    ensures
        start == begun::<C>(configured),
{
    if configured {
        (CacheClient::Connecting { attempt: 1 }, NextStep::Attempt)
    } else {
        (CacheClient::Unavailable, NextStep::Nothing)
    }
}

/// A final handle stays what it is, whatever is reported to it.
pub proof fn lemma_final_handle_never_changes<C>(handle: CacheClient<C>, outcomes: Seq<Option<C>>)
    requires
        handle.is_final(),
    ensures
        handle.settled(outcomes) == handle,
    decreases outcomes.len(),
{
    if outcomes.len() > 0 {
        lemma_final_handle_never_changes(handle, outcomes.drop_first());
    }
}

/// The number of the first successful attempt among the first `limit`
/// reports, counted from 0, if there is one.
pub open spec fn first_success<C>(outcomes: Seq<Option<C>>, limit: int) -> Option<int>
    decreases limit,
{
    if limit <= 0 || outcomes.len() == 0 {
        None
    } else if outcomes.first() is Some {
        Some(0)
    } else {
        match first_success(outcomes.drop_first(), limit - 1) {
            Some(i) => Some(i + 1),
            None => None,
        }
    }
}

/// Where a handshake ends that is allowed `limit` more attempts and gets
/// these reports: connected through the client of the first attempt that
/// succeeded, and unavailable if none of them did.
pub open spec fn handshake_end<C>(outcomes: Seq<Option<C>>, limit: int) -> CacheClient<C> {
    match first_success(outcomes, limit) {
        Some(i) => CacheClient::Connected { client: outcomes[i]->0 },
        None => CacheClient::Unavailable,
    }
}

/// Bounded retry: once as many reports have come in as attempts are
/// permitted, the handshake is over. It ended connected, through the client
/// of the first successful attempt, if one of the permitted attempts
/// succeeded, and unavailable if none did.
pub proof fn lemma_handshake_settles<C>(outcomes: Seq<Option<C>>)
    requires
        outcomes.len() >= MAX_ATTEMPTS,
    ensures
        begun::<C>(true).0.settled(outcomes).is_final(),
        begun::<C>(true).0.settled(outcomes) == handshake_end(outcomes, MAX_ATTEMPTS as int),
{
    lemma_settles_from(outcomes, 1);
}

proof fn lemma_first_success_is_one<C>(outcomes: Seq<Option<C>>, limit: int)
    ensures
        first_success(outcomes, limit) matches Some(i) ==> 0 <= i < limit && i < outcomes.len()
            && outcomes[i] is Some,
    decreases limit,
{
    if limit > 0 && outcomes.len() > 0 && outcomes.first() is None {
        lemma_first_success_is_one(outcomes.drop_first(), limit - 1);
    }
}

proof fn lemma_settles_from<C>(outcomes: Seq<Option<C>>, attempt: u8)
    requires
        1 <= attempt <= MAX_ATTEMPTS,
        outcomes.len() >= MAX_ATTEMPTS - attempt + 1,
    ensures
        connecting::<C>(attempt).settled(outcomes) == handshake_end(
            outcomes,
            MAX_ATTEMPTS - attempt + 1,
        ),
    decreases MAX_ATTEMPTS - attempt,
{
    let rest = outcomes.drop_first();
    match outcomes.first() {
        Some(client) => {
            lemma_final_handle_never_changes(CacheClient::Connected { client }, rest);
        },
        None => {
            if attempt < MAX_ATTEMPTS {
                lemma_settles_from(rest, (attempt + 1) as u8);
                lemma_first_success_is_one(rest, MAX_ATTEMPTS - attempt);
            } else {
                lemma_final_handle_never_changes(CacheClient::<C>::Unavailable, rest);
            }
        },
    }
}

/// The name of the hash under which the cache keeps the fortunes: one field
/// per id, whose value is the message.
pub open spec fn fortunes_hash() -> Seq<char> {
    "fortunes"@
}

/// What a cache command is, mathematically: its name and its arguments.
pub struct CommandView {
    pub name: Seq<char>,
    pub args: Seq<Seq<char>>,
}

/// A command for the cache, as plain words for whoever talks to it.
#[derive(Debug, PartialEq, Eq)]
pub struct Command {
    pub name: String,
    pub args: Vec<String>,
}

/// The models of a sequence of words, in the same order.
pub open spec fn words(strings: Seq<String>) -> Seq<Seq<char>> {
    strings.map_values(|word: String| word@)
}

impl View for Command {
    type V = CommandView;

    open spec fn view(&self) -> CommandView {
        CommandView { name: self.name@, args: words(self.args@) }
    }
}

/// The command that lists every id in the cache.
pub open spec fn list_command() -> CommandView {
    CommandView { name: "HKEYS"@, args: seq![fortunes_hash()] }
}

/// The command that reads the message cached under `key`.
pub open spec fn read_command(key: Seq<char>) -> CommandView {
    CommandView { name: "HGET"@, args: seq![fortunes_hash(), key] }
}

/// The command that caches `message` under `key`.
pub open spec fn write_command(key: Seq<char>, message: Seq<char>) -> CommandView {
    CommandView { name: "HSET"@, args: seq![fortunes_hash(), key, message] }
}

/// The command that lists every id in the cache.
pub fn fortune_keys() -> (cmd: Command)
    ensures
        cmd@ == list_command(),
{
    let mut args: Vec<String> = Vec::new();
    args.push("fortunes".to_owned());
    let cmd = Command { name: "HKEYS".to_owned(), args };
    assert(cmd@.args =~= seq![fortunes_hash()]);
    cmd
}

/// The command that reads the message cached under `key`.
pub fn get_fortune(key: &str) -> (cmd: Command)
    ensures
        cmd@ == read_command(key@),
{
    let mut args: Vec<String> = Vec::new();
    args.push("fortunes".to_owned());
    args.push(key.to_owned());
    let cmd = Command { name: "HGET".to_owned(), args };
    assert(cmd@.args =~= seq![fortunes_hash(), key@]);
    cmd
}

/// The command that caches `message` under `key`.
pub fn set_fortune(key: &str, message: &str) -> (cmd: Command)
    ensures
        cmd@ == write_command(key@, message@),
{
    let mut args: Vec<String> = Vec::new();
    args.push("fortunes".to_owned());
    args.push(key.to_owned());
    args.push(message.to_owned());
    let cmd = Command { name: "HSET".to_owned(), args };
    assert(cmd@.args =~= seq![fortunes_hash(), key@, message@]);
    cmd
}

/// The address of the cache on `host`.
pub fn redis_url(host: &str) -> (url: String)
    ensures
        url@ == "redis://"@ + host@ + ":6379"@,
{
    let mut url = "redis://".to_owned();
    url.append(host);
    url.append(":6379");
    url
}

/// What one id of the cache listing gave: the id, and its message unless
/// reading it failed.
pub type Listed = (String, Option<String>);

/// The model of a listing.
pub open spec fn listing_view(listing: Seq<Listed>) -> Seq<(Seq<char>, Option<Seq<char>>)> {
    listing.map_values(
        |entry: Listed|
            (
                entry.0@,
                match entry.1 {
                    Some(message) => Some(message@),
                    None => None,
                },
            ),
    )
}

/// The model of a listing that may be missing.
pub open spec fn listing_of(listing: Option<Vec<Listed>>) -> Option<
    Seq<(Seq<char>, Option<Seq<char>>)>,
> {
    match listing {
        Some(entries) => Some(listing_view(entries@)),
        None => None,
    }
}

/// The fortunes that a listing holds, in its order: an id whose message could
/// not be read is left out.
pub open spec fn fetched(listing: Seq<(Seq<char>, Option<Seq<char>>)>) -> Seq<FortuneView>
    decreases listing.len(),
{
    if listing.len() == 0 {
        Seq::empty()
    } else {
        let front = fetched(listing.drop_last());
        match listing.last().1 {
            Some(message) => front.push(FortuneView { id: listing.last().0, message }),
            None => front,
        }
    }
}

/// The store after the bulk load: unchanged where the cache gave no listing,
/// and otherwise with every fortune that was read written onto it.
pub open spec fn loaded(base: Fortunes, listing: Option<Seq<(Seq<char>, Option<Seq<char>>)>>)
    -> Fortunes {
    match listing {
        Some(entries) => overlaid(base, fetched(entries)),
        None => base,
    }
}

/// Overlays the store with what the cache holds. `listing` is `None` where the
/// cache could not be reached or could not list its ids. Neither that nor an
/// id whose message could not be read is an error: the store goes on with what
/// it has.
pub fn load_fortunes(listing: Option<Vec<Listed>>, store: &mut FortuneStore)
    ensures
        final(store)@ == loaded(old(store)@, listing_of(listing)),
{
    if let Some(entries) = listing {
        let ghost all = listing_view(entries@);
        let mut read: Vec<Fortune> = Vec::new();
        let mut i: usize = 0;
        while i < entries.len()
            invariant
                i <= entries@.len(),
                all == listing_view(entries@),
                views(read@) =~= fetched(all.take(i as int)),
            decreases entries@.len() - i,
        {
            proof {
                assert(all.take(i + 1).drop_last() =~= all.take(i as int));
                assert(all.take(i + 1).last() == all[i as int]);
            }
            let ghost so_far = views(read@);
            if let Some(message) = &entries[i].1 {
                let fortune = Fortune { id: entries[i].0.clone(), message: message.clone() };
                read.push(fortune);
                assert(views(read@) =~= so_far.push(
                    FortuneView { id: all[i as int].0, message: all[i as int].1->0 },
                ));
            }
            i += 1;
        }
        proof {
            assert(all.take(i as int) =~= all);
        }
        store.overlay(read);
    }
}

} // verus!
