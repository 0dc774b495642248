//! The decisions of the client's polling daemon and its one-shot mode.
//!
//! The daemon remembers the key of the last entry it handed over; on each
//! poll it hands over the fetched entry only when its key differs, and it
//! remembers the new key only once the hand-over succeeded, so a failed
//! hand-over is retried on the next poll.

use vstd::prelude::*;

use crate::client::api::FetchError;
use crate::client::models::ClipboardContent;
use crate::clock::now_unix_secs;
use crate::content::{key_identifies_entry, key_starts_with_kind_tag, ContentModel};
use crate::text::{digit_char, push_char};

verus! {

/// A number below 100 as two decimal digits.
pub open spec fn two_digits(n: nat) -> Seq<char> {
    seq![digit_char((n / 10) as int), digit_char((n % 10) as int)]
}

/// The time of day (UTC) of a Unix time, as `HH:MM:SS`.
pub open spec fn clock_text(secs: nat) -> Seq<char> {
    two_digits((secs % 86400) / 3600) + seq![':'] + two_digits((secs % 3600) / 60) + seq![':']
        + two_digits(secs % 60)
}

fn push_two_digits(s: &mut String, n: u64)
    requires
        n < 100,
    ensures
        final(s)@ == old(s)@ + two_digits(n as nat),
{
    push_char(s, ((n / 10) as u8 + 48u8) as char);
    push_char(s, ((n % 10) as u8 + 48u8) as char);
    assert(final(s)@ =~= old(s)@ + two_digits(n as nat));
}

/// The time of day (UTC) of a Unix time, as `HH:MM:SS`.
pub fn clock_string(secs: u64) -> (s: String)
    ensures
        s@ == clock_text(secs as nat),
{
    let mut s = String::new();
    push_two_digits(&mut s, (secs % 86400) / 3600);
    push_char(&mut s, ':');
    push_two_digits(&mut s, (secs % 3600) / 60);
    push_char(&mut s, ':');
    push_two_digits(&mut s, secs % 60);
    assert(s@ =~= clock_text(secs as nat));
    s
}

/// The current time of day (UTC) as `HH:MM:SS`.
pub fn timestamp() -> (ts: String)
    ensures
        exists|secs: u64| ts@ == clock_text(secs as nat),
        ts@.len() == 8,
        ts@[2] == ':' && ts@[5] == ':',
{
    let secs = now_unix_secs();
    clock_string(secs)
}

/// What one poll leads to.
#[derive(Debug, PartialEq, Eq)]
pub enum PollDecision {
    /// A new entry: hand it over; on success remember `hash`.
    Process { content: ClipboardContent, hash: String },
    /// The entry was handed over already.
    Unchanged,
    /// The server holds no entry.
    NoContent,
    /// The fetch failed; it is retried on the next poll.
    FetchFailed(FetchError),
}

/// A poll decision with the entry and key as models.
pub enum PollModel {
    Process { content: ContentModel, hash: Seq<char> },
    Unchanged,
    NoContent,
    FetchFailed(FetchError),
}

impl View for PollDecision {
    type V = PollModel;

    open spec fn view(&self) -> PollModel {
        match self {
            PollDecision::Process { content, hash } => PollModel::Process {
                content: content@,
                hash: hash@,
            },
            PollDecision::Unchanged => PollModel::Unchanged,
            PollDecision::NoContent => PollModel::NoContent,
            PollDecision::FetchFailed(e) => PollModel::FetchFailed(*e),
        }
    }
}

/// The result of a fetch, with the entry as a model.
pub open spec fn fetched_model(fetched: Result<Option<ClipboardContent>, FetchError>) -> Result<
    Option<ContentModel>,
    FetchError,
> {
    match fetched {
        Ok(Some(c)) => Ok(Some(c@)),
        Ok(None) => Ok(None),
        Err(e) => Err(e),
    }
}

/// The decision of a poll, given the key last handed over.
pub open spec fn poll_decision(
    last_hash: Seq<char>,
    fetched: Result<Option<ContentModel>, FetchError>,
) -> PollModel {
    match fetched {
        Ok(Some(c)) => if c.hash() != last_hash {
            PollModel::Process { content: c, hash: c.hash() }
        } else {
            PollModel::Unchanged
        },
        Ok(None) => PollModel::NoContent,
        Err(e) => PollModel::FetchFailed(e),
    }
}

/// The key remembered after a hand-over of an entry with key `hash`.
pub open spec fn hash_after(last_hash: Seq<char>, hash: Seq<char>, succeeded: bool) -> Seq<char> {
    if succeeded {
        hash
    } else {
        last_hash
    }
}

/// What the daemon remembers between polls.
pub struct DaemonState {
    /// The key of the last entry handed over; empty before the first.
    pub last_hash: String,
}

impl DaemonState {
    /// The state before the first poll: nothing handed over yet.
    pub fn new() -> (state: Self)
        ensures
            state.last_hash@ == Seq::<char>::empty(),
    {
        DaemonState { last_hash: String::new() }
    }

    /// Decides what a poll's fetch result leads to.
    pub fn on_poll(&self, fetched: Result<Option<ClipboardContent>, FetchError>) -> (d:
        PollDecision)
        ensures
            d@ == poll_decision(self.last_hash@, fetched_model(fetched)),
    {
        match fetched {
            Ok(Some(content)) => {
                let hash = content.content_hash();
                if hash != self.last_hash {
                    PollDecision::Process { content, hash }
                } else {
                    PollDecision::Unchanged
                }
            },
            Ok(None) => PollDecision::NoContent,
            Err(e) => PollDecision::FetchFailed(e),
        }
    }

    /// Records the outcome of handing over an entry with key `hash`.
    pub fn on_processed(&mut self, hash: String, succeeded: bool)
        ensures
            final(self).last_hash@ == hash_after(old(self).last_hash@, hash@, succeeded),
    {
        if succeeded {
            self.last_hash = hash;
        }
    }
}

/// The message of a one-shot run that finds no entry on the server.
pub open spec fn no_content_on_server() -> Seq<char> {
    "No clipboard content available on the server"@
}

/// The one-shot mode's decision on a fetched entry: hand it over, or fail
/// when the server holds none.
pub fn one_shot_content(fetched: Option<ClipboardContent>) -> (r: Result<ClipboardContent, String>)
    ensures
        match fetched {
            Some(c) => r == Ok::<ClipboardContent, String>(c),
            None => r matches Err(msg) && msg@ == no_content_on_server(),
        },
{
    match fetched {
        Some(content) => Ok(content),
        None => Err(String::from_str("No clipboard content available on the server")),
    }
}

/// An entry is handed over exactly when its key differs from the last one
/// handed over.
pub proof fn new_entry_is_processed_iff_key_changed(last_hash: Seq<char>, c: ContentModel)
    ensures
        poll_decision(last_hash, Ok(Some(c))) is Process <==> c.hash() != last_hash,
{
}

/// After an entry was handed over, a polled entry is handed over exactly when
/// it differs from that entry.
pub proof fn entry_is_processed_iff_it_differs(previous: ContentModel, c: ContentModel)
    ensures
        poll_decision(previous.hash(), Ok(Some(c))) is Process <==> c != previous,
{
    if c.hash() == previous.hash() {
        key_identifies_entry(c, previous);
    }
}

/// Once an entry was handed over, polling the same entry again changes nothing.
pub proof fn processed_entry_is_not_processed_again(last_hash: Seq<char>, c: ContentModel)
    ensures
        poll_decision(hash_after(last_hash, c.hash(), true), Ok(Some(c))) == PollModel::Unchanged,
{
}

/// On the first poll any entry the server holds is handed over.
pub proof fn first_poll_processes_any_entry(c: ContentModel)
    ensures
        poll_decision(Seq::<char>::empty(), Ok(Some(c))) is Process,
{
    key_starts_with_kind_tag(c);
}

/// A failed hand-over leaves the state as it was, so the next poll of the same
/// entry decides as the previous one did and tries again.
pub proof fn failed_hand_over_is_retried(
    last_hash: Seq<char>,
    c: ContentModel,
)
    ensures
        poll_decision(hash_after(last_hash, c.hash(), false), Ok(Some(c))) == poll_decision(
            last_hash,
            Ok(Some(c)),
        ),
{
}

/// The time of day text has eight characters, with `:` third and sixth.
pub proof fn clock_text_shape(secs: nat)
    ensures
        clock_text(secs).len() == 8,
        clock_text(secs)[2] == ':',
        clock_text(secs)[5] == ':',
{
}

/// A decision to hand over an entry carries that entry and its own key, so
/// that remembering the carried key after a successful hand-over makes the
/// next poll of the same entry change nothing.
pub proof fn process_decision_carries_entry_key(last_hash: Seq<char>, c: ContentModel)
    ensures
        poll_decision(last_hash, Ok(Some(c))) matches PollModel::Process { content, hash } ==> {
            &&& content == c
            &&& hash == c.hash()
            &&& poll_decision(hash_after(last_hash, hash, true), Ok(Some(c))) == PollModel::Unchanged
        },
{
}

} // verus!
