//! Prepared announcements and the cooldown database that keeps them from being sent too often.
use vstd::prelude::*;
use crate::keyed::{
    first_key, has_key, is_first_key, keyed_view, lemma_first_key_unique, lemma_view_empty,
    lemma_view_push, lemma_view_update,
};
use crate::voice::MessageLabel;
use crate::voice::sending_message_error::SendingMessageError;

verus! {

/// How long, in whole seconds, a message label has to wait before it is sent again.
pub const COOLDOWN: u64 = 3600;

/// Nanoseconds in a second.
pub const NANOS_PER_SEC: u64 = 1000000000;

/// The time passed from `last` to `now` (nanoseconds on a monotonic clock); like
/// `Instant::duration_since`, zero where `now` is earlier.
pub open spec fn elapsed_nanos(last: u64, now: u64) -> u64 {
    if now >= last { (now - last) as u64 } else { 0 }
}

/// The cooldown keeps `key` from being sent at `now`: it was sent before, less than
/// `COOLDOWN` whole seconds ago.
pub open spec fn cooldown_blocks(sent: Map<Seq<char>, u64>, key: Seq<char>, now: u64) -> bool {
    sent.contains_key(key) && elapsed_nanos(sent[key], now) / NANOS_PER_SEC < COOLDOWN
}

/// One send of `key` at `now` on the database `sent`: the database after it, and whether the
/// cooldown let the message go (then `now` is recorded for `key`).
pub open spec fn send_step(sent: Map<Seq<char>, u64>, key: Seq<char>, now: u64) -> (Map<Seq<char>, u64>, bool) {
    if cooldown_blocks(sent, key, now) {
        (sent, false)
    } else {
        (sent.insert(key, now), true)
    }
}

/// A run of sends of `key` at the times `times`, from the database `sent`: which of them the
/// cooldown let go.
pub open spec fn sends_let_go(sent: Map<Seq<char>, u64>, key: Seq<char>, times: Seq<u64>) -> Seq<bool>
    decreases times.len(),
{
    if times.len() == 0 {
        Seq::empty()
    } else {
        let (after, went) = send_step(sent, key, times[0]);
        seq![went] + sends_let_go(after, key, times.drop_first())
    }
}

/// The key of a database entry.
pub open spec fn entry_key() -> spec_fn((String, u64)) -> Seq<char> {
    |e: (String, u64)| e.0@
}

/// When each message key was last sent (nanoseconds on the caller's monotonic clock).
pub struct BroadcasterDatabase {
    entries: Vec<(String, u64)>,
}

impl View for BroadcasterDatabase {
    type V = Map<Seq<char>, u64>;

    closed spec fn view(&self) -> Map<Seq<char>, u64> {
        keyed_view(self.entries@, entry_key()).map_values(|e: (String, u64)| e.1)
    }
}

impl BroadcasterDatabase {
    /// An empty database.
    pub fn new() -> (db: Self)
        ensures
            db@ == Map::<Seq<char>, u64>::empty(),
    {
        let db = BroadcasterDatabase { entries: Vec::new() };
        proof {
            lemma_view_empty(entry_key());
            assert(db@ =~= Map::<Seq<char>, u64>::empty());
        }
        db
    }

    fn find(&self, key: &String) -> (found: Option<usize>)
        ensures
            match found {
                Some(i) => is_first_key(self.entries@, entry_key(), key@, i as int),
                None => !has_key(self.entries@, entry_key(), key@),
            },
    {
        let mut i: usize = 0;
        while i < self.entries.len()
            invariant
                i <= self.entries.len(),
                forall|j: int| 0 <= j < i ==> (entry_key())(#[trigger] self.entries@[j]) != key@,
            decreases self.entries.len() - i,
        {
            if self.entries[i].0 == *key {
                return Some(i);
            }
            i += 1;
        }
        None
    }

    /// When `key` was last sent, if ever.
    pub fn last_sent(&self, key: &String) -> (at: Option<u64>)
        ensures
            at == self@.get(key@),
    {
        match self.find(key) {
            Some(i) => {
                proof {
                    lemma_first_key_unique(self.entries@, entry_key(), key@, i as int);
                }
                Some(self.entries[i].1)
            },
            None => None,
        }
    }

    /// Records that `key` was sent at `now`.
    pub fn record(&mut self, key: &String, now: u64)
        ensures
            final(self)@ == old(self)@.insert(key@, now),
    {
        let entry = (key.clone(), now);
        let ghost before = self.entries@;
        match self.find(key) {
            Some(i) => {
                self.entries.set(i, entry);
                proof {
                    lemma_view_update(before, entry_key(), i as int, entry);
                }
            },
            None => {
                self.entries.push(entry);
                proof {
                    lemma_view_push(before, entry_key(), entry);
                }
            },
        }
        proof {
            assert(self@ =~= old(self)@.insert(key@, now));
        }
    }
}

/// A message ready to be sent.
pub struct PreparedMessage {
    pub content: String,
}

impl PreparedMessage {
    /// A message with the given content.
    pub fn new(content: String) -> (msg: Self)
        ensures
            msg.content == content,
    {
        PreparedMessage { content }
    }

    /// Checks the cooldown of `key` at `now` and, where it has run out (or never started),
    /// records `now` as the last time `key` was sent and gives back the text to send.
    pub fn send<T: MessageLabel>(&self, db: &mut BroadcasterDatabase, key: &String, now: u64)
        -> (sent: Result<String, SendingMessageError<T>>)
        ensures
            cooldown_blocks(old(db)@, key@, now) ==> {
                &&& sent == Err::<String, SendingMessageError<T>>(SendingMessageError::TooSoon {
                    elapsed_nanos: elapsed_nanos(old(db)@[key@], now),
                    cooldown: COOLDOWN,
                })
                &&& final(db)@ == old(db)@
            },
            !cooldown_blocks(old(db)@, key@, now) ==> {
                &&& sent matches Ok(text) && text@ == self.content@
                &&& final(db)@ == old(db)@.insert(key@, now)
            },
            final(db)@ == send_step(old(db)@, key@, now).0,
            sent is Ok == send_step(old(db)@, key@, now).1,
            !old(db)@.contains_key(key@) ==> (sent matches Ok(text) && text@ == self.content@
                && final(db)@ == old(db)@.insert(key@, now)),
            old(db)@.contains_key(key@) && old(db)@[key@] <= now && now - old(db)@[key@] >= 3600000000000u64 ==>
                (sent matches Ok(text) && text@ == self.content@ && final(db)@ == old(db)@.insert(key@, now)),
            old(db)@.contains_key(key@) && old(db)@[key@] <= now && now - old(db)@[key@] < 3600000000000u64 ==>
                sent == Err::<String, SendingMessageError<T>>(SendingMessageError::TooSoon {
                    elapsed_nanos: (now - old(db)@[key@]) as u64,
                    cooldown: 3600,
                }) && final(db)@ == old(db)@,
            old(db)@.contains_key(key@) && now < old(db)@[key@] ==>
                sent == Err::<String, SendingMessageError<T>>(SendingMessageError::TooSoon {
                    elapsed_nanos: 0,
                    cooldown: 3600,
                }) && final(db)@ == old(db)@,
    {
        proof {
            if old(db)@.contains_key(key@) && old(db)@[key@] <= now {
                law_elapsed_is_difference(old(db)@[key@], now);
            }
        }
        match db.last_sent(key) {
            Some(last) => {
                let elapsed: u64 = if now >= last { now - last } else { 0 };
                if elapsed / NANOS_PER_SEC < COOLDOWN {
                    return Err(SendingMessageError::TooSoon { elapsed_nanos: elapsed, cooldown: COOLDOWN });
                }
            },
            None => {},
        }
        db.record(key, now);
        Ok(self.content.clone())
    }
}

/// Within the cooldown, a key that was just sent is blocked.
pub proof fn law_cooldown_blocks_repeat(sent: Map<Seq<char>, u64>, key: Seq<char>, first: u64, again: u64)
    requires
        elapsed_nanos(first, again) / NANOS_PER_SEC < COOLDOWN,
    ensures
        cooldown_blocks(sent.insert(key, first), key, again),
{
}

/// Once the cooldown has run out, a key that was sent is free again.
pub proof fn law_cooldown_runs_out(sent: Map<Seq<char>, u64>, key: Seq<char>, first: u64, again: u64)
    requires
        elapsed_nanos(first, again) / NANOS_PER_SEC >= COOLDOWN,
    ensures
        !cooldown_blocks(sent.insert(key, first), key, again),
{
}

/// Sending under one key leaves the cooldown of every other key as it was.
pub proof fn law_cooldown_keys_independent(sent: Map<Seq<char>, u64>, key: Seq<char>, other: Seq<char>, at: u64, now: u64)
    requires
        key != other,
    ensures
        cooldown_blocks(sent.insert(key, at), other, now) == cooldown_blocks(sent, other, now),
{
}

/// What the database records for a key is what `last_sent` reads back for it; other keys keep
/// their times.
pub proof fn law_recorded_time_read_back(sent: Map<Seq<char>, u64>, key: Seq<char>, now: u64, other: Seq<char>)
    requires
        other != key,
    ensures
        sent.insert(key, now).get(key) == Some(now),
        sent.insert(key, now).get(other) == sent.get(other),
{
}

proof fn lemma_sends_len(sent: Map<Seq<char>, u64>, key: Seq<char>, times: Seq<u64>)
    ensures
        sends_let_go(sent, key, times).len() == times.len(),
    decreases times.len(),
{
    if times.len() > 0 {
        let (after, went) = send_step(sent, key, times[0]);
        lemma_sends_len(after, key, times.drop_first());
    }
}

proof fn lemma_sends_unfold(sent: Map<Seq<char>, u64>, key: Seq<char>, times: Seq<u64>)
    requires
        times.len() > 0,
    ensures
        sends_let_go(sent, key, times)
            == seq![send_step(sent, key, times[0]).1] + sends_let_go(send_step(sent, key, times[0]).0, key, times.drop_first()),
{
}

proof fn lemma_sends_after_recorded(sent: Map<Seq<char>, u64>, key: Seq<char>, times: Seq<u64>)
    requires
        sent.contains_key(key),
    ensures
        forall|j: int| 0 <= j < times.len() && #[trigger] sends_let_go(sent, key, times)[j]
            ==> times[j] >= sent[key] + COOLDOWN * NANOS_PER_SEC,
    decreases times.len(),
{
    if times.len() > 0 {
        let t0 = times[0];
        let (after, went) = send_step(sent, key, t0);
        let rest = times.drop_first();
        lemma_sends_after_recorded(after, key, rest);
        lemma_sends_unfold(sent, key, times);
        lemma_sends_len(after, key, rest);
        if went {
            let e = elapsed_nanos(sent[key], t0);
            assert(e / NANOS_PER_SEC >= COOLDOWN);
            assert(e >= COOLDOWN * NANOS_PER_SEC) by (nonlinear_arith)
                requires e / 1000000000u64 >= 3600u64;
            assert(t0 >= sent[key] + COOLDOWN * NANOS_PER_SEC);
            assert(after[key] == t0);
        }
        let out = sends_let_go(sent, key, times);
        assert forall|j: int| 0 <= j < times.len() && #[trigger] out[j]
            implies times[j] >= sent[key] + COOLDOWN * NANOS_PER_SEC by {
            if j > 0 {
                assert(out[j] == sends_let_go(after, key, rest)[j - 1]);
                assert(rest[j - 1] == times[j]);
            } else {
                assert(out[0] == went);
            }
        }
    }
}

/// Over any run of sends of one key, two sends that the cooldown let go are at least
/// `COOLDOWN` seconds apart: at most one message per key per cooldown.
pub proof fn law_cooldown_over_any_run(sent: Map<Seq<char>, u64>, key: Seq<char>, times: Seq<u64>, i: int, j: int)
    requires
        0 <= i < j < times.len(),
        sends_let_go(sent, key, times)[i],
        sends_let_go(sent, key, times)[j],
    ensures
        times[j] >= times[i] + COOLDOWN * NANOS_PER_SEC,
    decreases times.len(),
{
    let t0 = times[0];
    let (after, went) = send_step(sent, key, t0);
    let rest = times.drop_first();
    let out = sends_let_go(sent, key, times);
    lemma_sends_unfold(sent, key, times);
    lemma_sends_len(after, key, rest);
    assert(out[j] == sends_let_go(after, key, rest)[j - 1]);
    assert(rest[j - 1] == times[j]);
    if i == 0 {
        assert(out[0] == went);
        assert(after.contains_key(key) && after[key] == t0);
        lemma_sends_after_recorded(after, key, rest);
    } else {
        assert(out[i] == sends_let_go(after, key, rest)[i - 1]);
        assert(rest[i - 1] == times[i]);
        law_cooldown_over_any_run(after, key, rest, i - 1, j - 1);
    }
}

/// The time passed from an earlier `last` to `now` is their difference; whole seconds of it
/// reach the cooldown exactly when the difference reaches `COOLDOWN` seconds in nanoseconds.
pub proof fn law_elapsed_is_difference(last: u64, now: u64)
    requires
        last <= now,
    ensures
        elapsed_nanos(last, now) == now - last,
        (elapsed_nanos(last, now) / NANOS_PER_SEC < COOLDOWN) == (now - last < 3600000000000u64),
{
    let e: u64 = (now - last) as u64;
    assert((e / 1000000000u64 < 3600u64) == (e < 3600000000000u64)) by (nonlinear_arith);
}

/// A send `COOLDOWN` seconds or more after the recorded one is never blocked, however long the
/// gap.
pub proof fn law_cooldown_never_blocks_after_it_ran_out(sent: Map<Seq<char>, u64>, key: Seq<char>, last: u64, now: u64)
    requires
        last <= now,
        now - last >= 3600000000000u64,
    ensures
        !cooldown_blocks(sent.insert(key, last), key, now),
{
    law_elapsed_is_difference(last, now);
}

} // verus!
