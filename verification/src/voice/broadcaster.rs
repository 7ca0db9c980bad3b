//! The broadcaster: the channel announcements go to, the role they mention, the guild's
//! emojis, and the prepared messages by label.
use vstd::prelude::*;
use std::collections::HashMap;
use crate::channel::ChannelInfo;
use crate::keyed::{
    has_key, is_first_key, keyed_view, lemma_first_key_unique, lemma_view_empty, lemma_view_push,
    lemma_view_update,
};
use crate::voice::MessageLabel;
use crate::voice::broadcaster_creation_error::BroadcasterCreationError;
use crate::voice::prepared_message::{cooldown_blocks, elapsed_nanos, send_step, BroadcasterDatabase, PreparedMessage, COOLDOWN};
use crate::voice::sending_message_error::SendingMessageError;

verus! {

/// What the logic reads of a guild role.
#[derive(Debug)]
pub struct RoleInfo {
    pub id: u64,
    pub name: String,
}

/// What the logic reads of a guild emoji.
#[derive(Debug)]
pub struct EmojiInfo {
    pub id: u64,
    pub name: String,
    pub animated: bool,
}

/// The key of a role: its id.
pub open spec fn role_key() -> spec_fn(RoleInfo) -> u64 {
    |r: RoleInfo| r.id
}

/// The key of a prepared message: its label.
pub open spec fn message_key<T>() -> spec_fn((T, PreparedMessage)) -> T {
    |e: (T, PreparedMessage)| e.0
}

/// The roles of a guild by id.
pub open spec fn roles_by_id(roles: Seq<RoleInfo>) -> Map<u64, RoleInfo> {
    keyed_view(roles, role_key())
}

/// The emojis by id that a list of emojis gives, a later one replacing an earlier one with the
/// same id (as collecting them into a hash map does).
pub open spec fn emojis_by_id(emojis: Seq<EmojiInfo>) -> Map<u64, EmojiInfo>
    decreases emojis.len(),
{
    if emojis.len() == 0 {
        Map::empty()
    } else {
        emojis_by_id(emojis.drop_last()).insert(emojis.last().id, emojis.last())
    }
}

/// The role in `roles` with id `id`, if any.
pub fn find_role(roles: &Vec<RoleInfo>, id: u64) -> (found: Option<usize>)
    ensures
        match found {
            Some(i) => is_first_key(roles@, role_key(), id, i as int) && roles_by_id(roles@).contains_key(id)
                && roles_by_id(roles@)[id] == roles@[i as int],
            None => !roles_by_id(roles@).contains_key(id),
        },
{
    let mut i: usize = 0;
    while i < roles.len()
        invariant
            i <= roles.len(),
            forall|j: int| 0 <= j < i ==> (role_key())(#[trigger] roles@[j]) != id,
        decreases roles.len() - i,
    {
        if roles[i].id == id {
            proof {
                lemma_first_key_unique(roles@, role_key(), id, i as int);
            }
            return Some(i);
        }
        i += 1;
    }
    None
}

fn copy_role(role: &RoleInfo) -> (copy: RoleInfo)
    ensures
        copy == *role,
{
    RoleInfo { id: role.id, name: role.name.clone() }
}

fn copy_emoji(emoji: &EmojiInfo) -> (copy: EmojiInfo)
    ensures
        copy == *emoji,
{
    EmojiInfo { id: emoji.id, name: emoji.name.clone(), animated: emoji.animated }
}

/// Sends prepared messages to a channel.
pub struct Broadcaster<T: MessageLabel> {
    pub social_role: RoleInfo,
    /// The guild's emojis by id.
    pub emojis: HashMap<u64, EmojiInfo>,
    pub target_channel: ChannelInfo,
    pub msgs: Vec<(T, PreparedMessage)>,
}

impl<T: MessageLabel> Broadcaster<T> {
    /// The guild's emojis by id.
    pub open spec fn emoji_view(&self) -> Map<u64, EmojiInfo> {
        self.emojis@
    }

    /// The prepared messages' texts by label.
    pub open spec fn messages(&self) -> Map<T, Seq<char>> {
        keyed_view(self.msgs@, message_key::<T>()).map_values(|e: (T, PreparedMessage)| e.1.content@)
    }

    /// Sets up a broadcaster for the channel `target_channel_id`, which Discord gave as
    /// `target_channel` where it is a guild channel, mentioning the role `social_role_id` of
    /// the guild whose roles are `roles`, with the guild's emojis as Discord listed them (or the
    /// error of asking for them). No messages yet.
    pub fn new(
        target_channel_id: u64,
        target_channel: Option<ChannelInfo>,
        roles: &Vec<RoleInfo>,
        social_role_id: u64,
        emojis: Result<Vec<EmojiInfo>, poise::serenity_prelude::Error>,
    ) -> (made: Result<Broadcaster<T>, BroadcasterCreationError>)
        requires
            target_channel matches Some(c) ==> c.id == target_channel_id,
        ensures
            target_channel is None ==> (made matches Err(BroadcasterCreationError::MissingTextChannel(id))
                && id == target_channel_id),
            target_channel is Some && !roles_by_id(roles@).contains_key(social_role_id) ==>
                (made matches Err(BroadcasterCreationError::RoleNotFound(id)) && id == social_role_id),
            target_channel is Some && roles_by_id(roles@).contains_key(social_role_id) && emojis is Err ==>
                made == Err::<Broadcaster<T>, BroadcasterCreationError>(BroadcasterCreationError::Serenity(emojis->Err_0)),
            target_channel is Some && roles_by_id(roles@).contains_key(social_role_id) && emojis is Ok ==>
                (made matches Ok(b) && b.target_channel == target_channel->0
                && b.target_channel.id == target_channel_id
                && b.social_role == roles_by_id(roles@)[social_role_id]
                && b.social_role.id == social_role_id
                && b.emoji_view() == emojis_by_id(emojis->Ok_0@)
                && b.messages() == Map::<T, Seq<char>>::empty()),
    {
        let target_channel = match target_channel {
            Some(ch) => ch,
            None => return Err(BroadcasterCreationError::MissingTextChannel(target_channel_id)),
        };
        let social_role = match find_role(roles, social_role_id) {
            Some(i) => copy_role(&roles[i]),
            None => return Err(BroadcasterCreationError::RoleNotFound(social_role_id)),
        };
        let emojis = match emojis {
            Ok(list) => list,
            Err(e) => return Err(BroadcasterCreationError::Serenity(e)),
        };
        let b = Broadcaster { social_role, emojis: HashMap::new(), target_channel, msgs: Vec::new() };
        proof {
            lemma_view_empty(message_key::<T>());
            assert(b.messages() =~= Map::<T, Seq<char>>::empty());
        }
        Ok(b.with_emojis(emojis))
    }

    /// The guild emoji with id `id`, if there is one.
    pub fn find_emoji(&self, id: u64) -> (found: Option<&EmojiInfo>)
        ensures
            match found {
                Some(e) => self.emoji_view().contains_key(id) && self.emoji_view()[id] == *e,
                None => !self.emoji_view().contains_key(id),
            },
    {
        broadcast use vstd::std_specs::hash::group_hash_axioms;
        self.emojis.get(&id)
    }

    /// The broadcaster with the guild's emojis as Discord listed them (a later emoji replaces
    /// an earlier one with the same id, as collecting them into a hash map does).
    pub fn with_emojis(self, emojis: Vec<EmojiInfo>) -> (b: Broadcaster<T>)
        ensures
            b.emoji_view() == emojis_by_id(emojis@),
            b.social_role == self.social_role,
            b.target_channel == self.target_channel,
            b.messages() == self.messages(),
    {
        broadcast use vstd::std_specs::hash::group_hash_axioms;
        let mut out: HashMap<u64, EmojiInfo> = HashMap::new();
        proof {
            assert(emojis@.take(0) =~= Seq::<EmojiInfo>::empty());
        }
        let mut i: usize = 0;
        while i < emojis.len()
            invariant
                i <= emojis.len(),
                out@ == emojis_by_id(emojis@.take(i as int)),
            decreases emojis.len() - i,
        {
            let e = copy_emoji(&emojis[i]);
            out.insert(e.id, e);
            proof {
                assert(emojis@.take(i + 1).drop_last() =~= emojis@.take(i as int));
                assert(emojis@.take(i + 1).last() == emojis@[i as int]);
            }
            i += 1;
        }
        proof {
            assert(emojis@.take(emojis@.len() as int) =~= emojis@);
        }
        Broadcaster { emojis: out, ..self }
    }

    fn find_message(&self, label: &T) -> (found: Option<usize>)
        ensures
            match found {
                Some(i) => is_first_key(self.msgs@, message_key::<T>(), *label, i as int),
                None => !has_key(self.msgs@, message_key::<T>(), *label),
            },
    {
        let mut i: usize = 0;
        while i < self.msgs.len()
            invariant
                i <= self.msgs.len(),
                forall|j: int| 0 <= j < i ==> (message_key::<T>())(#[trigger] self.msgs@[j]) != *label,
            decreases self.msgs.len() - i,
        {
            if self.msgs[i].0.same_label(label) {
                return Some(i);
            }
            i += 1;
        }
        None
    }

    /// The broadcaster with `content` prepared under `label` (replacing what was there).
    pub fn register_msg(self, label: T, content: String) -> (b: Broadcaster<T>)
        ensures
            b.messages() == self.messages().insert(label, content@),
            b.social_role == self.social_role,
            b.target_channel == self.target_channel,
            b.emojis == self.emojis,
    {
        let mut b = self;
        let ghost before = b.msgs@;
        let ghost old_messages = b.messages();
        let entry = (label, PreparedMessage::new(content));
        match b.find_message(&entry.0) {
            Some(n) => {
                b.msgs.set(n, entry);
                proof {
                    lemma_view_update(before, message_key::<T>(), n as int, entry);
                }
            },
            None => {
                b.msgs.push(entry);
                proof {
                    lemma_view_push(before, message_key::<T>(), entry);
                }
            },
        }
        proof {
            assert(b.messages() =~= old_messages.insert(entry.0, entry.1.content@));
        }
        b
    }

    /// The text prepared under `label`, if any.
    pub fn message_text(&self, label: &T) -> (text: Option<&String>)
        ensures
            match text {
                Some(t) => self.messages().contains_key(*label) && t@ == self.messages()[*label],
                None => !self.messages().contains_key(*label),
            },
    {
        match self.find_message(label) {
            Some(i) => {
                proof {
                    lemma_first_key_unique(self.msgs@, message_key::<T>(), *label, i as int);
                }
                Some(&self.msgs[i].1.content)
            },
            None => None,
        }
    }

    /// Sends the message prepared under `label` at `now`: fails where no message is prepared
    /// under it, where the cooldown database `db` is not there, or where the cooldown of the
    /// label's display text has not run out; otherwise records `now` for that text and gives
    /// back the message to post in the target channel.
    pub fn send_msg(&self, db: &mut Option<BroadcasterDatabase>, label: &T, now: u64)
        -> (sent: Result<String, SendingMessageError<T>>)
        ensures
            !self.messages().contains_key(*label) ==> {
                &&& sent == Err::<String, SendingMessageError<T>>(SendingMessageError::LabelNotFound(*label))
                &&& *final(db) == *old(db)
            },
            self.messages().contains_key(*label) && *old(db) is None ==> {
                &&& sent == Err::<String, SendingMessageError<T>>(SendingMessageError::FailedToAccessDatabase)
                &&& *final(db) is None
            },
            self.messages().contains_key(*label) && *old(db) is Some ==> {
                let before = (*old(db))->0@;
                let key = label.display_text();
                &&& *final(db) is Some
                &&& (*final(db))->0@ == send_step(before, key, now).0
                &&& sent is Ok == send_step(before, key, now).1
                &&& cooldown_blocks(before, key, now) ==> {
                    &&& sent == Err::<String, SendingMessageError<T>>(SendingMessageError::TooSoon {
                        elapsed_nanos: elapsed_nanos(before[key], now),
                        cooldown: COOLDOWN,
                    })
                    &&& (*final(db))->0@ == before
                }
                &&& !cooldown_blocks(before, key, now) ==> {
                    &&& sent matches Ok(text) && text@ == self.messages()[*label]
                    &&& (*final(db))->0@ == before.insert(key, now)
                }
            },
    {
        let i: usize = match self.find_message(label) {
            Some(i) => i,
            None => return Err(SendingMessageError::LabelNotFound(label.duplicate())),
        };
        proof {
            lemma_first_key_unique(self.msgs@, message_key::<T>(), *label, i as int);
        }
        let mut taken = db.take();
        match taken {
            Some(mut d) => {
                let key = label.display_string();
                let sent = self.msgs[i].1.send(&mut d, &key, now);
                *db = Some(d);
                sent
            },
            None => Err(SendingMessageError::FailedToAccessDatabase),
        }
    }
}

/// A message registered under a label is the one found under it afterwards; the messages of
/// other labels stay as they were.
pub proof fn law_registered_message_found<T>(messages: Map<T, Seq<char>>, label: T, content: Seq<char>, other: T)
    requires
        other != label,
    ensures
        messages.insert(label, content).contains_key(label),
        messages.insert(label, content)[label] == content,
        messages.insert(label, content).get(other) == messages.get(other),
{
}

} // verus!
