//! Decisions about the bot's presence in a guild: joining, leaving, staying
//! when alone, and the admin's request to delete messages.
use crate::playback::PlaybackQueue;
use crate::settings::{with_record, GuildSettings};
use crate::text::{chars_of, parse_unsigned, parse_unsigned_chars};
use vstd::prelude::*;

verus! {

/// Whether the bot leaves a voice channel, given how many are in the one it
/// is in (`None` where that cannot be found out): exactly when it is alone.
pub fn should_leave(occupants: Option<usize>) -> (r: bool)
    ensures
        r == (occupants == Some(1usize)),
{
    match occupants {
        Some(n) => n == 1,
        None => false,
    }
}

/// Joining a guild's voice channel: the guild gets its settings record.
pub fn on_join(settings: &mut GuildSettings, guild: u64)
    ensures
        final(settings)@ == with_record(old(settings)@, guild),
{
    settings.get_or_create(guild);
}

/// Leaving a guild's voice channel: playback stops, the queue is cleared and
/// the guild's settings record is dropped.
pub fn on_leave(settings: &mut GuildSettings, queue: &mut PlaybackQueue, guild: u64)
    ensures
        final(settings)@ == old(settings)@.remove(guild),
        final(queue).entries().len() == 0,
{
    queue.stop();
    settings.remove(guild);
}

/// The text after the last space, or all of it where there is none.
pub open spec fn last_word(s: Seq<char>) -> Seq<char>
    decreases s.len(),
{
    if s.len() == 0 {
        s
    } else if s.last() == ' ' {
        Seq::<char>::empty()
    } else {
        last_word(s.drop_last()).push(s.last())
    }
}

/// How many messages a delete command asks for: the number after its last
/// space, or one where that is no number up to 65535.
pub open spec fn requested_count(content: Seq<char>) -> nat {
    match parse_unsigned(last_word(content), 65535) {
        Some(n) => n,
        None => 1,
    }
}

/// Most messages that one delete command removes.
pub const MAX_DELETE: u16 = 100;

/// What a delete command from `author` does, where `admin` may use it: the
/// number of earlier messages to remove, or `None` for no deletion at all.
pub open spec fn delete_plan(author: u64, admin: u64, content: Seq<char>) -> Option<nat> {
    if author == admin && 1 <= requested_count(content) <= MAX_DELETE {
        Some(requested_count(content))
    } else {
        None
    }
}

proof fn lemma_last_word(s: Seq<char>, k: int)
    requires
        0 <= k <= s.len(),
        forall|j: int| k <= j < s.len() ==> s[j] != ' ',
        k == 0 || s[k - 1] == ' ',
    ensures
        last_word(s) == s.skip(k),
    decreases s.len(),
{
    if s.len() > k {
        lemma_last_word(s.drop_last(), k);
        assert(s.drop_last().skip(k).push(s.last()) =~= s.skip(k));
    } else {
        assert(s.skip(k) =~= Seq::<char>::empty());
    }
}

/// The delete request of a message: the number of earlier messages to remove,
/// or `None` where the author is not the admin or the count is out of range.
pub fn delete_request(author: u64, admin: u64, content: &str) -> (r: Option<u16>)
    ensures
        r matches Some(n) ==> delete_plan(author, admin, content@) == Some(n as nat),
        r is None ==> delete_plan(author, admin, content@) is None,
{
    if author != admin {
        return None;
    }
    let cs = chars_of(content);
    let mut k: usize = cs.len();
    while k > 0 && cs[k - 1] != ' '
        invariant
            k <= cs.len(),
            forall|j: int| k <= j < cs.len() ==> cs@[j] != ' ',
        decreases k,
    {
        k = k - 1;
    }
    proof {
        lemma_last_word(cs@, k as int);
    }
    let word = cs.split_at(k).1;
    assert(word@ =~= cs@.skip(k as int));
    let n: u64 = match parse_unsigned_chars(word, 65535) {
        Some(v) => v,
        None => 1,
    };
    if 1 <= n && n <= MAX_DELETE as u64 {
        Some(n as u16)
    } else {
        None
    }
}

/// A delete command from anyone but the admin deletes nothing.
pub proof fn lemma_delete_admin_only(author: u64, admin: u64, content: Seq<char>)
    requires
        author != admin,
    ensures
        delete_plan(author, admin, content) is None,
{
}

} // verus!
