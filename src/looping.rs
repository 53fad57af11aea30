//! What happens when a track ends: with looping on, the track goes back to the tail.
use crate::playback::{after_enqueue, PlaybackQueue, QueuedTrack};
use crate::settings::{loop_status, GuildSettings};
use vstd::prelude::*;

verus! {

/// The queue's entries after `finished` ended in `guild`.
pub open spec fn after_track_end(
    flags: Map<u64, bool>,
    guild: u64,
    entries: Seq<QueuedTrack>,
    finished: QueuedTrack,
) -> Seq<QueuedTrack> {
    if loop_status(flags, guild) {
        after_enqueue(entries, finished)
    } else {
        entries
    }
}

/// Handles the end of `finished` in `guild`'s queue. With looping on, a new
/// entry for the same source is appended at the tail and returned, for the
/// voice client to enqueue too; with looping off, the queue stays as it is.
pub fn on_track_end(
    settings: &GuildSettings,
    guild: u64,
    finished: &QueuedTrack,
    queue: &mut PlaybackQueue,
) -> (r: Option<QueuedTrack>)
    ensures
        final(queue).entries() == after_track_end(
            settings@,
            guild,
            old(queue).entries(),
            *finished,
        ),
        r == (if loop_status(settings@, guild) {
            Some(*finished)
        } else {
            None
        }),
        final(queue).is_paused() == old(queue).is_paused(),
{
    if settings.loop_enabled(guild) {
        let again = finished.clone();
        queue.enqueue(finished.clone());
        Some(again)
    } else {
        None
    }
}

/// With looping off, the end of a track adds nothing: the queue is unchanged.
pub proof fn lemma_no_loop_no_requeue(
    flags: Map<u64, bool>,
    guild: u64,
    entries: Seq<QueuedTrack>,
    finished: QueuedTrack,
)
    requires
        !loop_status(flags, guild),
    ensures
        after_track_end(flags, guild, entries, finished) == entries,
        after_track_end(flags, guild, entries, finished).len() == entries.len(),
{
}

/// With looping on, the end of a track adds exactly one entry, at the tail,
/// for the same source, and leaves the others as they were.
pub proof fn lemma_loop_requeues_once(
    flags: Map<u64, bool>,
    guild: u64,
    entries: Seq<QueuedTrack>,
    finished: QueuedTrack,
)
    requires
        loop_status(flags, guild),
    ensures
        after_track_end(flags, guild, entries, finished).len() == entries.len() + 1,
        after_track_end(flags, guild, entries, finished).last() == finished,
        after_track_end(flags, guild, entries, finished).drop_last() == entries,
{
    assert(after_track_end(flags, guild, entries, finished).drop_last() =~= entries);
}

} // verus!
