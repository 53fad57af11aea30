//! The texts that tell a user what a play request added to the queue.
use crate::resolve::{build_playlist_url, playlist_url, url_host, url_host_of, TrackDescriptor};
use crate::text::{chars_of, decimal, push_char, push_decimal, push_str, strip_leading, stripped_start};
use vstd::prelude::*;

verus! {

/// A track that a play request added, as the notice shows it.
#[derive(Debug)]
pub struct AddedTrack {
    pub url: String,
    pub title: Option<String>,
    pub duration_string: String,
    pub channel: String,
    pub thumbnail: Option<String>,
}

/// An optional text, or "Unknown" where there is none.
pub open spec fn or_unknown(t: Option<String>) -> Seq<char> {
    match t {
        Some(x) => x@,
        None => "Unknown"@,
    }
}

fn push_or_unknown(s: &mut String, t: &Option<String>)
    ensures
        final(s)@ == old(s)@ + or_unknown(*t),
{
    match t {
        Some(x) => push_str(s, x.as_str()),
        None => push_str(s, "Unknown"),
    }
}

/// The link to the playlist of the first descriptor: `[name](address)`.
pub open spec fn playlist_link(first: TrackDescriptor) -> Seq<char> {
    "["@ + or_unknown(first.playlist) + "]("@ + playlist_url(or_unknown(first.playlist_id)) + ")"@
}

fn push_playlist_link(s: &mut String, first: &TrackDescriptor)
    ensures
        final(s)@ == old(s)@ + playlist_link(*first),
{
    push_str(s, "[");
    push_or_unknown(s, &first.playlist);
    push_str(s, "](");
    let id = match &first.playlist_id {
        Some(x) => x.clone(),
        None => "Unknown".to_owned(),
    };
    let url = build_playlist_url(id.as_str());
    push_str(s, url.as_str());
    push_str(s, ")");
    assert(final(s)@ =~= old(s)@ + playlist_link(*first));
}

/// What is shown while the tracks of a playlist are being added.
pub fn playlist_loading_text(first: &TrackDescriptor) -> (r: String)
    ensures
        r@ == "Adding playlist "@ + playlist_link(*first),
{
    let mut s = String::new();
    push_str(&mut s, "Adding playlist ");
    push_playlist_link(&mut s, first);
    s
}

/// What is shown once `count` tracks of a playlist were added.
pub fn playlist_added_text(first: &TrackDescriptor, count: usize) -> (r: String)
    ensures
        r@ == "Adding playlist: "@ + playlist_link(*first) + "\n"@ + "Added "@ + decimal(
            count as nat,
        ) + " tracks to the queue.\n"@,
{
    let mut s = String::new();
    push_str(&mut s, "Adding playlist: ");
    push_playlist_link(&mut s, first);
    push_str(&mut s, "\n");
    push_str(&mut s, "Added ");
    push_decimal(&mut s, count as u64);
    push_str(&mut s, " tracks to the queue.\n");
    s
}

/// The host a track streams from, as shown: without leading `www.`; empty
/// where the address has no host, `None` where it is no URL.
pub open spec fn shown_host(url: Seq<char>) -> Option<Seq<char>> {
    match url_host_of(url) {
        Some(Some(h)) => Some(strip_leading(h, "www."@)),
        Some(None) => Some(Seq::<char>::empty()),
        None => None,
    }
}

/// The host a track streams from, as shown.
pub fn host_label(url: &str) -> (r: Option<String>)
    ensures
        r matches Some(h) ==> shown_host(url@) == Some(h@),
        r is None ==> shown_host(url@) is None,
{
    match url_host(url) {
        None => None,
        Some(None) => Some(String::new()),
        Some(Some(h)) => {
            let cs = chars_of(h.as_str());
            let p = chars_of("www.");
            proof {
                reveal_strlit("www.");
            }
            let at = stripped_start(&cs, &p);
            let mut out = String::new();
            let mut i: usize = at;
            while i < cs.len()
                invariant
                    at <= i <= cs.len(),
                    out@ == cs@.subrange(at as int, i as int),
                decreases cs.len() - i,
            {
                push_char(&mut out, cs[i]);
                assert(out@ =~= cs@.subrange(at as int, i + 1));
                i = i + 1;
            }
            assert(cs@.skip(at as int) =~= cs@.subrange(at as int, cs@.len() as int));
            Some(out)
        },
    }
}

/// The notice for one added track.
#[derive(Debug)]
pub struct TrackNotice {
    pub title: String,
    pub url: String,
    pub footer_text: String,
    pub footer_icon: Option<String>,
    pub duration: String,
    pub channel: String,
    pub thumbnail: Option<String>,
}

/// The footer of a track notice, for the host shown (`None`: no URL).
pub open spec fn footer_text(host: Option<Seq<char>>) -> Seq<char> {
    match host {
        Some(h) => "Streaming from "@ + h,
        None => Seq::<char>::empty(),
    }
}

/// The icon of a track notice's footer, for the host shown.
pub open spec fn footer_icon(host: Option<Seq<char>>) -> Option<Seq<char>> {
    match host {
        Some(h) => Some("https://www.google.com/s2/favicons?domain="@ + h),
        None => None,
    }
}

/// Whether `n` is the notice for the added track `t`.
pub open spec fn notice_of(n: TrackNotice, t: AddedTrack) -> bool {
    &&& n.title@ == or_unknown(t.title)
    &&& n.url == t.url
    &&& n.footer_text@ == footer_text(shown_host(t.url@))
    &&& (match n.footer_icon {
        Some(i) => footer_icon(shown_host(t.url@)) == Some(i@),
        None => footer_icon(shown_host(t.url@)) is None,
    })
    &&& n.duration == t.duration_string
    &&& n.channel == t.channel
    &&& n.thumbnail == t.thumbnail
}

/// The notice for one added track.
pub fn track_notice(t: &AddedTrack) -> (r: TrackNotice)
    ensures
        notice_of(r, *t),
{
    let host = host_label(t.url.as_str());
    let (footer_text, footer_icon) = match host {
        Some(h) => {
            let mut text = String::new();
            push_str(&mut text, "Streaming from ");
            push_str(&mut text, h.as_str());
            let mut icon = String::new();
            push_str(&mut icon, "https://www.google.com/s2/favicons?domain=");
            push_str(&mut icon, h.as_str());
            (text, Some(icon))
        },
        None => (String::new(), None),
    };
    let title = match &t.title {
        Some(x) => x.clone(),
        None => "Unknown".to_owned(),
    };
    let thumbnail = match &t.thumbnail {
        Some(x) => Some(x.clone()),
        None => None,
    };
    TrackNotice {
        title,
        url: t.url.clone(),
        footer_text,
        footer_icon,
        duration: t.duration_string.clone(),
        channel: t.channel.clone(),
        thumbnail,
    }
}

/// What a play request reports once its tracks were added.
#[derive(Debug)]
pub enum AddedNotice {
    /// Nothing was added.
    Nothing,
    /// One track was added.
    Track(TrackNotice),
    /// Several tracks of a playlist were added; the text says how many.
    Playlist(String),
}

/// The report for the tracks `added` out of those resolved, `found`.
pub fn added_notice(found: &[TrackDescriptor], added: &[AddedTrack]) -> (r: AddedNotice)
    requires
        added@.len() > 1 ==> found@.len() > 0,
    ensures
        added@.len() == 0 ==> r is Nothing,
        added@.len() == 1 ==> (r matches AddedNotice::Track(n) && notice_of(n, added@[0])),
        added@.len() > 1 ==> (r matches AddedNotice::Playlist(text) && text@ == "Adding playlist: "@
            + playlist_link(found@[0]) + "\n"@ + "Added "@ + decimal(added@.len() as nat)
            + " tracks to the queue.\n"@),
{
    if added.len() == 0 {
        AddedNotice::Nothing
    } else if added.len() == 1 {
        AddedNotice::Track(track_notice(&added[0]))
    } else {
        AddedNotice::Playlist(playlist_added_text(&found[0], added.len()))
    }
}

} // verus!
