//! Turning a user's query into track descriptors: the query handed to the
//! extractor, the lines of its output, and the failure it reports when it
//! finds nothing.
use crate::text::{contains_bytes, has_infix, push_str};
use vstd::prelude::*;
use vstd::string::StringSliceAdditionalSpecFns;
use vstd::utf8::{decode_utf8, valid_utf8};

verus! {

/// What `url::Url::parse` makes of a string: `None` where it is no absolute
/// URL, else the URL's host, if it has one.
pub uninterp spec fn url_host_of(s: Seq<char>) -> Option<Option<Seq<char>>>;

/// Relies on `url::Url::parse`, which fails where the text is no absolute URL,
/// and on `Url::host_str` for the host of one that parses.
#[verifier::external_body]
pub(crate) fn url_host(s: &str) -> (r: Option<Option<String>>)
    ensures
        r matches Some(h) ==> url_host_of(s@) matches Some(g) && (h matches Some(x) ==> g
            == Some(x@)) && (h is None ==> g is None),
        r is None ==> url_host_of(s@) is None,
{
    url::Url::parse(s).ok().map(|u| u.host_str().map(|h| h.to_string()))
}

/// Whether the text parses as an absolute URL.
pub open spec fn is_url(s: Seq<char>) -> bool {
    url_host_of(s) is Some
}

/// The query handed to the extractor: a URL as it is, anything else as a
/// keyword search on the default provider.
pub open spec fn query_for(q: Seq<char>, is_url: bool) -> Seq<char> {
    if is_url {
        q
    } else {
        "ytsearch:"@ + q
    }
}

/// The extractor's query for `query`, once it is known whether it is a URL.
pub fn search_query(query: &str, is_url: bool) -> (r: String)
    ensures
        r@ == query_for(query@, is_url),
{
    if is_url {
        query.to_owned()
    } else {
        let mut s = String::new();
        push_str(&mut s, "ytsearch:");
        push_str(&mut s, query);
        s
    }
}

/// The extractor's query for what a user typed.
pub fn resolver_query(query: &str) -> (r: String)
    ensures
        r@ == query_for(query@, is_url(query@)),
{
    let parsed = url_host(query);
    search_query(query, parsed.is_some())
}

/// The address of a playlist, from its identifier.
pub open spec fn playlist_url(id: Seq<char>) -> Seq<char> {
    "https://www.youtube.com/playlist?list="@ + id
}

/// Builds the address of a playlist from its identifier.
pub fn build_playlist_url(playlist_id: &str) -> (r: String)
    ensures
        r@ == playlist_url(playlist_id@),
{
    let mut s = String::new();
    push_str(&mut s, "https://www.youtube.com/playlist?list=");
    push_str(&mut s, playlist_id);
    s
}

/// One item that the extractor listed.
#[derive(Debug)]
pub struct TrackDescriptor {
    pub url: Option<String>,
    pub original_url: Option<String>,
    pub title: String,
    pub channel: String,
    pub playlist: Option<String>,
    pub playlist_id: Option<String>,
    pub duration_string: String,
    pub thumbnail: Option<String>,
}

impl TrackDescriptor {
    /// The address to stream from: the original one, else the listed one.
    pub fn source_url(&self) -> (r: Option<String>)
        ensures
            r == (match self.original_url {
                Some(u) => Some(u),
                None => self.url,
            }),
    {
        match &self.original_url {
            Some(u) => Some(u.clone()),
            None => match &self.url {
                Some(u) => Some(u.clone()),
                None => None,
            },
        }
    }
}

/// Bytes before the first newline, or all of them.
pub open spec fn line_len(b: Seq<u8>) -> nat
    decreases b.len(),
{
    if b.len() == 0 || b[0] == 10u8 {
        0
    } else {
        1 + line_len(b.drop_first())
    }
}

/// The first line: up to the first newline, without it and without a
/// carriage return just before it.
pub open spec fn first_line(b: Seq<u8>) -> Seq<u8> {
    let raw = b.take(line_len(b) as int);
    if line_len(b) < b.len() && raw.len() > 0 && raw.last() == 13u8 {
        raw.drop_last()
    } else {
        raw
    }
}

/// What follows the first line and its newline.
pub open spec fn after_first_line(b: Seq<u8>) -> Seq<u8> {
    if line_len(b) < b.len() {
        b.skip(line_len(b) + 1int)
    } else {
        Seq::<u8>::empty()
    }
}

/// The lines of the output that are valid UTF-8, in order; the others are skipped.
pub open spec fn text_lines(b: Seq<u8>) -> Seq<Seq<u8>>
    decreases b.len(),
{
    if b.len() == 0 {
        Seq::<Seq<u8>>::empty()
    } else if valid_utf8(first_line(b)) {
        seq![first_line(b)] + text_lines(after_first_line(b))
    } else {
        text_lines(after_first_line(b))
    }
}

/// Relies on `std::str::from_utf8`, which succeeds exactly on valid UTF-8.
#[verifier::external_body]
fn is_utf8(b: &[u8]) -> (r: bool)
    ensures
        r == valid_utf8(b@),
{
    std::str::from_utf8(b).is_ok()
}

/// Relies on `std::str::from_utf8`, which reads valid UTF-8 as the text it encodes.
#[verifier::external_body]
fn utf8_text(b: &[u8]) -> (r: String)
    requires
        valid_utf8(b@),
    ensures
        r@ == decode_utf8(b@),
{
    std::str::from_utf8(b).unwrap_or_default().to_string()
}

proof fn lemma_line_len(b: Seq<u8>, k: int)
    requires
        0 <= k <= b.len(),
        forall|j: int| 0 <= j < k ==> b[j] != 10u8,
        k == b.len() || b[k] == 10u8,
    ensures
        line_len(b) == k,
    decreases k,
{
    if k > 0 {
        lemma_line_len(b.drop_first(), k - 1);
    }
}

/// Splits the extractor's output into lines, skipping each line that is not
/// valid UTF-8.
pub fn output_lines(stdout: &[u8]) -> (r: Vec<Vec<u8>>)
    ensures
        r@.map_values(|v: Vec<u8>| v@) == text_lines(stdout@),
{
    let mut out: Vec<Vec<u8>> = Vec::new();
    let mut pos: usize = 0;
    let n = stdout.len();
    assert(stdout@.skip(0) =~= stdout@);
    assert(out@.map_values(|v: Vec<u8>| v@) + text_lines(stdout@) =~= text_lines(stdout@));
    while pos < n
        invariant
            pos <= n,
            n == stdout@.len(),
            text_lines(stdout@) == out@.map_values(|v: Vec<u8>| v@) + text_lines(
                stdout@.skip(pos as int),
            ),
        decreases n - pos,
    {
        let ghost rest = stdout@.skip(pos as int);
        let mut end: usize = pos;
        while end < n && stdout[end] != 10u8
            invariant
                pos <= end <= n,
                n == stdout@.len(),
                forall|j: int| pos <= j < end ==> stdout@[j] != 10u8,
            decreases n - end,
        {
            end = end + 1;
        }
        proof {
            lemma_line_len(rest, end - pos);
        }
        let mut stop: usize = end;
        if end < n && end > pos && stdout[end - 1] == 13u8 {
            stop = end - 1;
        }
        let mut line: Vec<u8> = Vec::new();
        let mut i: usize = pos;
        while i < stop
            invariant
                pos <= i <= stop,
                stop <= n,
                n == stdout@.len(),
                line@ == stdout@.subrange(pos as int, i as int),
            decreases stop - i,
        {
            line.push(stdout[i]);
            i = i + 1;
        }
        assert(line@ =~= first_line(rest));
        let next: usize = if end < n {
            end + 1
        } else {
            n
        };
        assert(after_first_line(rest) =~= stdout@.skip(next as int));
        if is_utf8(line.as_slice()) {
            let ghost before = out@;
            out.push(line);
            assert(out@.map_values(|v: Vec<u8>| v@) =~= before.map_values(|v: Vec<u8>| v@).push(
                first_line(rest),
            ));
        }
        pos = next;
    }
    assert(stdout@.skip(pos as int) =~= Seq::<u8>::empty());
    assert(text_lines(stdout@) =~= out@.map_values(|v: Vec<u8>| v@));
    out
}

/// The phrase by which the extractor's diagnostics mark a title that needs a
/// paid membership.
pub const PREMIUM_MARKER: &'static str = "Music Premium members";

/// The text shown for a title that needs a paid membership.
pub const PREMIUM_NOTICE: &'static str = "This video is only available to Music Premium members";

/// What the extractor says on a playlist that does not exist.
pub const MISSING_PLAYLIST_NOTICE: &'static str = "YouTube said: The playlist does not exist.";

/// Why a query gave no track.
#[derive(Debug)]
pub enum ResolveError {
    /// The title needs a paid membership.
    PremiumOnly,
    /// The playlist does not exist.
    PlaylistMissing,
    /// Nothing was found; the extractor's diagnostic text, where it was text.
    NoResults { diagnostic: String },
}

/// Whether `e` is the failure that the diagnostic output `err` reports.
pub open spec fn reports(e: ResolveError, err: Seq<u8>) -> bool {
    let text = valid_utf8(err);
    let premium = text && has_infix(err, PREMIUM_MARKER.spec_bytes());
    let missing = text && has_infix(err, MISSING_PLAYLIST_NOTICE.spec_bytes());
    match e {
        ResolveError::PremiumOnly => premium,
        ResolveError::PlaylistMissing => !premium && missing,
        ResolveError::NoResults { diagnostic } => !premium && !missing && diagnostic@ == (if text {
            decode_utf8(err)
        } else {
            Seq::<char>::empty()
        }),
    }
}

impl ResolveError {
    /// The text shown for the failure.
    pub fn message(&self) -> (r: String)
        ensures
            r@ == (match self {
                ResolveError::PremiumOnly => PREMIUM_NOTICE@,
                ResolveError::PlaylistMissing => MISSING_PLAYLIST_NOTICE@,
                ResolveError::NoResults { .. } => "No tracks found"@,
            }),
    {
        match self {
            ResolveError::PremiumOnly => PREMIUM_NOTICE.to_owned(),
            ResolveError::PlaylistMissing => MISSING_PLAYLIST_NOTICE.to_owned(),
            ResolveError::NoResults { .. } => "No tracks found".to_owned(),
        }
    }
}

/// The failure that the extractor's diagnostic output reports.
pub fn failure_from(stderr: &[u8]) -> (r: ResolveError)
    ensures
        reports(r, stderr@),
{
    if !is_utf8(stderr) {
        return ResolveError::NoResults { diagnostic: String::new() };
    }
    if contains_bytes(stderr, PREMIUM_MARKER.as_bytes()) {
        return ResolveError::PremiumOnly;
    }
    if contains_bytes(stderr, MISSING_PLAYLIST_NOTICE.as_bytes()) {
        return ResolveError::PlaylistMissing;
    }
    ResolveError::NoResults { diagnostic: utf8_text(stderr) }
}

/// The outcome of a resolution: the descriptors found, or, where there is
/// none, the failure that the diagnostic output reports.
pub fn resolve_outcome(found: Vec<TrackDescriptor>, stderr: &[u8]) -> (r: Result<
    Vec<TrackDescriptor>,
    ResolveError,
>)
    ensures
        found@.len() > 0 ==> r == Ok::<Vec<TrackDescriptor>, ResolveError>(found),
        found@.len() == 0 ==> (r matches Err(e) && reports(e, stderr@)),
{
    if found.len() > 0 {
        Ok(found)
    } else {
        Err(failure_from(stderr))
    }
}

/// What the metadata service says when it takes the bot for an automated client.
pub const BOT_CHECK_NOTICE: &'static str = "Sign in to confirm you\u{2019}re not a bot.";

/// What a play request does when the metadata of one of its tracks cannot be read.
#[derive(Debug)]
pub enum MetadataFailure {
    /// The track is left out and the others are still added.
    Skip,
    /// The service took the bot for an automated client: the request ends.
    FlaggedAsBot,
}

/// What a play request does after the metadata fetch failed with `error_text`:
/// it ends exactly when the text holds the bot-check notice.
pub fn metadata_failure(error_text: &str) -> (r: MetadataFailure)
    ensures
        (r is FlaggedAsBot) == has_infix(error_text.spec_bytes(), BOT_CHECK_NOTICE.spec_bytes()),
{
    if contains_bytes(error_text.as_bytes(), BOT_CHECK_NOTICE.as_bytes()) {
        MetadataFailure::FlaggedAsBot
    } else {
        MetadataFailure::Skip
    }
}

/// At most one failure fits a diagnostic output.
pub proof fn lemma_one_failure(a: ResolveError, b: ResolveError, err: Seq<u8>)
    requires
        reports(a, err),
        reports(b, err),
    ensures
        a is PremiumOnly <==> b is PremiumOnly,
        a is PlaylistMissing <==> b is PlaylistMissing,
        a is NoResults <==> b is NoResults,
{
}

/// A diagnostic output that holds the premium phrase reports that failure,
/// never the one of no results.
pub proof fn lemma_premium_reported(e: ResolveError, err: Seq<u8>)
    requires
        valid_utf8(err),
        has_infix(err, PREMIUM_MARKER.spec_bytes()),
        reports(e, err),
    ensures
        e is PremiumOnly,
{
}

} // verus!
