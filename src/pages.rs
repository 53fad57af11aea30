//! The queue listing: pages of five entries, the text of a page, and the
//! controls that move between pages.
use crate::playback::QueuedTrack;
use crate::text::{
    all_digits, chars_of, decimal, digit_char, digits_value, parse_unsigned, parse_unsigned_chars, push_decimal, push_str,
    push_two_digits, starts_with, starts_with_at, strip_leading, stripped_start, two_digits,
};
use vstd::prelude::*;

verus! {

/// Entries shown on one page.
pub const TRACKS_PER_PAGE: usize = 5;

/// Number of pages for `len` entries.
pub open spec fn pages_for(len: nat) -> nat {
    if len % 5 == 0 {
        len / 5
    } else {
        len / 5 + 1
    }
}

/// Index of the first entry on `page`, or `len` past the last page.
pub open spec fn page_start(len: nat, page: nat) -> nat {
    if 5 * page <= len {
        5 * page
    } else {
        len
    }
}

/// Index one past the last entry on `page`.
pub open spec fn page_end(len: nat, page: nat) -> nat {
    if page_start(len, page) + 5 <= len {
        page_start(len, page) + 5
    } else {
        len
    }
}

/// Number of pages for `len` entries.
pub fn page_count(len: usize) -> (r: usize)
    ensures
        r == pages_for(len as nat),
{
    if len % TRACKS_PER_PAGE == 0 {
        len / TRACKS_PER_PAGE
    } else {
        len / TRACKS_PER_PAGE + 1
    }
}

/// The entries of `page` out of `len`, as a half-open range of indices.
pub fn page_bounds(len: usize, page: usize) -> (r: (usize, usize))
    ensures
        r.0 == page_start(len as nat, page as nat),
        r.1 == page_end(len as nat, page as nat),
{
    let start: usize = if page <= len / TRACKS_PER_PAGE {
        page * TRACKS_PER_PAGE
    } else {
        len
    };
    let end: usize = if len >= TRACKS_PER_PAGE && start <= len - TRACKS_PER_PAGE {
        start + TRACKS_PER_PAGE
    } else {
        len
    };
    (start, end)
}

/// Every page but the last holds five entries, the last one the rest, and
/// no page is empty.
pub proof fn lemma_page_sizes(len: nat, page: nat)
    requires
        page < pages_for(len),
    ensures
        page + 1 < pages_for(len) ==> page_end(len, page) - page_start(len, page) == 5,
        page + 1 == pages_for(len) ==> page_end(len, page) - page_start(len, page) == len - 5
            * page,
        page_end(len, page) > page_start(len, page),
{
    assert(5 * page < len) by (nonlinear_arith)
        requires
            page < pages_for(len),
            pages_for(len) == (if len % 5 == 0 {
                len / 5
            } else {
                len / 5 + 1
            }),
    ;
    if page + 1 < pages_for(len) {
        assert(5 * page + 5 <= len) by (nonlinear_arith)
            requires
                page + 1 < pages_for(len),
                pages_for(len) == (if len % 5 == 0 {
                    len / 5
                } else {
                    len / 5 + 1
                }),
        ;
    } else {
        assert(len <= 5 * page + 5) by (nonlinear_arith)
            requires
                page + 1 == pages_for(len),
                pages_for(len) == (if len % 5 == 0 {
                    len / 5
                } else {
                    len / 5 + 1
                }),
        ;
    }
}

/// The page shown for a requested one: the last page where it is past the end.
pub open spec fn clamped(page: nat, n_pages: nat) -> nat {
    if n_pages == 0 {
        0
    } else if page < n_pages {
        page
    } else {
        (n_pages - 1) as nat
    }
}

/// The page to show when `page` is asked for and there are `n_pages`.
pub fn clamp_page(page: usize, n_pages: usize) -> (r: usize)
    ensures
        r == clamped(page as nat, n_pages as nat),
{
    if n_pages == 0 {
        0
    } else if page < n_pages {
        page
    } else {
        n_pages - 1
    }
}

/// The identifier that a page control carries, for `page`.
pub open spec fn page_id(page: int) -> Seq<char> {
    if page < 0 {
        "page:"@ + seq!['-'] + decimal((-page) as nat)
    } else {
        "page:"@ + decimal(page as nat)
    }
}

/// The three controls under a queue listing.
pub struct NavControls {
    pub previous_id: String,
    pub refresh_id: String,
    pub next_id: String,
    pub previous_disabled: bool,
    pub next_disabled: bool,
}

fn page_id_text(page: u64, below: bool) -> (r: String)
    ensures
        r@ == (if below {
            page_id(page - 1)
        } else {
            page_id(page as int)
        }),
{
    let mut s = String::new();
    push_str(&mut s, "page:");
    if below && page == 0 {
        push_str(&mut s, "-");
        push_decimal(&mut s, 1);
        proof {
            reveal_strlit("-");
        }
        assert(s@ =~= page_id(-1));
    } else if below {
        push_decimal(&mut s, page - 1);
    } else {
        push_decimal(&mut s, page);
    }
    s
}

/// The controls for `page` of `n_pages`: "previous" is off on the first page,
/// "next" on the last one (and where there is no page at all).
pub fn nav_controls(page: usize, n_pages: usize) -> (r: NavControls)
    requires
        page < usize::MAX,
    ensures
        r.previous_id@ == page_id(page - 1),
        r.refresh_id@ == page_id(page as int),
        r.next_id@ == page_id(page + 1),
        r.previous_disabled == (page == 0),
        r.next_disabled == (page + 1 >= n_pages),
{
    let previous_id = page_id_text(page as u64, true);
    let refresh_id = page_id_text(page as u64, false);
    let next_id = page_id_text((page + 1) as u64, false);
    NavControls {
        previous_id,
        refresh_id,
        next_id,
        previous_disabled: page == 0,
        next_disabled: page + 1 >= n_pages,
    }
}

/// The page that a control identifier asks for: `None` where the identifier
/// is not a page control; a number that does not parse asks for page 0.
pub open spec fn requested_page(id: Seq<char>) -> Option<nat> {
    if starts_with(id, "page:"@) {
        match parse_unsigned(strip_leading(id, "page:"@), usize::MAX as nat) {
            Some(n) => Some(n),
            None => Some(0),
        }
    } else {
        None
    }
}

/// Reads the page that a control identifier asks for.
pub fn parse_page_id(id: &str) -> (r: Option<usize>)
    ensures
        r matches Some(n) ==> requested_page(id@) == Some(n as nat),
        r is None ==> requested_page(id@) is None,
{
    let cs = chars_of(id);
    let prefix = chars_of("page:");
    proof {
        reveal_strlit("page:");
    }
    if !starts_with_at(&cs, 0, &prefix) {
        assert(cs@.skip(0) =~= cs@);
        return None;
    }
    assert(cs@.skip(0) =~= cs@);
    let at = stripped_start(&cs, &prefix);
    let rest = cs.split_at(at).1;
    assert(rest@ =~= cs@.skip(at as int));
    match parse_unsigned_chars(rest, usize::MAX as u64) {
        Some(n) => Some(n as usize),
        None => Some(0),
    }
}

proof fn lemma_digit_char(d: nat)
    requires
        d < 10,
    ensures
        '0' <= digit_char(d) <= '9',
        digit_char(d) as nat - '0' as nat == d,
{
}

proof fn lemma_decimal_reads_back(n: nat)
    ensures
        decimal(n).len() > 0,
        all_digits(decimal(n)),
        digits_value(decimal(n)) == n,
    decreases n,
{
    lemma_digit_char(n % 10);
    if n >= 10 {
        lemma_decimal_reads_back(n / 10);
        assert(decimal(n).drop_last() =~= decimal(n / 10));
        assert(decimal(n).last() == digit_char(n % 10));
        assert(digits_value(decimal(n)) == 10 * (n / 10) + n % 10);
        assert forall|i: int| 0 <= i < decimal(n).len() implies crate::text::is_digit(
            #[trigger] decimal(n)[i],
        ) by {
            if i < decimal(n / 10).len() {
                assert(decimal(n)[i] == decimal(n / 10)[i]);
            }
        }
    } else {
        assert(decimal(n).drop_last() =~= Seq::<char>::empty());
        assert(digits_value(Seq::<char>::empty()) == 0);
        assert(digits_value(decimal(n)) == n);
    }
}

proof fn lemma_id_prefix(rest: Seq<char>)
    requires
        rest.len() > 0,
        rest[0] != 'p',
    ensures
        starts_with("page:"@ + rest, "page:"@),
        strip_leading("page:"@ + rest, "page:"@) == rest,
{
    reveal_strlit("page:");
    let s = "page:"@ + rest;
    assert(s.take(5) =~= "page:"@);
    assert(s.skip(5) =~= rest);
    assert(!(5 <= rest.len() && rest.take(5) == "page:"@)) by {
        if 5 <= rest.len() && rest.take(5) == "page:"@ {
            assert(rest.take(5)[0] == rest[0]);
        }
    }
    assert(strip_leading(rest, "page:"@) == rest);
    assert(strip_leading(s, "page:"@) == strip_leading(s.skip(5), "page:"@));
}

proof fn lemma_page_id_reads_back(k: nat)
    requires
        k <= usize::MAX,
    ensures
        requested_page(page_id(k as int)) == Some(k),
{
    lemma_decimal_reads_back(k);
    lemma_digit_char(k % 10);
    assert(decimal(k)[0] != 'p' && decimal(k)[0] != '+') by {
        assert(crate::text::is_digit(decimal(k)[0]));
    }
    lemma_id_prefix(decimal(k));
}

/// Each page control, once its identifier is read back and the page clamped,
/// shows the page it is meant for: the page before (the first page stays),
/// the same page, and the page after (the last page stays).
pub proof fn lemma_controls_pick_pages(page: nat, n_pages: nat)
    requires
        page < n_pages,
        n_pages <= usize::MAX,
    ensures
        requested_page(page_id(page - 1)) matches Some(p) && clamped(p, n_pages) == (if page
            == 0 {
            0
        } else {
            (page - 1) as nat
        }),
        requested_page(page_id(page as int)) == Some(page),
        clamped(page, n_pages) == page,
        requested_page(page_id(page + 1int)) == Some((page + 1) as nat),
        clamped((page + 1) as nat, n_pages) == (if page + 1 < n_pages {
            (page + 1) as nat
        } else {
            (n_pages - 1) as nat
        }),
{
    lemma_page_id_reads_back(page);
    lemma_page_id_reads_back((page + 1) as nat);
    if page == 0 {
        let rest = seq!['-'] + decimal(1);
        assert(rest[0] == '-');
        lemma_id_prefix(rest);
        assert(page_id(-1) =~= "page:"@ + rest);
        assert(!all_digits(rest)) by {
            assert(!crate::text::is_digit(rest[0]));
        }
        assert(parse_unsigned(rest, usize::MAX as nat) is None);
    } else {
        lemma_page_id_reads_back((page - 1) as nat);
    }
}

/// A track's title as listed: "Unknown" where it has none.
pub open spec fn title_text(title: Option<String>) -> Seq<char> {
    match title {
        Some(t) => t@,
        None => "Unknown"@,
    }
}

/// A length in seconds as listed: `mm:ss`, or `hh:mm:ss` from an hour up.
pub open spec fn duration_text(secs: nat) -> Seq<char> {
    let hours = secs / 3600;
    let minutes = (secs % 3600) / 60;
    let seconds = secs % 60;
    (if hours > 0 {
        two_digits(hours) + ":"@
    } else {
        Seq::<char>::empty()
    }) + two_digits(minutes) + ":"@ + two_digits(seconds)
}

/// Formats a length in whole seconds as `mm:ss` or `hh:mm:ss`.
pub fn format_duration(secs: u64) -> (r: String)
    ensures
        r@ == duration_text(secs as nat),
{
    let hours = secs / 3600;
    let minutes = (secs % 3600) / 60;
    let seconds = secs % 60;
    let mut s = String::new();
    if hours > 0 {
        push_two_digits(&mut s, hours);
        push_str(&mut s, ":");
    }
    push_two_digits(&mut s, minutes);
    push_str(&mut s, ":");
    push_two_digits(&mut s, seconds);
    assert(s@ =~= duration_text(secs as nat));
    s
}

/// The listing line of one entry.
pub open spec fn entry_line(t: QueuedTrack) -> Seq<char> {
    "* ["@ + title_text(t.title) + "]("@ + t.url@ + ")"@ + (match t.length {
        Some(d) => " ("@ + duration_text(d.secs as nat) + ")"@,
        None => Seq::<char>::empty(),
    }) + "\n"@
}

/// The listing lines of several entries, in order.
pub open spec fn entry_lines(ts: Seq<QueuedTrack>) -> Seq<char>
    decreases ts.len(),
{
    if ts.len() == 0 {
        Seq::<char>::empty()
    } else {
        entry_lines(ts.drop_last()) + entry_line(ts.last())
    }
}

/// The text of `page` of a queue listing.
pub open spec fn page_text(entries: Seq<QueuedTrack>, page: nat) -> Seq<char> {
    let n = entries.len();
    (if n == 0 {
        "There are no tracks in the queue.\n"@
    } else {
        Seq::<char>::empty()
    }) + entry_lines(entries.subrange(page_start(n, page) as int, page_end(n, page) as int))
        + "\n"@ + (if pages_for(n) > 1 {
        "page "@ + decimal(page + 1) + "/"@ + decimal(pages_for(n))
    } else {
        Seq::<char>::empty()
    })
}

fn push_entry_line(s: &mut String, t: &QueuedTrack)
    ensures
        final(s)@ == old(s)@ + entry_line(*t),
{
    push_str(s, "* [");
    match &t.title {
        Some(title) => push_str(s, title.as_str()),
        None => push_str(s, "Unknown"),
    }
    push_str(s, "](");
    push_str(s, t.url.as_str());
    push_str(s, ")");
    match t.length {
        Some(d) => {
            push_str(s, " (");
            let text = format_duration(d.secs);
            push_str(s, text.as_str());
            push_str(s, ")");
        },
        None => {},
    }
    push_str(s, "\n");
    assert(final(s)@ =~= old(s)@ + entry_line(*t));
}

/// The text of `page` of the listing of `entries`.
pub fn queue_page_text(entries: &[QueuedTrack], page: usize) -> (r: String)
    requires
        page < usize::MAX,
    ensures
        r@ == page_text(entries@, page as nat),
{
    let n = entries.len();
    let mut s = String::new();
    if n == 0 {
        push_str(&mut s, "There are no tracks in the queue.\n");
    }
    let ghost head = s@;
    let (start, end) = page_bounds(n, page);
    let mut i: usize = start;
    while i < end
        invariant
            start <= i <= end,
            end <= n,
            n == entries@.len(),
            s@ == head + entry_lines(entries@.subrange(start as int, i as int)),
        decreases end - i,
    {
        push_entry_line(&mut s, &entries[i]);
        assert(entries@.subrange(start as int, i + 1).drop_last() =~= entries@.subrange(
            start as int,
            i as int,
        ));
        i = i + 1;
    }
    push_str(&mut s, "\n");
    let n_pages = page_count(n);
    if n_pages > 1 {
        push_str(&mut s, "page ");
        push_decimal(&mut s, (page + 1) as u64);
        push_str(&mut s, "/");
        push_decimal(&mut s, n_pages as u64);
    }
    assert(s@ =~= page_text(entries@, page as nat));
    s
}

} // verus!
