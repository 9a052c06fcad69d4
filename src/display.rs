//! Text shown to users: track lengths and paged playlist listings.
use vstd::prelude::*;
use crate::coordinator::PlayState;
use crate::resolve::{thumbnail_of, youtube_thumbnail};
use crate::text::{same_text, truncate_embed_field_value, truncated};
use crate::track::TrackRequest;

verus! {

pub open spec fn digit_char(d: nat) -> char {
    if d == 0 { '0' }
    else if d == 1 { '1' }
    else if d == 2 { '2' }
    else if d == 3 { '3' }
    else if d == 4 { '4' }
    else if d == 5 { '5' }
    else if d == 6 { '6' }
    else if d == 7 { '7' }
    else if d == 8 { '8' }
    else { '9' }
}

/// Decimal digits of `n`, without leading zeros.
pub open spec fn decimal(n: nat) -> Seq<char>
    decreases n,
{
    if n < 10 {
        seq![digit_char(n)]
    } else {
        decimal(n / 10).push(digit_char(n % 10))
    }
}

/// Relies on `u64`'s `Display` (through `ToString`): decimal digits, no
/// leading zeros.
#[verifier::external_body]
fn decimal_text(n: u64) -> (r: String)
    ensures
        r@ == decimal(n as nat),
{
    n.to_string()
}

/// At least two digits, with a leading zero below ten.
pub open spec fn two_digits(n: nat) -> Seq<char> {
    if n < 10 {
        seq!['0'] + decimal(n)
    } else {
        decimal(n)
    }
}

fn two_digit_text(n: u64) -> (r: String)
    ensures
        r@ == two_digits(n as nat),
{
    if n < 10 {
        let mut s = String::from_str("0");
        let d = decimal_text(n);
        s.append(d.as_str());
        proof {
            reveal_strlit("0");
        }
        s
    } else {
        decimal_text(n)
    }
}

/// A length as minutes and seconds, "mm:ss", or "--:--" when unknown.
pub open spec fn duration_text(duration_ms: Option<u64>) -> Seq<char> {
    match duration_ms {
        None => "--:--"@,
        Some(ms) => two_digits((ms / 1000) as nat / 60) + ":"@ + two_digits((ms / 1000) as nat % 60),
    }
}

/// Formats a track length given in milliseconds as "mm:ss" (whole seconds),
/// or "--:--" when it is unknown.
pub fn format_duration(duration_ms: Option<u64>) -> (r: String)
    ensures
        r@ == duration_text(duration_ms),
{
    match duration_ms {
        None => String::from_str("--:--"),
        Some(ms) => {
            let secs = ms / 1000;
            let mut s = two_digit_text(secs / 60);
            s.append(":");
            let rest = two_digit_text(secs % 60);
            s.append(rest.as_str());
            s
        },
    }
}

/// Number of entries on one playlist page.
pub const PAGE_SIZE: usize = 10;

/// Listing lines for `urls[from..to]`, numbered from `from + 1`.
pub open spec fn page_lines(urls: Seq<String>, from: nat, to: nat) -> Seq<char>
    decreases to - from,
{
    if to <= from {
        Seq::empty()
    } else {
        page_lines(urls, from, (to - 1) as nat) + decimal(to) + ". "@ + urls[to - 1]@ + "\n"@
    }
}

/// Number of pages for `n` entries.
pub open spec fn page_count(n: nat) -> nat {
    ((n + PAGE_SIZE - 1) / (PAGE_SIZE as int)) as nat
}

/// Text of page `p` (from zero) of a listing of `urls` titled `title`.
pub open spec fn page_text(urls: Seq<String>, title: Seq<char>, p: nat) -> Seq<char> {
    let from: nat = p * PAGE_SIZE as nat;
    let to: nat = if from + PAGE_SIZE <= urls.len() { from + PAGE_SIZE as nat } else { urls.len() };
    "📃 "@ + title + " ("@ + decimal(p + 1) + "/"@ + decimal(page_count(urls.len())) + ")\n\n"@
        + page_lines(urls, from, to)
}

/// A listing of `urls` split into pages of `PAGE_SIZE` entries, each page headed
/// by `title` and its page number, entries numbered from one.
pub fn playlist_pages(urls: &Vec<String>, title: &str) -> (r: Vec<String>)
    requires
        urls@.len() + PAGE_SIZE <= usize::MAX,
    ensures
        r@.len() == page_count(urls@.len()),
        forall|p: int| 0 <= p < r@.len() ==> #[trigger] r@[p]@ == page_text(urls@, title@, p as nat),
{
    let n = urls.len();
    let total = (n + PAGE_SIZE - 1) / PAGE_SIZE;
    let total_text = decimal_text(total as u64);
    let mut pages: Vec<String> = Vec::new();
    let mut p: usize = 0;
    while p < total
        invariant
            n == urls@.len(),
            n + PAGE_SIZE <= usize::MAX,
            total == page_count(n as nat),
            total_text@ == decimal(total as nat),
            p <= total,
            pages@.len() == p,
            forall|q: int| 0 <= q < p ==> #[trigger] pages@[q]@ == page_text(urls@, title@, q as nat),
        decreases total - p,
    {
        assert(p * PAGE_SIZE < n) by (nonlinear_arith)
            requires
                p < total,
                total as int == (n + PAGE_SIZE - 1) / (PAGE_SIZE as int),
        ;
        let from = p * PAGE_SIZE;
        let to = if from + PAGE_SIZE <= n { from + PAGE_SIZE } else { n };
        let mut s = String::from_str("📃 ");
        s.append(title);
        s.append(" (");
        let num = decimal_text((p + 1) as u64);
        s.append(num.as_str());
        s.append("/");
        s.append(total_text.as_str());
        s.append(")\n\n");
        let ghost head = s@;
        let mut i = from;
        while i < to
            invariant
                from <= i <= to,
                to <= n,
                n == urls@.len(),
                n + PAGE_SIZE <= usize::MAX,
                s@ == head + page_lines(urls@, from as nat, i as nat),
            decreases to - i,
        {
            let idx = decimal_text((i + 1) as u64);
            s.append(idx.as_str());
            s.append(". ");
            s.append(urls[i].as_str());
            s.append("\n");
            i = i + 1;
        }
        pages.push(s);
        p = p + 1;
    }
    pages
}

/// Status line after a track started: how many failed entries were skipped,
/// and how many remain queued.
pub open spec fn queue_note_text(skipped: nat, remaining: nat) -> Seq<char> {
    if skipped > 0 {
        "再生失敗 "@ + decimal(skipped) + " 件をスキップ / キュー残り "@ + decimal(remaining) + " 件"@
    } else {
        "キュー残り "@ + decimal(remaining) + " 件"@
    }
}

pub fn queue_note(skipped: usize, remaining: usize) -> (r: String)
    ensures
        r@ == queue_note_text(skipped as nat, remaining as nat),
{
    let rem = decimal_text(remaining as u64);
    if skipped > 0 {
        let mut s = String::from_str("再生失敗 ");
        let sk = decimal_text(skipped as u64);
        s.append(sk.as_str());
        s.append(" 件をスキップ / キュー残り ");
        s.append(rem.as_str());
        s.append(" 件");
        s
    } else {
        let mut s = String::from_str("キュー残り ");
        s.append(rem.as_str());
        s.append(" 件");
        s
    }
}

/// The playback control buttons under a now-playing message.
#[derive(Clone, Copy, Debug, PartialEq, Eq, Structural)]
pub enum ControlButton {
    Pause,
    Resume,
    Skip,
    Stop,
}

pub open spec fn control_of(id: Seq<char>) -> Option<ControlButton> {
    if id == "music_pause"@ {
        Some(ControlButton::Pause)
    } else if id == "music_resume"@ {
        Some(ControlButton::Resume)
    } else if id == "music_skip"@ {
        Some(ControlButton::Skip)
    } else if id == "music_stop"@ {
        Some(ControlButton::Stop)
    } else {
        None
    }
}

/// The button that a component id names, if any.
pub fn parse_control(id: &str) -> (r: Option<ControlButton>)
    ensures
        r == control_of(id@),
{
    if same_text(id, "music_pause") {
        Some(ControlButton::Pause)
    } else if same_text(id, "music_resume") {
        Some(ControlButton::Resume)
    } else if same_text(id, "music_skip") {
        Some(ControlButton::Skip)
    } else if same_text(id, "music_stop") {
        Some(ControlButton::Stop)
    } else {
        None
    }
}

/// Whether a button is enabled while the session is in `state`: pause only
/// while playing, resume only while paused; skip and stop always.
pub fn control_enabled(button: ControlButton, state: PlayState) -> (r: bool)
    ensures
        r == match button {
            ControlButton::Pause => state == PlayState::Playing,
            ControlButton::Resume => state == PlayState::Paused,
            _ => true,
        },
{
    match button {
        ControlButton::Pause => state == PlayState::Playing,
        ControlButton::Resume => state == PlayState::Paused,
        _ => true,
    }
}

/// The title shown for a request: its metadata title, else its locator.
pub open spec fn shown_title(t: TrackRequest) -> Seq<char> {
    match t.meta.title {
        Some(x) => x@,
        None => t.url@,
    }
}

/// The link shown for a request: its canonical address, else its locator.
pub open spec fn shown_link(t: TrackRequest) -> Seq<char> {
    match t.meta.source_url {
        Some(x) => x@,
        None => t.url@,
    }
}

fn pick_text<'a>(o: &'a Option<String>, fallback: &'a String) -> (r: &'a String)
    ensures
        r@ == match o {
            Some(x) => x@,
            None => fallback@,
        },
{
    match o {
        Some(x) => x,
        None => fallback,
    }
}

/// The "Track" field of a now-playing card: `[title](link)`, capped.
pub fn track_field(t: &TrackRequest) -> (r: String)
    ensures
        r@ == truncated("["@ + shown_title(*t) + "]("@ + shown_link(*t) + ")"@, 1024),
{
    let mut s = String::from_str("[");
    s.append(pick_text(&t.meta.title, &t.url).as_str());
    s.append("](");
    s.append(pick_text(&t.meta.source_url, &t.url).as_str());
    s.append(")");
    truncate_embed_field_value(s.as_str())
}

/// The "Length" field of a now-playing card.
pub fn length_field(t: &TrackRequest) -> (r: String)
    ensures
        r@ == truncated(duration_text(t.meta.duration_ms), 1024),
{
    let d = format_duration(t.meta.duration_ms);
    truncate_embed_field_value(d.as_str())
}

/// The "Requested by" field of a now-playing card: a mention of the member.
pub fn requester_field(t: &TrackRequest) -> (r: String)
    ensures
        r@ == truncated("<@"@ + decimal(t.requested_by as nat) + ">"@, 1024),
{
    let mut s = String::from_str("<@");
    let id = decimal_text(t.requested_by);
    s.append(id.as_str());
    s.append(">");
    truncate_embed_field_value(s.as_str())
}

/// The thumbnail of a now-playing card: the reported one, else one derived
/// from a YouTube link.
pub fn track_thumbnail(t: &TrackRequest) -> (r: Option<String>)
    ensures
        match t.meta.thumbnail {
            Some(x) => r == Some(x),
            None => match r {
                Some(y) => thumbnail_of(shown_link(*t)) == Some(y@),
                None => thumbnail_of(shown_link(*t)) is None,
            },
        },
{
    match &t.meta.thumbnail {
        Some(x) => Some(x.clone()),
        None => youtube_thumbnail(pick_text(&t.meta.source_url, &t.url).as_str()),
    }
}

/// A queued request as one listing line: `[title](link) • ⏱️ mm:ss`.
pub open spec fn entry_text(t: TrackRequest) -> Seq<char> {
    "["@ + shown_title(t) + "]("@ + shown_link(t) + ") • ⏱️ "@ + duration_text(t.meta.duration_ms)
}

pub fn entry_line(t: &TrackRequest) -> (r: String)
    ensures
        r@ == entry_text(*t),
{
    let mut s = String::from_str("[");
    s.append(pick_text(&t.meta.title, &t.url).as_str());
    s.append("](");
    s.append(pick_text(&t.meta.source_url, &t.url).as_str());
    s.append(") • ⏱️ ");
    let d = format_duration(t.meta.duration_ms);
    s.append(d.as_str());
    s
}

/// Number of upcoming entries that a queue listing shows.
pub const UP_NEXT_MAX: usize = 10;

/// Lines for the entries after the first, numbered from one, at most
/// `UP_NEXT_MAX` of them; `shown` is how many are listed so far.
pub open spec fn up_next_lines(items: Seq<TrackRequest>, shown: nat) -> Seq<char>
    decreases shown,
{
    if shown == 0 {
        Seq::empty()
    } else {
        up_next_lines(items, (shown - 1) as nat) + decimal(shown) + ". "@ + entry_text(items[shown as int])
            + "\n"@
    }
}

/// How many upcoming entries a listing of `len` queued requests shows.
pub open spec fn up_next_count(len: nat) -> nat {
    if len <= 1 {
        0
    } else if len - 1 <= UP_NEXT_MAX {
        (len - 1) as nat
    } else {
        UP_NEXT_MAX as nat
    }
}

/// The "Up Next" text of a queue listing: the entries after the first, at
/// most `UP_NEXT_MAX`, one numbered line each.
pub fn up_next(items: &Vec<TrackRequest>) -> (r: String)
    ensures
        r@ == up_next_lines(items@, up_next_count(items@.len())),
{
    let n = items.len();
    let count: usize = if n <= 1 {
        0
    } else if n - 1 <= UP_NEXT_MAX {
        n - 1
    } else {
        UP_NEXT_MAX
    };
    let mut s = String::new();
    let mut k: usize = 0;
    while k < count
        invariant
            n == items@.len(),
            count == up_next_count(n as nat),
            k <= count,
            s@ == up_next_lines(items@, k as nat),
        decreases count - k,
    {
        k = k + 1;
        let num = decimal_text(k as u64);
        s.append(num.as_str());
        s.append(". ");
        let line = entry_line(&items[k]);
        s.append(line.as_str());
        s.append("\n");
    }
    s
}

} // verus!
