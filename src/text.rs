//! Character-level text helpers: substring search and length-capped text.
use vstd::prelude::*;

verus! {

/// `pat` occurs in `s` at position `i`.
pub open spec fn occurs_at(s: Seq<char>, pat: Seq<char>, i: int) -> bool {
    0 <= i && i + pat.len() <= s.len() && s.subrange(i, i + pat.len()) == pat
}

/// `pat` occurs somewhere in `s`.
pub open spec fn contains_text(s: Seq<char>, pat: Seq<char>) -> bool {
    exists|i: int| occurs_at(s, pat, i)
}

/// The characters of `s`, in order.
pub fn chars_of(s: &str) -> (r: Vec<char>)
    ensures
        r@ == s@,
{
    let n = s.unicode_len();
    let mut out: Vec<char> = Vec::new();
    let mut i: usize = 0;
    while i < n
        invariant
            n == s@.len(),
            i <= n,
            out@ == s@.subrange(0, i as int),
        decreases n - i,
    {
        out.push(s.get_char(i));
        i = i + 1;
        assert(out@ =~= s@.subrange(0, i as int));
    }
    assert(out@ =~= s@);
    out
}

fn occurs_here(s: &Vec<char>, pat: &Vec<char>, i: usize) -> (r: bool)
    requires
        i + pat@.len() <= s@.len(),
    ensures
        r == occurs_at(s@, pat@, i as int),
{
    let n = s.len();
    let mut j: usize = 0;
    while j < pat.len()
        invariant
            n == s@.len(),
            i + pat@.len() <= s@.len(),
            j <= pat@.len(),
            forall|t: int| 0 <= t < j ==> s@[i + t] == pat@[t],
        decreases pat@.len() - j,
    {
        if s[i + j] != pat[j] {
            assert(s@.subrange(i as int, i + pat@.len())[j as int] != pat@[j as int]);
            return false;
        }
        j = j + 1;
    }
    assert(s@.subrange(i as int, i + pat@.len()) =~= pat@);
    true
}

/// Whether `pat` occurs in `s`.
pub fn contains_seq(s: &Vec<char>, pat: &Vec<char>) -> (r: bool)
    ensures
        r == contains_text(s@, pat@),
{
    if pat.len() > s.len() {
        assert(forall|i: int| !occurs_at(s@, pat@, i));
        return false;
    }
    let last = s.len() - pat.len();
    let mut i: usize = 0;
    while i < last
        invariant
            last == s@.len() - pat@.len(),
            i <= last,
            forall|t: int| 0 <= t < i ==> !occurs_at(s@, pat@, t),
        decreases last - i,
    {
        if occurs_here(s, pat, i) {
            return true;
        }
        i = i + 1;
    }
    if occurs_here(s, pat, last) {
        return true;
    }
    assert(forall|t: int| !occurs_at(s@, pat@, t));
    false
}

/// Whether `pat` occurs in `s`.
pub fn contains_str(s: &str, pat: &str) -> (r: bool)
    ensures
        r == contains_text(s@, pat@),
{
    let sc = chars_of(s);
    let pc = chars_of(pat);
    contains_seq(&sc, &pc)
}

/// `s` cut to at most `max_chars` characters; a cut text ends in '…'.
pub open spec fn truncated(s: Seq<char>, max_chars: nat) -> Seq<char> {
    if max_chars == 0 {
        Seq::empty()
    } else if s.len() <= max_chars {
        s
    } else {
        s.subrange(0, max_chars - 1).push('…')
    }
}

/// Caps `s` at `max_chars` characters, marking a cut with a trailing '…'.
pub fn truncate_chars(s: &str, max_chars: usize) -> (r: String)
    ensures
        r@ == truncated(s@, max_chars as nat),
        r@.len() <= max_chars,
{
    if max_chars == 0 {
        return String::new();
    }
    let len = s.unicode_len();
    if len <= max_chars {
        return s.to_owned();
    }
    let keep = max_chars - 1;
    let mut out = s.substring_char(0, keep).to_owned();
    let mark = "…";
    proof {
        reveal_strlit("…");
    }
    out.append(mark);
    assert(out@ =~= truncated(s@, max_chars as nat));
    out
}

/// Caps an embed title (256 characters).
pub fn truncate_embed_title(s: &str) -> (r: String)
    ensures
        r@ == truncated(s@, 256),
{
    truncate_chars(s, 256)
}

/// Caps an embed description (4096 characters).
pub fn truncate_embed_description(s: &str) -> (r: String)
    ensures
        r@ == truncated(s@, 4096),
{
    truncate_chars(s, 4096)
}

/// Caps an embed field value (1024 characters).
pub fn truncate_embed_field_value(s: &str) -> (r: String)
    ensures
        r@ == truncated(s@, 1024),
{
    truncate_chars(s, 1024)
}

/// `s` without leading and trailing whitespace, as `str::trim` gives it.
pub uninterp spec fn trim_of(s: Seq<char>) -> Seq<char>;

/// Relies on `str::trim`: the result depends on the text alone.
#[verifier::external_body]
pub(crate) fn trim_str(s: &str) -> (r: &str)
    ensures
        r@ == trim_of(s@),
{
    s.trim()
}

/// Empty or whitespace only.
pub open spec fn blank(s: Seq<char>) -> bool {
    trim_of(s).len() == 0
}

pub fn is_blank(s: &str) -> (r: bool)
    ensures
        r == blank(s@),
{
    trim_str(s).is_empty()
}

/// Whether two texts are equal.
pub fn same_text(a: &str, b: &str) -> (r: bool)
    ensures
        r == (a@ == b@),
{
    String::from_str(a) == String::from_str(b)
}

/// Whether `s` begins with `prefix`.
pub fn starts_with_text(s: &str, prefix: &str) -> (r: bool)
    ensures
        r == occurs_at(s@, prefix@, 0),
{
    let sc = chars_of(s);
    let pc = chars_of(prefix);
    if pc.len() > sc.len() {
        return false;
    }
    occurs_here(&sc, &pc, 0)
}

} // verus!
