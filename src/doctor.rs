//! Reading a tool's version out of what `<tool> --version` printed.
use vstd::prelude::*;
use crate::http::{lines_of, split_lines};
use crate::number::is_digit;
use crate::text::{has_prefix, is_whitespace, is_ws, slice_of, text_of, trim, trimmed};

verus! {

/// The text `String::from_utf8_lossy` makes of `b`.
pub uninterp spec fn utf8_lossy(b: Seq<u8>) -> Seq<char>;

/// Relies on `String::from_utf8_lossy`: the result depends on the bytes alone.
#[verifier::external_body]
fn lossy_text(b: &[u8]) -> (r: String)
    ensures
        r@ == utf8_lossy(b@),
{
    String::from_utf8_lossy(b).to_string()
}

/// Length of the run of non-whitespace characters that starts `l`.
pub open spec fn word_len(l: Seq<char>) -> nat
    decreases l.len(),
{
    if l.len() == 0 || is_ws(l[0]) {
        0
    } else {
        1 + word_len(l.drop_first())
    }
}

/// The words of `l`, as `str::split_whitespace` yields them.
pub open spec fn words(l: Seq<char>) -> Seq<Seq<char>>
    decreases l.len(),
{
    if l.len() == 0 {
        Seq::empty()
    } else if is_ws(l[0]) {
        words(l.drop_first())
    } else if word_len(l) == 0 || word_len(l) > l.len() {
        Seq::empty()
    } else {
        seq![l.subrange(0, word_len(l) as int)] + words(l.subrange(word_len(l) as int, l.len() as int))
    }
}

/// `s` without any number of leading copies of `p`.
pub open spec fn strip_front(s: Seq<char>, p: Seq<char>) -> Seq<char>
    decreases s.len(),
{
    if p.len() > 0 && has_prefix(s, p) {
        strip_front(s.subrange(p.len() as int, s.len() as int), p)
    } else {
        s
    }
}

/// `s` without any number of trailing `c`.
pub open spec fn strip_back(s: Seq<char>, c: char) -> Seq<char>
    decreases s.len(),
{
    if s.len() > 0 && s.last() == c {
        strip_back(s.drop_last(), c)
    } else {
        s
    }
}

/// A word with leading `v`s and `go`s and trailing commas removed.
pub open spec fn cleaned(w: Seq<char>) -> Seq<char> {
    strip_back(strip_front(strip_front(w, seq!['v']), seq!['g', 'o']), ',')
}

/// Looks like a version: holds a dot and starts with a digit.
pub open spec fn version_like(w: Seq<char>) -> bool {
    w.len() > 0 && is_digit(w[0]) && exists|i: int| 0 <= i < w.len() && w[i] == '.'
}

/// The first cleaned word that looks like a version.
pub open spec fn first_version(ws: Seq<Seq<char>>) -> Option<Seq<char>>
    decreases ws.len(),
{
    if ws.len() == 0 {
        None
    } else if version_like(cleaned(ws[0])) {
        Some(cleaned(ws[0]))
    } else {
        first_version(ws.drop_first())
    }
}

/// The version in a tool's output: from its first line, the first word
/// that looks like a version, else the whole line trimmed; nothing for no output.
pub open spec fn version_in(text: Seq<char>) -> Option<Seq<char>> {
    if lines_of(text).len() == 0 {
        None
    } else {
        let line = lines_of(text)[0];
        match first_version(words(line)) {
            Some(v) => Some(v),
            None => Some(trim(line)),
        }
    }
}

fn strip_front_chars(s: Vec<char>, p: &Vec<char>) -> (r: Vec<char>)
    ensures
        r@ == strip_front(s@, p@),
    decreases s@.len(),
{
    if p.len() > 0 && crate::text::starts_with(&s, p) {
        let sl = s.len();
        let rest = slice_of(&s, p.len(), sl);
        strip_front_chars(rest, p)
    } else {
        s
    }
}

fn strip_back_char(s: Vec<char>, c: char) -> (r: Vec<char>)
    ensures
        r@ == strip_back(s@, c),
    decreases s@.len(),
{
    if s.len() > 0 && s[s.len() - 1] == c {
        let sl = s.len();
        let rest = slice_of(&s, 0, sl - 1);
        assert(rest@ =~= s@.drop_last());
        strip_back_char(rest, c)
    } else {
        s
    }
}

fn clean_word(w: Vec<char>) -> (r: Vec<char>)
    ensures
        r@ == cleaned(w@),
{
    let v = vec!['v'];
    let go = vec!['g', 'o'];
    assert(v@ =~= seq!['v']);
    assert(go@ =~= seq!['g', 'o']);
    let a = strip_front_chars(w, &v);
    let b = strip_front_chars(a, &go);
    strip_back_char(b, ',')
}

fn looks_like_version(w: &Vec<char>) -> (r: bool)
    ensures
        r == version_like(w@),
{
    if w.len() == 0 || !('0' <= w[0] && w[0] <= '9') {
        return false;
    }
    let mut k: usize = 0;
    while k < w.len()
        invariant
            k <= w@.len(),
            w@.len() > 0 && is_digit(w@[0]),
            forall|i: int| 0 <= i < k ==> w@[i] != '.',
        decreases w@.len() - k,
    {
        if w[k] == '.' {
            assert(is_digit(w@[0]));
            assert(0 <= k < w@.len() && w@[k as int] == '.');
            return true;
        }
        k = k + 1;
    }
    false
}

/// The words of `l`, in order.
fn split_words(l: &Vec<char>) -> (r: Vec<Vec<char>>)
    ensures
        r@.map_values(|w: Vec<char>| w@) == words(l@),
{
    let n = l.len();
    let mut out: Vec<Vec<char>> = Vec::new();
    let mut i: usize = 0;
    assert(l@.subrange(0, n as int) =~= l@);
    while i < n
        invariant
            i <= n == l@.len(),
            words(l@) == out@.map_values(|w: Vec<char>| w@) + words(l@.subrange(i as int, n as int)),
        decreases n - i,
    {
        let ghost rest = l@.subrange(i as int, n as int);
        if is_whitespace(l[i]) {
            assert(rest.drop_first() =~= l@.subrange(i + 1, n as int));
            i = i + 1;
        } else {
            let mut j = i;
            while j < n && !is_whitespace(l[j])
                invariant
                    i <= j <= n == l@.len(),
                    rest == l@.subrange(i as int, n as int),
                    forall|m: int| i <= m < j ==> !is_ws(l@[m]),
                decreases n - j,
            {
                j = j + 1;
            }
            proof {
                lemma_word_len(rest, (j - i) as int);
            }
            let w = slice_of(l, i, j);
            let ghost before = out@.map_values(|w: Vec<char>| w@);
            out.push(w);
            assert(out@.map_values(|w: Vec<char>| w@) =~= before + seq![w@]);
            assert(rest.subrange(0, (j - i) as int) =~= w@);
            assert(rest.subrange((j - i) as int, rest.len() as int) =~= l@.subrange(j as int, n as int));
            assert(before + (seq![w@] + words(l@.subrange(j as int, n as int))) =~= (before + seq![w@]) + words(l@.subrange(j as int, n as int)));
            i = j;
        }
    }
    assert(words(l@.subrange(n as int, n as int)) == Seq::<Seq<char>>::empty()) by {
        assert(l@.subrange(n as int, n as int) =~= Seq::<char>::empty());
    }
    assert(out@.map_values(|w: Vec<char>| w@) + Seq::<Seq<char>>::empty() =~= out@.map_values(|w: Vec<char>| w@));
    out
}

proof fn lemma_word_len(s: Seq<char>, k: int)
    requires
        0 <= k <= s.len(),
        forall|m: int| 0 <= m < k ==> !is_ws(s[m]),
        k == s.len() || is_ws(s[k]),
    ensures
        word_len(s) == k,
    decreases k,
{
    if k > 0 {
        lemma_word_len(s.drop_first(), k - 1);
    }
}

/// The version in a tool's output text.
pub fn version_from_text(text: &str) -> (r: Option<String>)
    ensures
        crate::http::opt_view(r) == version_in(text@),
{
    let lines = split_lines(text);
    if lines.len() == 0 {
        return None;
    }
    assert(lines@.map_values(|l: Vec<char>| l@)[0] == lines@[0]@);
    let line = &lines[0];
    assert(line@ == lines_of(text@)[0]);
    let ws = split_words(line);
    let ghost wv = ws@.map_values(|w: Vec<char>| w@);
    let mut k: usize = 0;
    assert(wv.subrange(0, wv.len() as int) =~= wv);
    while k < ws.len()
        invariant
            k <= ws@.len(),
            wv == ws@.map_values(|w: Vec<char>| w@),
            wv == words(line@),
            lines_of(text@).len() > 0,
            line@ == lines_of(text@)[0],
            first_version(wv) == first_version(wv.subrange(k as int, wv.len() as int)),
        decreases ws@.len() - k,
    {
        assert(wv.subrange(k as int, wv.len() as int)[0] == ws@[k as int]@);
        assert(wv.subrange(k as int, wv.len() as int).drop_first() =~= wv.subrange(k + 1, wv.len() as int));
        let wl = ws[k].len();
        let c = clean_word(slice_of(&ws[k], 0, wl));
        assert(ws@[k as int]@.subrange(0, wl as int) =~= ws@[k as int]@);
        if looks_like_version(&c) {
            let ghost sub = wv.subrange(k as int, wv.len() as int);
            assert(sub[0] == ws@[k as int]@);
            assert(c@ == cleaned(sub[0]));
            assert(first_version(sub) == Some(cleaned(sub[0])));
            assert(line@ == lines_of(text@)[0]);
            return Some(text_of(c.as_slice()));
        }
        k = k + 1;
    }
    assert(wv.subrange(k as int, wv.len() as int) =~= Seq::<Seq<char>>::empty());
    Some(text_of(trimmed(line).as_slice()))
}

/// The version in what a tool printed, read as UTF-8 with invalid bytes replaced.
pub fn extract_version(output: &[u8]) -> (r: Option<String>)
    ensures
        crate::http::opt_view(r) == version_in(utf8_lossy(output@)),
{
    let text = lossy_text(output);
    version_from_text(text.as_str())
}

} // verus!
