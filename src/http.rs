//! HTTP/1.1 as the validators speak it: requests assembled by hand and
//! responses parsed permissively, so that a non-conformant server can still
//! be reported on precisely.
use vstd::prelude::*;
use crate::number::{int_in, parse_u16};
use crate::text::{chars_of, dec, dec_u64, lit, fold, same, slice_of, text_of, fold_chars, trim, trimmed};

verus! {

/// Index of the first `'\n'` at or after `i`, or the length of `s`.
pub open spec fn line_end(s: Seq<char>, i: int) -> int
    decreases s.len() - i,
{
    if i >= s.len() {
        s.len() as int
    } else if s[i] == '\n' {
        i
    } else {
        line_end(s, i + 1)
    }
}

/// The line that starts at `i`, without its terminator: `'\n'`, or `"\r\n"`.
pub open spec fn line_at(s: Seq<char>, i: int) -> Seq<char> {
    let e = line_end(s, i);
    let l = s.subrange(i, e);
    if e < s.len() && l.len() > 0 && l.last() == '\r' {
        l.drop_last()
    } else {
        l
    }
}

/// A line that ends the header block.
pub open spec fn is_blank(l: Seq<char>) -> bool {
    l.len() == 0 || l == seq!['\r']
}

/// Index of the first occurrence of `c` in `l`, if any.
pub open spec fn first_of(l: Seq<char>, c: char) -> Option<int> {
    if exists|i: int| 0 <= i < l.len() && l[i] == c {
        Some(choose|i: int| 0 <= i < l.len() && l[i] == c && forall|j: int| 0 <= j < i ==> l[j] != c)
    } else {
        None
    }
}

/// A header line `name: value` read as (lower-cased trimmed name, trimmed value).
pub open spec fn header_of(l: Seq<char>) -> Option<(Seq<char>, Seq<char>)> {
    match first_of(l, ':') {
        Some(c) => Some((fold(trim(l.subrange(0, c))), trim(l.subrange(c + 1, l.len() as int)))),
        None => None,
    }
}

/// The headers of the lines from `i` up to the first blank line.
pub open spec fn headers_from(s: Seq<char>, i: int) -> Seq<(Seq<char>, Seq<char>)>
    decreases s.len() + 1 - i,
{
    if i < 0 || i >= s.len() || line_end(s, i) < i || line_end(s, i) > s.len() {
        Seq::empty()
    } else if is_blank(line_at(s, i)) {
        Seq::empty()
    } else {
        let rest = headers_from(s, line_end(s, i) + 1);
        match header_of(line_at(s, i)) {
            Some(h) => seq![h] + rest,
            None => rest,
        }
    }
}

/// Everything after the blank line that ends the headers, verbatim.
pub open spec fn body_from(s: Seq<char>, i: int) -> Seq<char>
    decreases s.len() + 1 - i,
{
    if i < 0 || i >= s.len() || line_end(s, i) < i || line_end(s, i) > s.len() {
        Seq::empty()
    } else if is_blank(line_at(s, i)) {
        let e = line_end(s, i);
        if e < s.len() {
            s.subrange(e + 1, s.len() as int)
        } else {
            Seq::empty()
        }
    } else {
        body_from(s, line_end(s, i) + 1)
    }
}

/// The status line split into at most three parts at spaces, as `splitn(3, ' ')`
/// does: (code text, status text), or `None` when it holds no space.
pub open spec fn status_parts(l: Seq<char>) -> Option<(Seq<char>, Seq<char>)> {
    match first_of(l, ' ') {
        None => None,
        Some(a) => {
            let rest = l.subrange(a + 1, l.len() as int);
            match first_of(rest, ' ') {
                None => Some((rest, Seq::empty())),
                Some(b) => Some((rest.subrange(0, b), rest.subrange(b + 1, rest.len() as int))),
            }
        },
    }
}

/// A parsed response, mathematically: status code, status text, headers, body.
pub type ResponseView = (u16, Seq<char>, Seq<(Seq<char>, Seq<char>)>, Seq<char>);

/// What `HttpResponse::parse` makes of `raw`.
pub open spec fn response_of(raw: Seq<char>) -> Result<ResponseView, Seq<char>> {
    if raw.len() == 0 {
        Err("empty response"@)
    } else {
        let l = line_at(raw, 0);
        match status_parts(l) {
            None => Err("invalid status line: "@ + l),
            Some((code, text)) => {
                let c = int_in(code, false, 0, u16::MAX as int);
                if c is Some {
                    Ok(
                        (
                            c->0 as u16,
                            text,
                            headers_from(raw, line_end(raw, 0) + 1),
                            body_from(raw, line_end(raw, 0) + 1),
                        ),
                    )
                } else {
                    Err("invalid status code: "@ + code)
                }
            }
        }
    }
}

pub open spec fn pair_view(p: (String, String)) -> (Seq<char>, Seq<char>) {
    (p.0@, p.1@)
}

pub open spec fn pairs_view(h: Seq<(String, String)>) -> Seq<(Seq<char>, Seq<char>)> {
    h.map_values(|p: (String, String)| pair_view(p))
}

/// Value of the first header named `key`.
pub open spec fn lookup(h: Seq<(Seq<char>, Seq<char>)>, key: Seq<char>) -> Option<Seq<char>>
    decreases h.len(),
{
    if h.len() == 0 {
        None
    } else if h[0].0 == key {
        Some(h[0].1)
    } else {
        lookup(h.drop_first(), key)
    }
}

/// An HTTP response, split into its parts.
#[derive(Debug)]
pub struct HttpResponse {
    pub status_code: u16,
    pub status_text: String,
    pub headers: Vec<(String, String)>,
    pub body: String,
}

/// Index of the first `c` at or after `i`, or the length of `v`.
fn next_index(v: &Vec<char>, i: usize, c: char) -> (r: usize)
    requires
        i <= v@.len(),
    ensures
        i <= r <= v@.len(),
        forall|j: int| i <= j < r ==> v@[j] != c,
        r < v@.len() ==> v@[r as int] == c,
{
    let mut k = i;
    while k < v.len() && v[k] != c
        invariant
            i <= k <= v@.len(),
            forall|j: int| i <= j < k ==> v@[j] != c,
        decreases v@.len() - k,
    {
        k = k + 1;
    }
    k
}

proof fn lemma_line_end(s: Seq<char>, i: int, r: int)
    requires
        0 <= i <= r <= s.len(),
        forall|j: int| i <= j < r ==> s[j] != '\n',
        r < s.len() ==> s[r] == '\n',
    ensures
        line_end(s, i) == r,
    decreases r - i,
{
    if i < r {
        lemma_line_end(s, i + 1, r);
    }
}

proof fn lemma_first_of(l: Seq<char>, c: char, r: int)
    requires
        0 <= r <= l.len(),
        forall|j: int| 0 <= j < r ==> l[j] != c,
        r < l.len() ==> l[r] == c,
    ensures
        r < l.len() ==> first_of(l, c) == Some(r),
        r == l.len() ==> first_of(l, c) is None,
{
    if r < l.len() {
        let w = choose|i: int| 0 <= i < l.len() && l[i] == c && forall|j: int| 0 <= j < i ==> l[j] != c;
        assert(0 <= r < l.len() && l[r] == c);
        assert(w == r) by {
            if w < r {} else if w > r {}
        }
    }
}

/// The line starting at `i`, and the index of its end.
fn line_from(v: &Vec<char>, i: usize) -> (r: (Vec<char>, usize))
    requires
        i <= v@.len(),
    ensures
        r.1 == line_end(v@, i as int),
        r.0@ == line_at(v@, i as int),
{
    let e = next_index(v, i, '\n');
    proof {
        lemma_line_end(v@, i as int, e as int);
    }
    if e < v.len() && e > i && v[e - 1] == '\r' {
        let l = slice_of(v, i, e - 1);
        assert(v@.subrange(i as int, e as int).drop_last() =~= l@);
        (l, e)
    } else {
        (slice_of(v, i, e), e)
    }
}

fn first_index(l: &Vec<char>, c: char) -> (r: Option<usize>)
    ensures
        r is Some <==> first_of(l@, c) is Some,
        r is Some ==> r->0 as int == first_of(l@, c)->0 && r->0 < l@.len(),
{
    let k = next_index(l, 0, c);
    proof {
        lemma_first_of(l@, c, k as int);
    }
    if k < l.len() {
        Some(k)
    } else {
        None
    }
}

fn is_blank_line(l: &Vec<char>) -> (r: bool)
    ensures
        r == is_blank(l@),
{
    if l.len() == 0 {
        true
    } else if l.len() == 1 && l[0] == '\r' {
        assert(l@ =~= seq!['\r']);
        true
    } else {
        false
    }
}

fn header_line(l: &Vec<char>) -> (r: Option<(String, String)>)
    ensures
        r is Some <==> header_of(l@) is Some,
        r is Some ==> pair_view(r->0) == header_of(l@)->0,
{
    match first_index(l, ':') {
        Some(c) => {
            let k = trimmed(&slice_of(l, 0, c));
            let ll = l.len();
            let v = trimmed(&slice_of(l, c + 1, ll));
            Some((text_of(fold_chars(&k).as_slice()), text_of(v.as_slice())))
        },
        None => None,
    }
}

proof fn lemma_line_end_ge(s: Seq<char>, i: int)
    ensures
        0 <= i <= s.len() ==> i <= line_end(s, i) <= s.len(),
    decreases s.len() - i,
{
    if 0 <= i < s.len() && s[i] != '\n' {
        lemma_line_end_ge(s, i + 1);
    }
}

/// The headers after the status line that ends at `e0`, and where the body starts.
#[verifier::rlimit(100)]
fn header_block(v: &Vec<char>, e0: usize) -> (r: (Vec<(String, String)>, usize))
    requires
        e0 <= v@.len(),
    ensures
        headers_from(v@, e0 + 1) == pairs_view(r.0@),
        r.1 <= v@.len(),
        body_from(v@, e0 + 1) == v@.subrange(r.1 as int, v@.len() as int),
{
    let ghost s = v@;
    let ghost h0: int = e0 + 1;
    let mut headers: Vec<(String, String)> = Vec::new();
    let mut body_start: usize = v.len();
    let n = v.len();
    if e0 >= n {
        assert(pairs_view(headers@) =~= Seq::<(Seq<char>, Seq<char>)>::empty());
        assert(s.subrange(n as int, n as int) =~= Seq::<char>::empty());
        return (headers, body_start);
    }
    let mut i: usize = e0 + 1;
    loop
        invariant_except_break
            headers_from(s, h0) == pairs_view(headers@) + headers_from(s, i as int),
            body_from(s, h0) == body_from(s, i as int),
        invariant
            s == v@,
            n == v@.len(),
            h0 <= i <= n,
        ensures
            headers_from(s, h0) == pairs_view(headers@),
            body_start <= n,
            body_from(s, h0) == s.subrange(body_start as int, n as int),
        decreases n - i,
    {
        if i >= n {
            body_start = n;
            assert(pairs_view(headers@) + Seq::<(Seq<char>, Seq<char>)>::empty()
                =~= pairs_view(headers@));
            assert(s.subrange(n as int, n as int) =~= Seq::<char>::empty());
            break;
        }
        let (line, e) = line_from(v, i);
        proof {
            lemma_line_end_ge(s, i as int);
        }
        if is_blank_line(&line) {
            body_start = if e < n {
                e + 1
            } else {
                n
            };
            assert(pairs_view(headers@) + Seq::<(Seq<char>, Seq<char>)>::empty()
                =~= pairs_view(headers@));
            assert(s.subrange(n as int, n as int) =~= Seq::<char>::empty());
            break;
        }
        let ghost before = pairs_view(headers@);
        let ghost rest = headers_from(s, e + 1);
        assert(headers_from(s, i as int) == match header_of(line@) {
            Some(h) => seq![h] + rest,
            None => rest,
        });
        assert(body_from(s, i as int) == body_from(s, e + 1));
        match header_line(&line) {
            Some(h) => {
                headers.push(h);
                assert(pairs_view(headers@) =~= before + seq![header_of(line@)->0]);
                assert(before + (seq![header_of(line@)->0] + rest) =~= (before + seq![
                    header_of(line@)->0,
                ]) + rest);
            },
            None => {},
        }
        assert(headers_from(s, h0) == pairs_view(headers@) + rest);
        if e >= n {
            body_start = n;
            assert(rest == Seq::<(Seq<char>, Seq<char>)>::empty());
            assert(pairs_view(headers@) + Seq::<(Seq<char>, Seq<char>)>::empty()
                =~= pairs_view(headers@));
            assert(s.subrange(n as int, n as int) =~= Seq::<char>::empty());
            break;
        }
        assert(e + 1 <= n);
        i = e + 1;
        assert(headers_from(s, h0) == pairs_view(headers@) + headers_from(s, i as int));
    }
    (headers, body_start)
}

/// The status code and status text of a status line.
fn status_line(l: &Vec<char>) -> (r: Result<(u16, Vec<char>), String>)
    ensures
        match status_parts(l@) {
            None => r is Err && r->Err_0@ == "invalid status line: "@ + l@,
            Some((code, text)) => {
                let c = int_in(code, false, 0, u16::MAX as int);
                if c is Some {
                    r is Ok && r->Ok_0.0 as int == c->0 && r->Ok_0.1@ == text
                } else {
                    r is Err && r->Err_0@ == "invalid status code: "@ + code
                }
            },
        },
{
    let (code, text) = match first_index(l, ' ') {
        None => {
            let mut m = lit("invalid status line: ");
            m.append(text_of(l.as_slice()).as_str());
            return Err(m);
        },
        Some(a) => {
            let ll = l.len();
            let rest = slice_of(l, a + 1, ll);
            match first_index(&rest, ' ') {
                None => {
                    let empty: Vec<char> = Vec::new();
                    assert(empty@ =~= Seq::<char>::empty());
                    (rest, empty)
                },
                Some(b) => {
                    let rl = rest.len();
                    (slice_of(&rest, 0, b), slice_of(&rest, b + 1, rl))
                },
            }
        },
    };
    match parse_u16(&code) {
        Some(c) => Ok((c, text)),
        None => {
            let mut m = lit("invalid status code: ");
            m.append(text_of(code.as_slice()).as_str());
            Err(m)
        },
    }
}

impl HttpResponse {
    pub open spec fn model(&self) -> ResponseView {
        (self.status_code, self.status_text@, pairs_view(self.headers@), self.body@)
    }

    /// Parses a raw response: status line, headers up to the first blank
    /// line (names lower-cased), and the rest as the body, verbatim.
    pub fn parse(raw: &str) -> (r: Result<HttpResponse, String>)
        ensures
            match response_of(raw@) {
                Ok(m) => r is Ok && r->Ok_0.model() == m,
                Err(e) => r is Err && r->Err_0@ == e,
            },
    {
        let v = chars_of(raw);
        if v.len() == 0 {
            return Err(lit("empty response"));
        }
        let (l, e0) = line_from(&v, 0);
        proof {
            lemma_line_end_ge(v@, 0);
        }
        let (status_code, text) = match status_line(&l) {
            Ok(x) => x,
            Err(m) => {
                return Err(m);
            },
        };
        let (headers, body_start) = header_block(&v, e0);
        let n = v.len();
        let body = text_of(slice_of(&v, body_start, n).as_slice());
        Ok(
            HttpResponse {
                status_code,
                status_text: text_of(text.as_slice()),
                headers,
                body,
            },
        )
    }
}

impl HttpResponse {
    /// The value of the first header named `name`, compared case-insensitively.
    pub fn get_header(&self, name: &str) -> (r: Option<&str>)
        ensures
            match lookup(pairs_view(self.headers@), fold(name@)) {
                Some(v) => r is Some && r->0@ == v,
                None => r is None,
            },
    {
        let key = fold_chars(&chars_of(name));
        let mut k: usize = 0;
        assert(pairs_view(self.headers@).subrange(0, self.headers@.len() as int) =~= pairs_view(
            self.headers@,
        ));
        while k < self.headers.len()
            invariant
                k <= self.headers@.len(),
                key@ == fold(name@),
                lookup(pairs_view(self.headers@), key@) == lookup(
                    pairs_view(self.headers@).subrange(k as int, self.headers@.len() as int),
                    key@,
                ),
            decreases self.headers@.len() - k,
        {
            let ghost rest = pairs_view(self.headers@).subrange(k as int, self.headers@.len() as int);
            assert(rest.drop_first() =~= pairs_view(self.headers@).subrange(k + 1, self.headers@.len() as int));
            assert(rest[0] == pair_view(self.headers@[k as int]));
            if same(&chars_of(self.headers[k].0.as_str()), &key) {
                return Some(self.headers[k].1.as_str());
            }
            k = k + 1;
        }
        None
    }

    pub fn has_header(&self, name: &str) -> (r: bool)
        ensures
            r == lookup(pairs_view(self.headers@), fold(name@)) is Some,
    {
        self.get_header(name).is_some()
    }
}

/// Number of bytes of `s` in UTF-8.
pub open spec fn utf8_len(s: Seq<char>) -> nat
    decreases s.len(),
{
    if s.len() == 0 {
        0
    } else {
        utf8_len(s.drop_last()) + char_width(s.last())
    }
}

pub open spec fn char_width(c: char) -> nat {
    if (c as u32) < 0x80 {
        1
    } else if (c as u32) < 0x800 {
        2
    } else if (c as u32) < 0x10000 {
        3
    } else {
        4
    }
}

fn utf8_length(s: &str) -> (r: u64)
    requires
        s@.len() <= 0x1000_0000_0000,
    ensures
        r == utf8_len(s@),
{
    let v = chars_of(s);
    let mut n: u64 = 0;
    let mut k: usize = 0;
    while k < v.len()
        invariant
            k <= v@.len() <= 0x1000_0000_0000,
            v@ == s@,
            n == utf8_len(v@.subrange(0, k as int)),
            n <= 4 * k,
        decreases v@.len() - k,
    {
        assert(v@.subrange(0, k + 1).drop_last() =~= v@.subrange(0, k as int));
        let c = v[k] as u32;
        let w: u64 = if c < 0x80 {
            1
        } else if c < 0x800 {
            2
        } else if c < 0x10000 {
            3
        } else {
            4
        };
        n = n + w;
        k = k + 1;
    }
    assert(v@.subrange(0, k as int) =~= v@);
    n
}

/// The extra header lines of a request.
pub open spec fn header_block_text(h: Seq<(Seq<char>, Seq<char>)>) -> Seq<char>
    decreases h.len(),
{
    if h.len() == 0 {
        Seq::empty()
    } else {
        header_block_text(h.drop_last()) + h.last().0 + ": "@ + h.last().1 + "\r\n"@
    }
}

/// The bytes a request puts on the wire, as text.
pub open spec fn request_text(
    method: Seq<char>,
    path: Seq<char>,
    headers: Seq<(Seq<char>, Seq<char>)>,
    body: Option<Seq<char>>,
) -> Seq<char> {
    method + " "@ + path + " HTTP/1.1\r\n"@ + "Host: 127.0.0.1\r\n"@ + "Connection: close\r\n"@
        + header_block_text(headers) + match body {
        Some(b) => "Content-Length: "@ + dec(utf8_len(b) as int) + "\r\n"@,
        None => Seq::empty(),
    } + "\r\n"@ + match body {
        Some(b) => b,
        None => Seq::empty(),
    }
}

/// A request to send: method, path, extra headers and optional body.
#[derive(Debug)]
pub struct HttpRequest {
    pub method: String,
    pub path: String,
    pub headers: Vec<(String, String)>,
    pub body: Option<String>,
}

pub open spec fn opt_view(o: Option<String>) -> Option<Seq<char>> {
    match o {
        Some(s) => Some(s@),
        None => None,
    }
}

impl HttpRequest {
    pub open spec fn text(&self) -> Seq<char> {
        request_text(self.method@, self.path@, pairs_view(self.headers@), opt_view(self.body))
    }

    /// A request with no extra headers and no body.
    pub fn plain(method: &str, path: &str) -> (r: HttpRequest)
        ensures
            r.method@ == method@,
            r.path@ == path@,
            r.headers@.len() == 0,
            r.body is None,
    {
        HttpRequest { method: lit(method), path: lit(path), headers: Vec::new(), body: None }
    }

    /// The request as it goes on the wire; it asks the peer to close the
    /// connection after answering.
    pub fn to_wire(&self) -> (r: String)
        requires
            self.body is Some ==> self.body->0@.len() <= 0x1000_0000_0000,
        ensures
            r@ == self.text(),
    {
        let mut out = lit(self.method.as_str());
        out.append(" ");
        out.append(self.path.as_str());
        out.append(" HTTP/1.1\r\n");
        out.append("Host: 127.0.0.1\r\n");
        out.append("Connection: close\r\n");
        let ghost head = out@;
        let mut k: usize = 0;
        while k < self.headers.len()
            invariant
                k <= self.headers@.len(),
                out@ == head + header_block_text(pairs_view(self.headers@).subrange(0, k as int)),
            decreases self.headers@.len() - k,
        {
            let ghost hv = pairs_view(self.headers@);
            assert(hv.subrange(0, k + 1).drop_last() =~= hv.subrange(0, k as int));
            out.append(self.headers[k].0.as_str());
            out.append(": ");
            out.append(self.headers[k].1.as_str());
            out.append("\r\n");
            k = k + 1;
        }
        assert(pairs_view(self.headers@).subrange(0, k as int) =~= pairs_view(self.headers@));
        match &self.body {
            Some(b) => {
                out.append("Content-Length: ");
                out.append(dec_u64(utf8_length(b.as_str())).as_str());
                out.append("\r\n");
                out.append("\r\n");
                out.append(b.as_str());
            },
            None => {
                out.append("\r\n");
                assert(out@ =~= self.text());
            },
        }
        out
    }
}

/// The port the HTTP validators talk to unless told otherwise.
pub const DEFAULT_PORT: u16 = 4221;

pub open spec fn status_mismatch(expected: u16, got: u16) -> Seq<char> {
    "expected status "@ + dec(expected as int) + ", got "@ + dec(got as int)
}

pub fn status_mismatch_msg(expected: u16, got: u16) -> (r: String)
    ensures
        r@ == status_mismatch(expected, got),
{
    let mut m = lit("expected status ");
    m.append(dec_u64(expected as u64).as_str());
    m.append(", got ");
    m.append(dec_u64(got as u64).as_str());
    m
}

/// `parts` joined with `sep` between consecutive parts.
pub open spec fn join(parts: Seq<Seq<char>>, sep: Seq<char>) -> Seq<char>
    decreases parts.len(),
{
    if parts.len() == 0 {
        Seq::empty()
    } else if parts.len() == 1 {
        parts[0]
    } else {
        join(parts.drop_last(), sep) + sep + parts.last()
    }
}

pub fn join_strings(parts: &Vec<String>, sep: &str) -> (r: String)
    ensures
        r@ == join(crate::json::strings_view(parts@), sep@),
{
    let mut out = String::new();
    let mut k: usize = 0;
    while k < parts.len()
        invariant
            k <= parts@.len(),
            out@ == join(crate::json::strings_view(parts@).subrange(0, k as int), sep@),
        decreases parts@.len() - k,
    {
        let ghost sv = crate::json::strings_view(parts@);
        assert(sv.subrange(0, k + 1).drop_last() =~= sv.subrange(0, k as int));
        if k > 0 {
            out.append(sep);
        } else {
            assert(sv.subrange(0, 1)[0] == sv[0]);
            assert(out@ + parts[0]@ =~= parts[0]@);
        }
        out.append(parts[k].as_str());
        k = k + 1;
    }
    assert(crate::json::strings_view(parts@).subrange(0, k as int) =~= crate::json::strings_view(
        parts@,
    ));
    out
}

/// The lines of `s` from index `i`, as `str::lines` yields them: split at
/// `'\n'` or `"\r\n"`, with no empty line after a final terminator.
pub open spec fn lines_from(s: Seq<char>, i: int) -> Seq<Seq<char>>
    decreases s.len() + 1 - i,
{
    if i < 0 || i >= s.len() || line_end(s, i) < i || line_end(s, i) > s.len() {
        Seq::empty()
    } else {
        seq![line_at(s, i)] + lines_from(s, line_end(s, i) + 1)
    }
}

pub open spec fn lines_of(s: Seq<char>) -> Seq<Seq<char>> {
    lines_from(s, 0)
}

/// The lines of `s`, as `str::lines` yields them.
pub fn split_lines(s: &str) -> (r: Vec<Vec<char>>)
    ensures
        r@.map_values(|l: Vec<char>| l@) == lines_of(s@),
{
    let v = chars_of(s);
    let n = v.len();
    let mut out: Vec<Vec<char>> = Vec::new();
    let mut i: usize = 0;
    while i < n
        invariant
            n == v@.len(),
            v@ == s@,
            i <= n,
            lines_of(s@) == out@.map_values(|l: Vec<char>| l@) + lines_from(v@, i as int),
        decreases n - i,
    {
        let (line, e) = line_from(&v, i);
        proof {
            lemma_line_end_ge(v@, i as int);
        }
        let ghost before = out@.map_values(|l: Vec<char>| l@);
        let ghost rest = lines_from(v@, e + 1);
        assert(lines_from(v@, i as int) == seq![line@] + rest);
        out.push(line);
        assert(out@.map_values(|l: Vec<char>| l@) =~= before + seq![line@]);
        assert(before + (seq![line@] + rest) =~= (before + seq![line@]) + rest);
        if e >= n {
            assert(rest == Seq::<Seq<char>>::empty());
            assert(out@.map_values(|l: Vec<char>| l@) + rest =~= out@.map_values(|l: Vec<char>| l@));
            i = n;
            assert(lines_from(v@, n as int) == Seq::<Seq<char>>::empty());
        } else {
            i = e + 1;
        }
    }
    assert(lines_from(v@, i as int) == Seq::<Seq<char>>::empty());
    assert(out@.map_values(|l: Vec<char>| l@) + Seq::<Seq<char>>::empty() =~= out@.map_values(
        |l: Vec<char>| l@,
    ));
    out
}

} // verus!
