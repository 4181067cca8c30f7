//! The validator DSL: `name[:kind(body)[,kind(body)...]]` with
//! `kind` one of `bool`, `int`, `string`.
use vstd::prelude::*;
use crate::number::{int_in, parse_i64};
use crate::text::{
    chars_of, has_prefix, lit, fold, same, slice_of, starts_with, text_of, fold_chars, trim,
    trimmed, find, occurs_at, contains,
};

verus! {

/// A typed parameter value.
#[derive(Debug, Clone)]
pub enum ParamValue {
    Bool(bool),
    Int(i64),
    String(String),
}

/// What a parameter value is, mathematically.
pub enum ParamView {
    Bool(bool),
    Int(int),
    Str(Seq<char>),
}

impl View for ParamValue {
    type V = ParamView;

    open spec fn view(&self) -> ParamView {
        match self {
            ParamValue::Bool(b) => ParamView::Bool(*b),
            ParamValue::Int(i) => ParamView::Int(*i as int),
            ParamValue::String(s) => ParamView::Str(s@),
        }
    }
}

pub open spec fn params_view(ps: Seq<ParamValue>) -> Seq<ParamView> {
    ps.map_values(|p: ParamValue| p@)
}

impl PartialEq for ParamValue {
    fn eq(&self, o: &ParamValue) -> (r: bool) {
        match (self, o) {
            (ParamValue::Bool(a), ParamValue::Bool(b)) => *a == *b,
            (ParamValue::Int(a), ParamValue::Int(b)) => *a == *b,
            (ParamValue::String(a), ParamValue::String(b)) => *a == *b,
            _ => false,
        }
    }
}

impl vstd::std_specs::cmp::PartialEqSpecImpl for ParamValue {
    open spec fn obeys_eq_spec() -> bool {
        true
    }

    open spec fn eq_spec(&self, o: &ParamValue) -> bool {
        self@ == o@
    }
}

impl ParamValue {
    pub fn as_bool(&self) -> (r: Option<bool>)
        ensures
            r == (match self@ {
                ParamView::Bool(b) => Some(b),
                _ => None,
            }),
    {
        match self {
            ParamValue::Bool(b) => Some(*b),
            _ => None,
        }
    }

    pub fn as_int(&self) -> (r: Option<i64>)
        ensures
            r == (match self {
                ParamValue::Int(i) => Some(*i),
                _ => None,
            }),
    {
        match self {
            ParamValue::Int(i) => Some(*i),
            _ => None,
        }
    }

    pub fn as_string(&self) -> (r: Option<&str>)
        ensures
            r is Some <==> self@ is Str,
            r is Some ==> r->0@ == self@->Str_0,
    {
        match self {
            ParamValue::String(s) => Some(s.as_str()),
            _ => None,
        }
    }

    pub fn into_string(self) -> (r: Option<String>)
        ensures
            r is Some <==> self@ is Str,
            r is Some ==> r->0@ == self@->Str_0,
    {
        match self {
            ParamValue::String(s) => Some(s),
            _ => None,
        }
    }

    /// The value as text: `true`/`false`, the decimal integer, or the string itself.
    pub fn to_text(&self) -> (r: String)
        ensures
            r@ == (match self@ {
                ParamView::Bool(b) => if b {
                    "true"@
                } else {
                    "false"@
                },
                ParamView::Int(i) => crate::text::dec(i),
                ParamView::Str(s) => s,
            }),
    {
        match self {
            ParamValue::Bool(b) => if *b {
                lit("true")
            } else {
                lit("false")
            },
            ParamValue::Int(i) => crate::text::dec_i64(*i),
            ParamValue::String(s) => s.clone(),
        }
    }
}

/// A validator spec after parsing: its name and its positional parameters.
#[derive(Debug, Clone)]
pub struct ParsedValidator {
    pub name: String,
    pub params: Vec<ParamValue>,
}

pub open spec fn missing_msg(index: int) -> Seq<char> {
    "missing parameter at index "@ + crate::text::dec(index)
}

pub open spec fn mistyped_msg(index: int, kind: Seq<char>) -> Seq<char> {
    "parameter "@ + crate::text::dec(index) + " is not "@ + kind
}

impl ParsedValidator {
    pub open spec fn params_model(&self) -> Seq<ParamView> {
        params_view(self.params@)
    }

    /// The parameter at `index`, if there is one.
    pub fn param(&self, index: usize) -> (r: Option<&ParamValue>)
        ensures
            r is Some <==> index < self.params@.len(),
            r is Some ==> *r->0 == self.params@[index as int],
    {
        if index < self.params.len() {
            Some(&self.params[index])
        } else {
            None
        }
    }

    pub fn param_as_int(&self, index: usize) -> (r: Result<i64, String>)
        ensures
            match param_int(self.params_model(), index as int) {
                Ok(i) => r is Ok && r->Ok_0 as int == i,
                Err(e) => r is Err && r->Err_0@ == e,
            },
    {
        match self.param(index) {
            None => Err(missing_message(index)),
            Some(p) => match p.as_int() {
                Some(i) => Ok(i),
                None => Err(mistyped_message(index, "an integer")),
            },
        }
    }

    pub fn param_as_string(&self, index: usize) -> (r: Result<&str, String>)
        ensures
            match param_str(self.params_model(), index as int) {
                Ok(s) => r is Ok && r->Ok_0@ == s,
                Err(e) => r is Err && r->Err_0@ == e,
            },
    {
        match self.param(index) {
            None => Err(missing_message(index)),
            Some(p) => match p.as_string() {
                Some(s) => Ok(s),
                None => Err(mistyped_message(index, "a string")),
            },
        }
    }

    pub fn param_as_bool(&self, index: usize) -> (r: Result<bool, String>)
        ensures
            match param_bool(self.params_model(), index as int) {
                Ok(b) => r == Ok::<bool, String>(b),
                Err(e) => r is Err && r->Err_0@ == e,
            },
    {
        match self.param(index) {
            None => Err(missing_message(index)),
            Some(p) => match p.as_bool() {
                Some(b) => Ok(b),
                None => Err(mistyped_message(index, "a boolean")),
            },
        }
    }

    /// The parameter at `index` when it is a string.
    pub fn optional_string(&self, index: usize) -> (r: Option<String>)
        ensures
            crate::http::opt_view(r) == opt_str(self.params_model(), index as int),
    {
        match self.param(index) {
            Some(p) => match p.as_string() {
                Some(s) => Some(lit(s)),
                None => None,
            },
            None => None,
        }
    }
}

/// The integer parameter at `i`, or why there is none.
pub open spec fn param_int(ps: Seq<ParamView>, i: int) -> Result<int, Seq<char>> {
    if i < 0 || i >= ps.len() {
        Err(missing_msg(i))
    } else {
        match ps[i] {
            ParamView::Int(x) => Ok(x),
            _ => Err(mistyped_msg(i, "an integer"@)),
        }
    }
}

/// The string parameter at `i`, or why there is none.
pub open spec fn param_str(ps: Seq<ParamView>, i: int) -> Result<Seq<char>, Seq<char>> {
    if i < 0 || i >= ps.len() {
        Err(missing_msg(i))
    } else {
        match ps[i] {
            ParamView::Str(s) => Ok(s),
            _ => Err(mistyped_msg(i, "a string"@)),
        }
    }
}

/// The boolean parameter at `i`, or why there is none.
pub open spec fn param_bool(ps: Seq<ParamView>, i: int) -> Result<bool, Seq<char>> {
    if i < 0 || i >= ps.len() {
        Err(missing_msg(i))
    } else {
        match ps[i] {
            ParamView::Bool(b) => Ok(b),
            _ => Err(mistyped_msg(i, "a boolean"@)),
        }
    }
}

/// The parameter at `i` if it is a string.
pub open spec fn opt_str(ps: Seq<ParamView>, i: int) -> Option<Seq<char>> {
    match param_str(ps, i) {
        Ok(s) => Some(s),
        Err(_) => None,
    }
}

/// The string parameters from index `i` on, others skipped.
pub open spec fn strings_from(ps: Seq<ParamView>, i: int) -> Seq<Seq<char>>
    decreases ps.len() - i,
{
    if i < 0 || i >= ps.len() {
        Seq::empty()
    } else {
        match ps[i] {
            ParamView::Str(s) => seq![s] + strings_from(ps, i + 1),
            _ => strings_from(ps, i + 1),
        }
    }
}

impl ParsedValidator {
    /// The string parameters from `start` on, in order; other kinds are skipped.
    pub fn strings_after(&self, start: usize) -> (r: Vec<String>)
        ensures
            crate::json::strings_view(r@) == strings_from(self.params_model(), start as int),
    {
        let mut out: Vec<String> = Vec::new();
        let mut k: usize = start;
        let ghost ps = self.params_model();
        if k > self.params.len() {
            return out;
        }
        while k < self.params.len()
            invariant
                start <= k <= self.params@.len(),
                ps == self.params_model(),
                strings_from(ps, start as int) == crate::json::strings_view(out@) + strings_from(ps, k as int),
            decreases self.params@.len() - k,
        {
            assert(ps[k as int] == self.params@[k as int]@);
            match self.params[k].as_string() {
                Some(f) => {
                    let t = lit(f);
                    let ghost before = crate::json::strings_view(out@);
                    out.push(t);
                    assert(crate::json::strings_view(out@) =~= before + seq![t@]);
                    assert(before + (seq![t@] + strings_from(ps, k + 1)) =~= (before + seq![t@]) + strings_from(ps, k + 1));
                },
                None => {},
            }
            k = k + 1;
        }
        assert(crate::json::strings_view(out@) + Seq::<Seq<char>>::empty() =~= crate::json::strings_view(out@));
        out
    }
}

fn missing_message(index: usize) -> (r: String)
    ensures
        r@ == missing_msg(index as int),
{
    let mut m = lit("missing parameter at index ");
    m.append(crate::text::dec_u64(index as u64).as_str());
    m
}

fn mistyped_message(index: usize, kind: &str) -> (r: String)
    ensures
        r@ == mistyped_msg(index as int, kind@),
{
    let mut m = lit("parameter ");
    m.append(crate::text::dec_u64(index as u64).as_str());
    m.append(" is not ");
    m.append(kind);
    m
}

/// `t` has the shape `kw` + body + `)`.
pub open spec fn wrapped(t: Seq<char>, kw: Seq<char>) -> bool {
    has_prefix(t, kw) && t.len() > kw.len() && t.last() == ')'
}

/// The body of `kw(body)`.
pub open spec fn body_of(t: Seq<char>, kw: Seq<char>) -> Seq<char> {
    t.subrange(kw.len() as int, t.len() - 1)
}

/// One typed parameter `kind(body)`, surrounding whitespace ignored.
pub open spec fn typed_param(input: Seq<char>) -> Result<ParamView, Seq<char>> {
    let t = trim(input);
    if wrapped(t, "bool("@) {
        let b = body_of(t, "bool("@);
        if fold(b) == "true"@ {
            Ok(ParamView::Bool(true))
        } else if fold(b) == "false"@ {
            Ok(ParamView::Bool(false))
        } else {
            Err("invalid boolean value: "@ + b)
        }
    } else if wrapped(t, "int("@) {
        let b = body_of(t, "int("@);
        let v = int_in(b, true, i64::MIN as int, i64::MAX as int);
        if v is Some {
            Ok(ParamView::Int(v->0))
        } else {
            Err("invalid integer value: "@ + b)
        }
    } else if wrapped(t, "string("@) {
        Ok(ParamView::Str(body_of(t, "string("@)))
    } else {
        Err("invalid parameter format: "@ + t + ". expected bool(...), int(...), or string(...)"@)
    }
}

fn wrapped_body(t: &Vec<char>, kw: &str) -> (r: Option<Vec<char>>)
    ensures
        r is Some <==> wrapped(t@, kw@),
        r is Some ==> r->0@ == body_of(t@, kw@),
{
    let k = chars_of(kw);
    if starts_with(t, &k) && t.len() > k.len() && t[t.len() - 1] == ')' {
        Some(slice_of(t, k.len(), t.len() - 1))
    } else {
        None
    }
}

fn param_from_chars(input: &Vec<char>) -> (r: Result<ParamValue, String>)
    ensures
        match typed_param(input@) {
            Ok(p) => r is Ok && r->Ok_0@ == p,
            Err(e) => r is Err && r->Err_0@ == e,
        },
{
    let t = trimmed(input);
    if let Some(b) = wrapped_body(&t, "bool(") {
        let lb = fold_chars(&b);
        if same(&lb, &chars_of("true")) {
            return Ok(ParamValue::Bool(true));
        } else if same(&lb, &chars_of("false")) {
            return Ok(ParamValue::Bool(false));
        } else {
            let mut m = lit("invalid boolean value: ");
            m.append(text_of(b.as_slice()).as_str());
            return Err(m);
        }
    }
    if let Some(b) = wrapped_body(&t, "int(") {
        match parse_i64(&b) {
            Some(v) => {
                return Ok(ParamValue::Int(v));
            }
            None => {
                let mut m = lit("invalid integer value: ");
                m.append(text_of(b.as_slice()).as_str());
                return Err(m);
            }
        }
    }
    if let Some(b) = wrapped_body(&t, "string(") {
        return Ok(ParamValue::String(text_of(b.as_slice())));
    }
    let mut m = lit("invalid parameter format: ");
    m.append(text_of(t.as_slice()).as_str());
    m.append(". expected bool(...), int(...), or string(...)");
    Err(m)
}

/// Parses one typed parameter such as `int(4221)` or `string(/path)`.
pub fn parse_typed_param(input: &str) -> (r: Result<ParamValue, String>)
    ensures
        match typed_param(input@) {
            Ok(p) => r is Ok && r->Ok_0@ == p,
            Err(e) => r is Err && r->Err_0@ == e,
        },
{
    param_from_chars(&chars_of(input))
}

/// The pieces of `s` between the commas met at parenthesis depth zero,
/// scanning from `k` with the current piece starting at `start`.
pub open spec fn pieces_from(s: Seq<char>, start: int, k: int, depth: int) -> Seq<Seq<char>>
    decreases s.len() - k,
{
    if k >= s.len() {
        seq![s.subrange(start, s.len() as int)]
    } else if s[k] == '(' {
        pieces_from(s, start, k + 1, depth + 1)
    } else if s[k] == ')' {
        pieces_from(s, start, k + 1, depth - 1)
    } else if s[k] == ',' && depth == 0 {
        seq![s.subrange(start, k)] + pieces_from(s, k + 1, k + 1, 0)
    } else {
        pieces_from(s, start, k + 1, depth)
    }
}

/// `s` split at its top-level commas.
pub open spec fn pieces(s: Seq<char>) -> Seq<Seq<char>> {
    pieces_from(s, 0, 0, 0)
}

/// The parameters that a list of pieces denotes: blank pieces are skipped,
/// and the first piece that does not parse gives the error.
pub open spec fn params_of(ps: Seq<Seq<char>>) -> Result<Seq<ParamView>, Seq<char>>
    decreases ps.len(),
{
    if ps.len() == 0 {
        Ok(Seq::empty())
    } else if trim(ps[0]).len() == 0 {
        params_of(ps.drop_first())
    } else {
        match typed_param(ps[0]) {
            Err(e) => Err(e),
            Ok(p) => match params_of(ps.drop_first()) {
                Ok(rest) => Ok(seq![p] + rest),
                Err(e) => Err(e),
            },
        }
    }
}

pub open spec fn prepend(acc: Seq<ParamView>, r: Result<Seq<ParamView>, Seq<char>>) -> Result<
    Seq<ParamView>,
    Seq<char>,
> {
    match r {
        Ok(x) => Ok(acc + x),
        Err(e) => Err(e),
    }
}

proof fn lemma_params_cons(seg: Seq<char>, rest: Seq<Seq<char>>)
    ensures
        params_of(seq![seg] + rest) == (if trim(seg).len() == 0 {
            params_of(rest)
        } else {
            match typed_param(seg) {
                Err(e) => Err(e),
                Ok(p) => match params_of(rest) {
                    Ok(r) => Ok(seq![p] + r),
                    Err(e) => Err(e),
                },
            }
        }),
{
    let ps = seq![seg] + rest;
    assert(ps[0] == seg);
    assert(ps.drop_first() =~= rest);
}

/// Parses the comma-separated parameter list `input`.
fn params_from_chars(input: &Vec<char>) -> (r: Result<Vec<ParamValue>, String>)
    ensures
        match params_of(pieces(input@)) {
            Ok(ps) => r is Ok && params_view(r->Ok_0@) == ps,
            Err(e) => r is Err && r->Err_0@ == e,
        },
{
    let ghost s = input@;
    let mut out: Vec<ParamValue> = Vec::new();
    let mut start: usize = 0;
    let mut depth: i128 = 0;
    let mut k: usize = 0;
    let n = input.len();
    while k < n
        invariant
            n == s.len(),
            s == input@,
            start <= k <= n,
            -(k as int) <= depth <= k,
            params_of(pieces(s)) == prepend(
                params_view(out@),
                params_of(pieces_from(s, start as int, k as int, depth as int)),
            ),
        decreases n - k,
    {
        let c = input[k];
        if c == '(' {
            depth = depth + 1;
        } else if c == ')' {
            depth = depth - 1;
        } else if c == ',' && depth == 0 {
            let seg = slice_of(input, start, k);
            let ghost rest = pieces_from(s, k + 1, k + 1, 0);
            proof {
                lemma_params_cons(seg@, rest);
            }
            let t = trimmed(&seg);
            if t.len() > 0 {
                match param_from_chars(&seg) {
                    Ok(p) => {
                        let ghost before = params_view(out@);
                        out.push(p);
                        assert(params_view(out@) =~= before + seq![p@]);
                        proof {
                            match params_of(rest) {
                                Ok(x) => {
                                    assert(before + (seq![p@] + x) =~= (before + seq![p@]) + x);
                                },
                                Err(_) => {},
                            }
                        }
                    },
                    Err(e) => {
                        return Err(e);
                    },
                }
            }
            start = k + 1;
        }
        k = k + 1;
    }
    let seg = slice_of(input, start, n);
    let ghost last = pieces_from(s, start as int, n as int, depth as int);
    assert(last == seq![seg@]);
    assert(seq![seg@] =~= seq![seg@] + Seq::<Seq<char>>::empty());
    proof {
        lemma_params_cons(seg@, Seq::empty());
    }
    let t = trimmed(&seg);
    if t.len() > 0 {
        match param_from_chars(&seg) {
            Ok(p) => {
                let ghost before = params_view(out@);
                out.push(p);
                assert(params_view(out@) =~= before + seq![p@]);
            },
            Err(e) => {
                return Err(e);
            },
        }
    } else {
        assert(params_view(out@) + Seq::<ParamView>::empty() =~= params_view(out@));
    }
    Ok(out)
}

/// What a validator spec denotes: its name and parameters, or the error.
pub open spec fn parsed_spec(input: Seq<char>) -> Result<(Seq<char>, Seq<ParamView>), Seq<char>> {
    let t = trim(input);
    let colon = if contains(t, ":"@) {
        Some(choose|i: int| occurs_at(t, ":"@, i) && forall|j: int| 0 <= j < i ==> !occurs_at(t, ":"@, j))
    } else {
        None::<int>
    };
    let name = if colon is Some { trim(t.subrange(0, colon->0)) } else { t };
    let rest = if colon is Some { trim(t.subrange(colon->0 + 1, t.len() as int)) } else { Seq::empty() };
    if name.len() == 0 {
        Err("validator name cannot be empty"@)
    } else if rest.len() == 0 {
        Ok((name, Seq::empty()))
    } else {
        match params_of(pieces(rest)) {
            Ok(ps) => Ok((name, ps)),
            Err(e) => Err(e),
        }
    }
}

/// Parses a validator spec such as `tcp_listening:int(4221)`.
pub fn parse_validator(input: &str) -> (r: Result<ParsedValidator, String>)
    ensures
        match parsed_spec(input@) {
            Ok((name, ps)) => r is Ok && r->Ok_0.name@ == name && r->Ok_0.params_model() == ps,
            Err(e) => r is Err && r->Err_0@ == e,
        },
{
    let all = chars_of(input);
    let t = trimmed(&all);
    let colon = chars_of(":");
    proof {
        reveal_strlit(":");
    }
    let (name, rest) = match find(&t, &colon) {
        Some(i) => {
            let ghost gi = i as int;
            assert(occurs_at(t@, ":"@, gi));
            proof {
                let ch = choose|i: int| occurs_at(t@, ":"@, i) && forall|j: int| 0 <= j < i ==> !occurs_at(t@, ":"@, j);
                assert(ch == gi) by {
                    if ch < gi {} else if ch > gi {}
                }
            }
            let a = slice_of(&t, 0, i);
            assert(":"@.len() == 1);
            assert(i + 1 <= t@.len());
            let tl = t.len();
            let b = slice_of(&t, i + 1, tl);
            (trimmed(&a), trimmed(&b))
        },
        None => {
            let empty: Vec<char> = Vec::new();
            assert(empty@ =~= Seq::<char>::empty());
            (t, empty)
        },
    };
    if name.len() == 0 {
        return Err(lit("validator name cannot be empty"));
    }
    let params = if rest.len() > 0 {
        match params_from_chars(&rest) {
            Ok(ps) => ps,
            Err(e) => {
                return Err(e);
            },
        }
    } else {
        let ps: Vec<ParamValue> = Vec::new();
        assert(params_view(ps@) =~= Seq::<ParamView>::empty());
        ps
    };
    Ok(ParsedValidator { name: text_of(name.as_slice()), params })
}

} // verus!
