//! Properties that relate the library's functions, proved over their
//! specifications.
use vstd::prelude::*;
use crate::docker::rejection;
use crate::http::{join, status_mismatch};
use crate::process::{GracefulShutdownValidator, ShutdownOutcome};
use crate::protocol::{error_summary, failures, first_three, distinct, lemma_distinct_first, successes, ConcurrentRequestsValidator};
use crate::registry::registry_keys;
use crate::number::{all_digits, digit_value, digits_value, int_in, is_digit};
use crate::parser::{body_of, params_of, parsed_spec, pieces_from, typed_param, wrapped, ParamView};
use crate::text::{all_ascii, ascii_lower, contains, dec, dec_nat, digit_char, has_prefix, is_ws, fold, occurs_at, trim};

verus! {

/// `b` occurs in `a + b + c`.
pub proof fn lemma_occurs_between(a: Seq<char>, b: Seq<char>, c: Seq<char>)
    ensures
        occurs_at(a + b + c, b, a.len() as int),
        contains(a + b + c, b),
{
    assert((a + b + c).subrange(a.len() as int, (a.len() + b.len()) as int) =~= b);
}

/// A joined list starts with its first part.
pub proof fn lemma_join_starts_with_first(parts: Seq<Seq<char>>, sep: Seq<char>)
    requires
        parts.len() > 0,
    ensures
        has_prefix(join(parts, sep), parts[0]),
    decreases parts.len(),
{
    if parts.len() > 1 {
        lemma_join_starts_with_first(parts.drop_last(), sep);
        let j = join(parts.drop_last(), sep);
        assert(join(parts, sep) == j + sep + parts.last());
        assert((j + sep + parts.last()).subrange(0, parts[0].len() as int) =~= j.subrange(0, parts[0].len() as int));
    } else {
        assert(join(parts, sep).subrange(0, parts[0].len() as int) =~= parts[0]);
    }
}

/// A status mismatch names both the expected and the received status.
pub proof fn lemma_status_mismatch_names_both(expected: u16, got: u16)
    ensures
        contains(status_mismatch(expected, got), dec(expected as int)),
        contains(status_mismatch(expected, got), dec(got as int)),
{
    let e = dec(expected as int);
    let g = dec(got as int);
    lemma_occurs_between("expected status "@, e, ", got "@ + g);
    assert(status_mismatch(expected, got) =~= "expected status "@ + e + (", got "@ + g));
    lemma_occurs_between("expected status "@ + e + ", got "@, g, Seq::empty());
    assert(status_mismatch(expected, got) =~= "expected status "@ + e + ", got "@ + g + Seq::<char>::empty());
}

/// When not every connection of a fan-out succeeds, the report starts with
/// "<successes>/<connections> succeeded" and quotes the first error.
pub proof fn lemma_fanout_report(v: ConcurrentRequestsValidator, outcomes: Seq<Result<u32, String>>)
    requires
        successes(outcomes) != v.num_connections,
        failures(outcomes).len() > 0,
    ensures
        v.judged(outcomes) is Err,
        has_prefix(
            v.judged(outcomes)->Err_0,
            dec(successes(outcomes) as int) + "/"@ + dec(v.num_connections as int) + " succeeded. "@,
        ),
        contains(v.judged(outcomes)->Err_0, failures(outcomes)[0]),
{
    let f = failures(outcomes);
    let head = dec(successes(outcomes) as int) + "/"@ + dec(v.num_connections as int) + " succeeded. "@;
    let summary = error_summary(f, "errors"@);
    assert(v.judged(outcomes) == Err::<Seq<char>, Seq<char>>(head + summary));
    assert((head + summary).subrange(0, head.len() as int) =~= head);
    lemma_distinct_first(f);
    let shown = first_three(distinct(f));
    assert(shown.len() > 0 && shown[0] == f[0]);
    lemma_join_starts_with_first(shown, "; "@);
    let j = join(shown, "; "@);
    let tail = if f.len() > shown.len() {
        "; ... and "@ + dec(f.len() - shown.len()) + " more "@ + "errors"@
    } else {
        Seq::<char>::empty()
    };
    assert(summary == j + tail);
    assert(summary.subrange(0, f[0].len() as int) =~= j.subrange(0, f[0].len() as int));
    let rest = summary.subrange(f[0].len() as int, summary.len() as int);
    assert(summary =~= f[0] + rest);
    lemma_occurs_between(head, f[0], rest);
    assert(head + summary =~= head + f[0] + rest);
}

proof fn lemma_join3(q: Seq<Seq<char>>, sep: Seq<char>)
    requires
        q.len() == 3,
    ensures
        join(q, sep) == q[0] + sep + q[1] + sep + q[2],
{
    let q2 = q.drop_last();
    let q1 = q2.drop_last();
    assert(q1.len() == 1);
    assert(join(q1, sep) == q1[0]);
    assert(q1[0] == q[0]);
    assert(q2.last() == q[1]);
    assert(join(q2, sep) == join(q1, sep) + sep + q2.last());
    assert(join(q, sep) == join(q2, sep) + sep + q.last());
}

/// A rejected image key's message names every registered key.
#[verifier::rlimit(50)]
pub proof fn lemma_rejection_lists_keys(key: Seq<char>)
    ensures
        forall|i: int| 0 <= i < 3 ==> contains(rejection(key), #[trigger] registry_keys()[i]),
{
    let k = registry_keys();
    let q = k.map_values(|f: Seq<char>| "\""@ + f + "\""@);
    let quote = "\""@;
    let sep = ", "@;
    assert(q.len() == 3);
    assert(q[0] == quote + k[0] + quote);
    assert(q[1] == quote + k[1] + quote);
    assert(q[2] == quote + k[2] + quote);
    lemma_join3(q, sep);
    let pre = "image '"@ + key + "' not registered. available: "@ + "["@;
    let msg = rejection(key);
    assert(msg == pre + (q[0] + sep + q[1] + sep + q[2]) + "]"@);
    let a0 = pre + quote;
    let c0 = quote + sep + q[1] + sep + q[2] + "]"@;
    assert(msg =~= a0 + k[0] + c0);
    lemma_occurs_between(a0, k[0], c0);
    let a1 = pre + q[0] + sep + quote;
    let c1 = quote + sep + q[2] + "]"@;
    assert(msg =~= a1 + k[1] + c1);
    lemma_occurs_between(a1, k[1], c1);
    let a2 = pre + q[0] + sep + q[1] + sep + quote;
    let c2 = quote + "]"@;
    assert(msg =~= a2 + k[2] + c2);
    lemma_occurs_between(a2, k[2], c2);
    assert forall|i: int| 0 <= i < 3 implies contains(msg, #[trigger] k[i]) by {
        if i == 0 {} else if i == 1 {} else {}
    }
}

/// A signalled process that exits with the expected code passes; one still
/// running at the timeout fails with a "did not exit within" message.
pub proof fn lemma_shutdown_verdicts(v: GracefulShutdownValidator)
    ensures
        v.judged(ShutdownOutcome::Exited(Some(v.expected_exit_code))) is Ok,
        v.judged(ShutdownOutcome::TimedOut) == Err::<Seq<char>, Seq<char>>(
            "process did not exit within "@ + dec(v.timeout_ms as int) + "ms after SIGTERM"@,
        ),
{
}

// ---------------------------------------------------------------- spec strings

/// How a parameter is written in a spec string.
pub open spec fn param_text(p: ParamView) -> Seq<char> {
    match p {
        ParamView::Bool(b) => "bool("@ + (if b { "true"@ } else { "false"@ }) + ")"@,
        ParamView::Int(i) => "int("@ + dec(i) + ")"@,
        ParamView::Str(s) => "string("@ + s + ")"@,
    }
}

/// Parameters written one after another, comma-separated.
pub open spec fn params_text(ps: Seq<ParamView>) -> Seq<char>
    decreases ps.len(),
{
    if ps.len() == 0 {
        Seq::empty()
    } else if ps.len() == 1 {
        param_text(ps[0])
    } else {
        param_text(ps[0]) + ","@ + params_text(ps.drop_first())
    }
}

/// A spec string: the name, then `:` and the parameters if there are any.
pub open spec fn spec_text(name: Seq<char>, ps: Seq<ParamView>) -> Seq<char> {
    if ps.len() == 0 {
        name
    } else {
        name + ":"@ + params_text(ps)
    }
}

pub open spec fn paren_delta(c: char) -> int {
    if c == '(' {
        1
    } else if c == ')' {
        -1
    } else {
        0
    }
}

/// Opened minus closed parentheses in `t`.
pub open spec fn balance(t: Seq<char>) -> int
    decreases t.len(),
{
    if t.len() == 0 {
        0
    } else {
        paren_delta(t[0]) + balance(t.drop_first())
    }
}

/// Every prefix of `t` closes no more parentheses than it opened, and `t`
/// closes all it opens.
pub open spec fn balanced(t: Seq<char>) -> bool {
    &&& balance(t) == 0
    &&& forall|j: int| 0 <= j <= t.len() ==> balance(#[trigger] t.subrange(0, j)) >= 0
}

/// A name that a spec string can carry: non-empty, no `:`, no surrounding
/// whitespace.
pub open spec fn valid_name(name: Seq<char>) -> bool {
    &&& name.len() > 0
    &&& forall|j: int| 0 <= j < name.len() ==> name[j] != ':'
    &&& !is_ws(name[0])
    &&& !is_ws(name.last())
}

/// A parameter that survives being written and read back: integers within
/// `i64`, string bodies with balanced parentheses.
pub open spec fn valid_param(p: ParamView) -> bool {
    match p {
        ParamView::Bool(_) => true,
        ParamView::Int(i) => i64::MIN <= i <= i64::MAX,
        ParamView::Str(s) => balanced(s),
    }
}

proof fn lemma_balance_concat(a: Seq<char>, b: Seq<char>)
    ensures
        balance(a + b) == balance(a) + balance(b),
    decreases a.len(),
{
    if a.len() > 0 {
        assert((a + b).drop_first() =~= a.drop_first() + b);
        lemma_balance_concat(a.drop_first(), b);
    } else {
        assert(a + b =~= b);
    }
}

proof fn lemma_balance_no_parens(t: Seq<char>)
    requires
        forall|j: int| 0 <= j < t.len() ==> t[j] != '(' && t[j] != ')',
    ensures
        balanced(t),
    decreases t.len(),
{
    assert forall|j: int| 0 <= j <= t.len() implies balance(#[trigger] t.subrange(0, j)) == 0 by {
        lemma_balance_zero(t.subrange(0, j));
    }
    lemma_balance_zero(t);
    assert(t.subrange(0, t.len() as int) =~= t);
}

proof fn lemma_balance_zero(t: Seq<char>)
    requires
        forall|j: int| 0 <= j < t.len() ==> t[j] != '(' && t[j] != ')',
    ensures
        balance(t) == 0,
    decreases t.len(),
{
    if t.len() > 0 {
        lemma_balance_zero(t.drop_first());
    }
}

/// Scanning a stretch in which every comma sits at non-zero depth neither
/// splits nor does anything but move the depth.
proof fn lemma_scan(s: Seq<char>, start: int, k: int, m: int, d: int)
    requires
        0 <= k <= m <= s.len(),
        forall|j: int| k <= j < m && s[j] == ',' ==> d + balance(s.subrange(k, j)) != 0,
    ensures
        pieces_from(s, start, k, d) == pieces_from(s, start, m, d + balance(s.subrange(k, m))),
    decreases m - k,
{
    if k == m {
        assert(s.subrange(k, m) =~= Seq::<char>::empty());
    } else {
        let d2 = d + paren_delta(s[k]);
        assert forall|j: int| k + 1 <= j < m && s[j] == ',' implies d2 + balance(s.subrange(k + 1, j)) != 0 by {
            assert(s.subrange(k, j).drop_first() =~= s.subrange(k + 1, j));
        }
        assert(s.subrange(k, k) =~= Seq::<char>::empty());
        assert(pieces_from(s, start, k, d) == pieces_from(s, start, k + 1, d2));
        lemma_scan(s, start, k + 1, m, d2);
        assert(s.subrange(k, m).drop_first() =~= s.subrange(k + 1, m));
    }
}

proof fn lemma_dec_nat(n: nat)
    ensures
        all_digits(dec_nat(n)),
        digits_value(dec_nat(n)) == n,
    decreases n,
{
    if n < 10 {
        let c = digit_char(n);
        assert(dec_nat(n) == seq![c]);
        assert(seq![c].drop_last() =~= Seq::<char>::empty());
        assert(is_digit(c) && digit_value(c) == n);
        assert(seq![c].last() == c);
        assert(digits_value(seq![c]) == digits_value(Seq::<char>::empty()) * 10 + digit_value(c));
        assert(all_digits(seq![c]));
    } else {
        lemma_dec_nat(n / 10);
        let c = digit_char(n % 10);
        assert(is_digit(c) && digit_value(c) == n % 10);
        let t = dec_nat(n / 10).push(c);
        assert(t.drop_last() =~= dec_nat(n / 10));
        assert(t.last() == c);
        assert(digits_value(t) == digits_value(dec_nat(n / 10)) * 10 + digit_value(c));
        assert((n / 10) * 10 + n % 10 == n) by {
            vstd::arithmetic::div_mod::lemma_fundamental_div_mod(n as int, 10);
        }
        assert(dec_nat(n) == t);
        assert(digits_value(t) == n);
        assert forall|i: int| 0 <= i < t.len() implies is_digit(#[trigger] t[i]) by {
            if i < t.len() - 1 {
                assert(t[i] == dec_nat(n / 10)[i]);
            }
        }
        vstd::arithmetic::div_mod::lemma_fundamental_div_mod(n as int, 10);
    }
}

proof fn lemma_dec_reads_back(i: int)
    requires
        i64::MIN <= i <= i64::MAX,
    ensures
        int_in(dec(i), true, i64::MIN as int, i64::MAX as int) == Some(i),
        forall|j: int| 0 <= j < dec(i).len() ==> dec(i)[j] != '(' && dec(i)[j] != ')' && dec(i)[j] != ',',
        dec(i).len() > 0,
{
    if i < 0 {
        lemma_dec_nat((-i) as nat);
        let t = dec(i);
        assert(t.drop_first() =~= dec_nat((-i) as nat));
        assert(t[0] == '-');
        assert forall|j: int| 0 <= j < t.len() implies t[j] != '(' && t[j] != ')' && t[j] != ',' by {
            if j > 0 {
                assert(t[j] == dec_nat((-i) as nat)[j - 1]);
                assert(is_digit(dec_nat((-i) as nat)[j - 1]));
            }
        }
    } else {
        lemma_dec_nat(i as nat);
        let t = dec(i);
        assert(is_digit(t[0]));
        assert forall|j: int| 0 <= j < t.len() implies t[j] != '(' && t[j] != ')' && t[j] != ',' by {
            assert(is_digit(t[j]));
        }
    }
}

proof fn lemma_trim_id(t: Seq<char>)
    requires
        t.len() > 0,
        !is_ws(t[0]),
        !is_ws(t.last()),
    ensures
        trim(t) == t,
{
}

/// The body written for a parameter, and the keyword before it.
pub open spec fn body_text(p: ParamView) -> Seq<char> {
    match p {
        ParamView::Bool(b) => if b { "true"@ } else { "false"@ },
        ParamView::Int(i) => dec(i),
        ParamView::Str(s) => s,
    }
}

pub open spec fn keyword(p: ParamView) -> Seq<char> {
    match p {
        ParamView::Bool(_) => "bool("@,
        ParamView::Int(_) => "int("@,
        ParamView::Str(_) => "string("@,
    }
}

proof fn lemma_param_shape(p: ParamView)
    requires
        valid_param(p),
    ensures
        param_text(p) == keyword(p) + body_text(p) + ")"@,
        balanced(body_text(p)),
        balance(keyword(p)) == 1,
        forall|j: int| 0 <= j < keyword(p).len() ==> keyword(p)[j] != ',',
        keyword(p).len() > 0,
        !is_ws(param_text(p)[0]),
        param_text(p).last() == ')',
        trim(param_text(p)) == param_text(p),
        typed_param(param_text(p)) == Ok::<ParamView, Seq<char>>(p),
{
    reveal_strlit("bool(");
    reveal_strlit("int(");
    reveal_strlit("string(");
    reveal_strlit("true");
    reveal_strlit("false");
    reveal_strlit(")");
    let kw = keyword(p);
    let body = body_text(p);
    let t = param_text(p);
    assert(balance(kw) == 1) by {
        reveal_with_fuel(balance, 8);
    }
    match p {
        ParamView::Int(i) => {
            lemma_dec_reads_back(i);
            lemma_balance_no_parens(body);
        },
        ParamView::Bool(b) => {
            lemma_balance_no_parens(body);
            assert(all_ascii(body));
            assert(ascii_lower(body) =~= body);
            assert(fold(body) == body);
        },
        ParamView::Str(s) => {},
    }
    assert(t.last() == ')');
    lemma_trim_id(t);
    assert(t.subrange(0, kw.len() as int) =~= kw);
    assert(body_of(t, kw) =~= body);
    match p {
        ParamView::Bool(b) => {
            assert(wrapped(t, "bool("@));
        },
        ParamView::Int(i) => {
            assert(t[0] != "bool("@[0]);
            assert(!wrapped(t, "bool("@));
            assert(wrapped(t, "int("@));
        },
        ParamView::Str(s) => {
            assert(t[0] != "bool("@[0]);
            assert(t[0] != "int("@[0]);
            assert(!wrapped(t, "bool("@));
            assert(!wrapped(t, "int("@));
            assert(wrapped(t, "string("@));
        },
    }
}

/// No comma of a written parameter sits at depth zero, and it ends at depth zero.
proof fn lemma_param_scan(p: ParamView)
    requires
        valid_param(p),
    ensures
        balance(param_text(p)) == 0,
        forall|j: int| 0 <= j < param_text(p).len() && param_text(p)[j] == ',' ==> balance(
            #[trigger] param_text(p).subrange(0, j),
        ) != 0,
{
    lemma_param_shape(p);
    let kw = keyword(p);
    let body = body_text(p);
    let t = param_text(p);
    reveal_strlit(")");
    lemma_balance_concat(kw, body);
    lemma_balance_concat(kw + body, ")"@);
    assert(balance(")"@) == -1) by {
        reveal_with_fuel(balance, 2);
    }
    assert forall|j: int| 0 <= j < t.len() && t[j] == ',' implies balance(#[trigger] t.subrange(0, j)) != 0 by {
        if j < kw.len() {
            assert(t[j] == kw[j]);
        } else if j < kw.len() + body.len() {
            assert(t.subrange(0, j) =~= kw + body.subrange(0, j - kw.len()));
            lemma_balance_concat(kw, body.subrange(0, j - kw.len()));
        } else {
            assert(t[j] == ')');
        }
    }
}

proof fn lemma_pieces_of_params(s: Seq<char>, k: int, ps: Seq<ParamView>)
    requires
        ps.len() > 0,
        0 <= k <= s.len(),
        s.subrange(k, s.len() as int) == params_text(ps),
        forall|i: int| 0 <= i < ps.len() ==> valid_param(#[trigger] ps[i]),
    ensures
        pieces_from(s, k, k, 0) == ps.map_values(|p: ParamView| param_text(p)),
    decreases ps.len(),
{
    reveal_strlit(",");
    let p0 = param_text(ps[0]);
    let u = s.subrange(k, s.len() as int);
    let m = k + p0.len();
    lemma_param_scan(ps[0]);
    if ps.len() > 1 {
        assert(u == p0 + ","@ + params_text(ps.drop_first()));
    } else {
        assert(u == p0);
    }
    assert(u.len() >= p0.len());
    assert(u.subrange(0, p0.len() as int) =~= p0);
    assert(m <= s.len());
    assert forall|j: int| k <= j < m && s[j] == ',' implies 0 + balance(s.subrange(k, j)) != 0 by {
        assert(s.subrange(k, j) =~= p0.subrange(0, j - k));
        assert(s[j] == u[j - k]);
        assert(u[j - k] == p0[j - k]);
    }
    lemma_scan(s, k, k, m, 0);
    assert(s.subrange(k, m) =~= p0);
    if ps.len() == 1 {
        assert(m == s.len());
        assert(ps.map_values(|p: ParamView| param_text(p)) =~= seq![p0]);
    } else {
        let rest = ps.drop_first();
        let r = params_text(rest);
        assert(u == p0 + ","@ + r);
        assert(s[m] == ',') by {
            assert(s[m] == u[p0.len() as int]);
        }
        assert(u.subrange((p0.len() + 1) as int, u.len() as int) =~= r);
        assert(s.subrange(m + 1, s.len() as int) =~= u.subrange((p0.len() + 1) as int, u.len() as int));
        assert forall|i: int| 0 <= i < rest.len() implies valid_param(#[trigger] rest[i]) by {
            assert(rest[i] == ps[i + 1]);
        }
        lemma_pieces_of_params(s, m + 1, rest);
        assert(ps.map_values(|p: ParamView| param_text(p)) =~= seq![p0] + rest.map_values(|p: ParamView| param_text(p)));
    }
}

proof fn lemma_params_read_back(ps: Seq<ParamView>)
    requires
        forall|i: int| 0 <= i < ps.len() ==> valid_param(#[trigger] ps[i]),
    ensures
        params_of(ps.map_values(|p: ParamView| param_text(p))) == Ok::<Seq<ParamView>, Seq<char>>(ps),
    decreases ps.len(),
{
    let texts = ps.map_values(|p: ParamView| param_text(p));
    if ps.len() > 0 {
        let rest = ps.drop_first();
        assert forall|i: int| 0 <= i < rest.len() implies valid_param(#[trigger] rest[i]) by {
            assert(rest[i] == ps[i + 1]);
        }
        lemma_params_read_back(rest);
        lemma_param_shape(ps[0]);
        assert(texts.drop_first() =~= rest.map_values(|p: ParamView| param_text(p)));
        assert(texts[0] == param_text(ps[0]));
        assert(seq![ps[0]] + rest =~= ps);
    } else {
        assert(ps =~= Seq::<ParamView>::empty());
    }
}

proof fn lemma_first_colon(name: Seq<char>, body: Seq<char>)
    requires
        forall|j: int| 0 <= j < name.len() ==> name[j] != ':',
    ensures
        ({
            let t = name + ":"@ + body;
            &&& contains(t, ":"@)
            &&& (choose|i: int| occurs_at(t, ":"@, i) && forall|j: int| 0 <= j < i ==> !occurs_at(t, ":"@, j))
                == name.len()
            &&& t.subrange(0, name.len() as int) == name
            &&& t.subrange((name.len() + 1) as int, t.len() as int) == body
        }),
{
    reveal_strlit(":");
    let t = name + ":"@ + body;
    let c = name.len() as int;
    assert(t.subrange(c, c + 1) =~= ":"@);
    assert(occurs_at(t, ":"@, c));
    assert forall|j: int| 0 <= j < c implies !occurs_at(t, ":"@, j) by {
        assert(t.subrange(j, j + 1)[0] == name[j]);
    }
    let w = choose|i: int| occurs_at(t, ":"@, i) && forall|j: int| 0 <= j < i ==> !occurs_at(t, ":"@, j);
    assert(occurs_at(t, ":"@, c) && forall|j: int| 0 <= j < c ==> !occurs_at(t, ":"@, j));
    assert(w == c) by {
        if w < c {} else if w > c {}
    }
    assert(t.subrange(0, c) =~= name);
    assert(t.subrange(c + 1, t.len() as int) =~= body);
}

proof fn lemma_params_text_ends(ps: Seq<ParamView>)
    requires
        ps.len() > 0,
        forall|i: int| 0 <= i < ps.len() ==> valid_param(#[trigger] ps[i]),
    ensures
        trim(params_text(ps)) == params_text(ps),
        params_text(ps).len() > 0,
{
    reveal_strlit(",");
    let body = params_text(ps);
    lemma_param_shape(ps[0]);
    lemma_last_is_paren(ps);
    if ps.len() > 1 {
        assert(body == param_text(ps[0]) + ","@ + params_text(ps.drop_first()));
        assert(body[0] == param_text(ps[0])[0]);
    }
    lemma_trim_id(body);
}

/// Writing a name and parameters as a spec string and parsing it gives back
/// the same name and the same parameters, in order and with their types.
#[verifier::rlimit(100)]
pub proof fn lemma_spec_round_trip(name: Seq<char>, ps: Seq<ParamView>)
    requires
        valid_name(name),
        forall|i: int| 0 <= i < ps.len() ==> valid_param(#[trigger] ps[i]),
    ensures
        parsed_spec(spec_text(name, ps)) == Ok::<(Seq<char>, Seq<ParamView>), Seq<char>>((name, ps)),
{
    reveal_strlit(":");
    lemma_trim_id(name);
    if ps.len() == 0 {
        assert(ps =~= Seq::<ParamView>::empty());
        assert(!contains(name, ":"@)) by {
            if contains(name, ":"@) {
                let i = choose|i: int| occurs_at(name, ":"@, i);
                assert(name.subrange(i, i + 1)[0] == name[i]);
            }
        }
    } else {
        let body = params_text(ps);
        let t = name + ":"@ + body;
        lemma_params_text_ends(ps);
        lemma_last_is_paren(ps);
        assert(t.last() == body.last());
        assert(t[0] == name[0]);
        lemma_trim_id(t);
        lemma_first_colon(name, body);
        assert(body.subrange(0, body.len() as int) =~= body);
        lemma_pieces_of_params(body, 0, ps);
        lemma_params_read_back(ps);
        assert(spec_text(name, ps) == t);
    }
}

proof fn lemma_last_is_paren(ps: Seq<ParamView>)
    requires
        ps.len() > 0,
        forall|i: int| 0 <= i < ps.len() ==> valid_param(#[trigger] ps[i]),
    ensures
        params_text(ps).len() > 0,
        params_text(ps).last() == ')',
    decreases ps.len(),
{
    lemma_param_shape(ps[0]);
    if ps.len() > 1 {
        let rest = ps.drop_first();
        assert forall|i: int| 0 <= i < rest.len() implies valid_param(#[trigger] rest[i]) by {
            assert(rest[i] == ps[i + 1]);
        }
        lemma_last_is_paren(rest);
    }
}

} // verus!
