//! General facts about compiling templates.
use vstd::prelude::*;
use crate::style::{ansi_of, lemma_reset_is_style, lemma_style_name_plain, reset_seq};
use crate::template::{lemma_prefixed_concat, prefixed, render, render_from, render_token, value_style, TemplateError};
use crate::text::{lemma_span_append, lemma_span_bound, lemma_span_prepend, lemma_span_run, span_before};

verus! {

/// What follows a prefix `p` compiles as it would on its own.
pub proof fn lemma_render_prepend(p: Seq<char>, s: Seq<char>, k: int)
    requires
        0 <= k,
    ensures
        render_from(p + s, p.len() + k) == render_from(s, k),
    decreases s.len() - k,
{
    if k < s.len() {
        let q = p + s;
        assert(q[p.len() + k] == s[k]);
        if k + 1 < s.len() {
            assert(q[p.len() + k + 1] == s[k + 1]);
            lemma_render_prepend(p, s, k + 2);
            lemma_span_prepend(p, s, '}', k + 2);
            lemma_span_bound(s, '}', k + 2);
            let j = k + 2 + span_before(s, '}', k + 2);
            if j < s.len() {
                assert(q.subrange(p.len() + k + 1, p.len() + j) =~= s.subrange(k + 1, j));
                lemma_render_prepend(p, s, j + 1);
            }
        }
        lemma_render_prepend(p, s, k + 1);
    }
}

/// Where `a` compiles, `a + b` compiles to `a`'s output in front of `b`'s:
/// no unit of `a` reaches into `b`.
pub proof fn lemma_render_append(a: Seq<char>, b: Seq<char>)
    requires
        render(a) is Ok,
    ensures
        render(a + b) == prefixed(render(a)->Ok_0, render(b)),
{
    lemma_render_append_from(a, b, 0);
}

proof fn lemma_render_append_from(a: Seq<char>, b: Seq<char>, i: int)
    requires
        0 <= i <= a.len(),
        render_from(a, i) is Ok,
    ensures
        render_from(a + b, i) == prefixed(render_from(a, i)->Ok_0, render(b)),
    decreases a.len() - i,
{
    let q = a + b;
    if i == a.len() {
        lemma_render_prepend(a, b, 0);
        if let Ok(t) = render(b) {
            assert(Seq::<char>::empty() + t =~= t);
        }
    } else {
        assert(q[i] == a[i]);
        if i + 1 < a.len() {
            assert(q[i + 1] == a[i + 1]);
        }
        if a[i] == '{' {
            if a[i + 1] == '{' {
                lemma_render_append_from(a, b, i + 2);
                lemma_prefixed_concat(seq!['{'], render_from(a, i + 2)->Ok_0, render(b));
            } else if a[i + 1] == '}' {
                lemma_render_append_from(a, b, i + 2);
                lemma_prefixed_concat(seq!['{', '}'], render_from(a, i + 2)->Ok_0, render(b));
            } else {
                let j = i + 2 + span_before(a, '}', i + 2);
                lemma_span_append(a, b, '}', i + 2);
                assert(q.subrange(i + 1, j) =~= a.subrange(i + 1, j));
                lemma_render_append_from(a, b, j + 1);
                lemma_prefixed_concat(
                    render_token(a.subrange(i + 1, j)),
                    render_from(a, j + 1)->Ok_0,
                    render(b),
                );
            }
        } else if a[i] == '}' {
            lemma_render_append_from(a, b, i + 2);
            lemma_prefixed_concat(seq!['}'], render_from(a, i + 2)->Ok_0, render(b));
        } else {
            lemma_render_append_from(a, b, i + 1);
            lemma_prefixed_concat(seq![a[i]], render_from(a, i + 1)->Ok_0, render(b));
        }
    }
}

/// A template without braces compiles to itself.
pub proof fn lemma_plain_text_unchanged(t: Seq<char>)
    requires
        forall|i: int| 0 <= i < t.len() ==> t[i] != '{' && t[i] != '}',
    ensures
        render(t) == Ok::<Seq<char>, TemplateError>(t),
{
    lemma_plain_text_from(t, 0);
    assert(t.subrange(0, t.len() as int) =~= t);
}

proof fn lemma_plain_text_from(t: Seq<char>, i: int)
    requires
        0 <= i <= t.len(),
        forall|k: int| 0 <= k < t.len() ==> t[k] != '{' && t[k] != '}',
    ensures
        render_from(t, i) == Ok::<Seq<char>, TemplateError>(t.subrange(i, t.len() as int)),
    decreases t.len() - i,
{
    if i < t.len() {
        lemma_plain_text_from(t, i + 1);
        assert(seq![t[i]] + t.subrange(i + 1, t.len() as int) =~= t.subrange(i, t.len() as int));
    } else {
        assert(t.subrange(i, t.len() as int) =~= Seq::<char>::empty());
    }
}

/// A character outside every brace token is copied: after a part `a` that
/// compiles on its own, a character `c` other than a brace lands right after
/// `a`'s output, and what follows compiles as it would on its own.
pub proof fn lemma_literal_kept(a: Seq<char>, c: char, b: Seq<char>)
    requires
        render(a) is Ok,
        c != '{',
        c != '}',
    ensures
        render(a + seq![c] + b) == prefixed(render(a)->Ok_0 + seq![c], render(b)),
{
    let cb = seq![c] + b;
    assert(a + seq![c] + b =~= a + cb);
    lemma_render_append(a, cb);
    assert(cb[0] == c);
    lemma_render_prepend(seq![c], b, 0);
    assert(seq![c].len() + 0 == 1);
    lemma_prefixed_concat(render(a)->Ok_0, seq![c], render(b));
}

/// The token `{name}` of a style name compiles to the style's escape sequence.
pub proof fn lemma_style_token(name: Seq<char>)
    requires
        ansi_of(name) is Some,
    ensures
        render(seq!['{'] + name + seq!['}']) == Ok::<Seq<char>, TemplateError>(ansi_of(name)->0),
{
    lemma_style_name_plain(name);
    lemma_braced(name);
}

/// `{name}` with a non-empty `name` that holds no `}` and does not start with
/// `{` is a single token.
proof fn lemma_braced(name: Seq<char>)
    requires
        name.len() > 0,
        name[0] != '{',
        forall|i: int| 0 <= i < name.len() ==> name[i] != '}',
    ensures
        render(seq!['{'] + name + seq!['}']) == Ok::<Seq<char>, TemplateError>(render_token(name)),
{
    let s = seq!['{'] + name + seq!['}'];
    let n = name.len() as int;
    assert(s[0] == '{');
    assert(s[1] == name[0]);
    assert(s[n + 1] == '}');
    assert forall|k: int| 2 <= k < n + 1 implies s[k] != '}' by {
        assert(s[k] == name[k - 1]);
    }
    lemma_span_run(s, '}', 2, n + 1);
    assert(s.subrange(1, n + 1) =~= name);
    assert(render_from(s, n + 2) == Ok::<Seq<char>, TemplateError>(Seq::empty()));
    assert(render_token(name) + Seq::<char>::empty() =~= render_token(name));
}

/// A value with a style, `{body:name}`, compiles to a reset, the style, the
/// placeholder `{body}` and a reset. The body holds no `}` or `:`, and does
/// not start with `{` (else the template would start with the escape `{{`).
/// The style is not `reset`, which is not repeated after the leading reset.
pub proof fn lemma_styled_value(body: Seq<char>, name: Seq<char>)
    requires
        ansi_of(name) is Some,
        name != "reset"@,
        forall|i: int| 0 <= i < body.len() ==> body[i] != '}' && body[i] != ':',
        body.len() > 0 ==> body[0] != '{',
    ensures
        render(seq!['{'] + body + seq![':'] + name + seq!['}']) == Ok::<Seq<char>, TemplateError>(
            reset_seq() + ansi_of(name)->0 + seq!['{'] + body + seq!['}'] + reset_seq(),
        ),
{
    lemma_value_token(body, name);
}

/// A value with the style `reset`, `{body:reset}`, compiles to the
/// placeholder `{body}` with exactly one reset on each side. The body is as
/// in [`lemma_styled_value`].
pub proof fn lemma_reset_value(body: Seq<char>)
    requires
        forall|i: int| 0 <= i < body.len() ==> body[i] != '}' && body[i] != ':',
        body.len() > 0 ==> body[0] != '{',
    ensures
        render(seq!['{'] + body + seq![':'] + "reset"@ + seq!['}']) == Ok::<
            Seq<char>,
            TemplateError,
        >(reset_seq() + seq!['{'] + body + seq!['}'] + reset_seq()),
{
    lemma_reset_is_style();
    lemma_value_token(body, "reset"@);
    assert(reset_seq() + Seq::<char>::empty() =~= reset_seq());
}

proof fn lemma_value_token(body: Seq<char>, name: Seq<char>)
    requires
        ansi_of(name) is Some,
        forall|i: int| 0 <= i < body.len() ==> body[i] != '}' && body[i] != ':',
        body.len() > 0 ==> body[0] != '{',
    ensures
        render(seq!['{'] + body + seq![':'] + name + seq!['}']) == Ok::<Seq<char>, TemplateError>(
            reset_seq() + value_style(name) + seq!['{'] + body + seq!['}'] + reset_seq(),
        ),
{
    lemma_style_name_plain(name);
    let tok = body + seq![':'] + name;
    let m = body.len() as int;
    assert(tok[m] == ':');
    assert forall|i: int| 0 <= i < tok.len() implies tok[i] != '}' by {
        if i > m {
            assert(tok[i] == name[i - m - 1]);
        }
    }
    if m > 0 {
        assert(tok[0] == body[0]);
    }
    if ansi_of(tok) is Some {
        lemma_style_name_plain(tok);
    }
    assert(ansi_of(tok) is None);
    lemma_span_run(tok, ':', 0, m);
    assert(tok.subrange(m + 1, tok.len() as int) =~= name);
    assert(tok.subrange(0, m) =~= body);
    assert(seq!['{'] + body + seq![':'] + name + seq!['}'] =~= seq!['{'] + tok + seq!['}']);
    lemma_braced(tok);
}

/// A token that names no style and is no value with a style is kept as it
/// stands, braces included.
pub proof fn lemma_other_token_kept(name: Seq<char>)
    requires
        forall|i: int| 0 <= i < name.len() ==> name[i] != '}',
        name.len() > 0 ==> name[0] != '{',
        ansi_of(name) is None,
        span_before(name, ':', 0) < name.len() ==> ansi_of(
            name.subrange(span_before(name, ':', 0) + 1int, name.len() as int),
        ) is None,
    ensures
        render(seq!['{'] + name + seq!['}']) == Ok::<Seq<char>, TemplateError>(
            seq!['{'] + name + seq!['}'],
        ),
{
    let s = seq!['{'] + name + seq!['}'];
    if name.len() == 0 {
        assert(s =~= seq!['{', '}']);
        assert(render_from(s, 2) == Ok::<Seq<char>, TemplateError>(Seq::empty()));
        assert(seq!['{', '}'] + Seq::<char>::empty() =~= s);
    } else {
        lemma_braced(name);
    }
}

/// The output is a function of the template's characters alone: equal
/// templates compile to equal results.
pub proof fn lemma_deterministic(a: Seq<char>, b: Seq<char>)
    requires
        a == b,
    ensures
        render(a) == render(b),
{
}

} // verus!
